//! Command-line intake: picking downloadable URLs and torrent file paths
//! out of an argument vector, and decoding `thunder://` URLs into the real
//! URL they wrap.

use vstd::prelude::*;
use base64::Engine;
use crate::text::{spec_ends_with, spec_starts_with, str_ends_with, str_starts_with};

verus! {

/// The Unicode lowercase of a string, as `str::to_lowercase` computes it.
pub uninterp spec fn lower_of(s: Seq<char>) -> Seq<char>;

/// Relies on str::to_lowercase: the result depends on the characters alone,
/// and an empty string stays empty.
#[verifier::external_body]
fn lowercase(s: &str) -> (r: String)
    ensures
        r@ == lower_of(s@),
        s@.len() == 0 ==> r@.len() == 0,
{
    s.to_lowercase()
}

/// What the standard-alphabet base64 decoding of a text yields, when the
/// text is valid base64.
pub uninterp spec fn b64_standard_decode(s: Seq<char>) -> Option<Seq<u8>>;

/// Relies on base64's general_purpose::STANDARD engine: decoding is a
/// function of the input text alone; invalid base64 yields nothing.
#[verifier::external_body]
fn b64_decode(s: &str) -> (r: Option<Vec<u8>>)
    ensures
        match r {
            Some(v) => b64_standard_decode(s@) == Some(v@),
            None => b64_standard_decode(s@) is None,
        },
{
    match base64::engine::general_purpose::STANDARD.decode(s) {
        Ok(v) => Some(v),
        Err(_) => None,
    }
}

/// Relies on String::from_utf8: it succeeds exactly on valid UTF-8 and
/// decodes it.
#[verifier::external_body]
pub(crate) fn utf8_string_of(bytes: &Vec<u8>) -> (r: Option<String>)
    ensures
        match r {
            Some(s) => vstd::utf8::valid_utf8(bytes@) && s@ == vstd::utf8::decode_utf8(bytes@),
            None => !vstd::utf8::valid_utf8(bytes@),
        },
{
    match String::from_utf8(bytes.clone()) {
        Ok(s) => Some(s),
        Err(_) => None,
    }
}

/// Relies on Path::exists: whether the path points at an existing entity.
/// The answer depends on the file system at call time, so nothing is
/// promised of it.
#[verifier::external_body]
fn path_exists(s: &str) -> bool {
    std::path::Path::new(s).exists()
}

/// Whether the lowercased text begins with one of the URL schemes the
/// application downloads from.
pub open spec fn spec_is_downloadable(lower: Seq<char>) -> bool {
    ||| spec_starts_with(lower, "http://"@)
    ||| spec_starts_with(lower, "https://"@)
    ||| spec_starts_with(lower, "ftp://"@)
    ||| spec_starts_with(lower, "magnet:"@)
    ||| spec_starts_with(lower, "thunder://"@)
    ||| spec_starts_with(lower, "motrix://"@)
}

/// Whether a string is a downloadable URL: its lowercase form begins with
/// one of the supported schemes.
pub fn is_downloadable_url(s: &str) -> (r: bool)
    ensures
        r == spec_is_downloadable(lower_of(s@)),
{
    let lower = lowercase(s);
    let l = lower.as_str();
    str_starts_with(l, "http://") || str_starts_with(l, "https://") || str_starts_with(
        l,
        "ftp://",
    ) || str_starts_with(l, "magnet:") || str_starts_with(l, "thunder://") || str_starts_with(
        l,
        "motrix://",
    )
}

/// Whether a string is a path to an existing torrent file. Only strings
/// whose lowercase form ends in `.torrent` qualify; among those, the file
/// system has the last word, so only the negative direction is pinned.
pub fn is_torrent_file(s: &str) -> (r: bool)
    ensures
        r ==> spec_ends_with(lower_of(s@), ".torrent"@),
{
    let lower = lowercase(s);
    if str_ends_with(lower.as_str(), ".torrent") {
        path_exists(s)
    } else {
        false
    }
}

/// Case-insensitive match of one character against a lowercase letter:
/// either the character itself, or its uppercase ASCII form.
pub open spec fn spec_ascii_ci_eq(c: char, lower: char) -> bool {
    c == lower || ('A' <= c <= 'Z' && (c as u32) + 32 == (lower as u32))
}

/// Whether the first characters of `s` spell `thunder://` in any ASCII case.
pub open spec fn spec_thunder_prefix(s: Seq<char>) -> bool {
    s.len() >= 10 && (forall|i: int|
        0 <= i < 10 ==> spec_ascii_ci_eq(s[i], #[trigger] ("thunder://"@)[i]))
}

/// Whether the first characters spell `thunder://` in any ASCII case.
fn has_thunder_prefix(s: &str) -> (r: bool)
    ensures
        r == spec_thunder_prefix(s@),
{
    let n = s.unicode_len();
    if n < 10 {
        return false;
    }
    let pattern = "thunder://";
    proof {
        reveal_strlit("thunder://");
    }
    for i in 0..10usize
        invariant
            n == s@.len(),
            n >= 10,
            pattern@ == "thunder://"@,
            pattern@.len() == 10,
            forall|j: int| 0 <= j < i ==> spec_ascii_ci_eq(s@[j], ("thunder://"@)[j]),
    {
        let c = s.get_char(i);
        let p = pattern.get_char(i);
        let matches_ci = c == p || ('A' <= c && c <= 'Z' && (c as u32) + 32 == (p as u32));
        if !matches_ci {
            return false;
        }
    }
    true
}

/// What decoding a `thunder://` URL yields. The wrapped text is base64 of
/// `AA<url>ZZ`; the decoded URL is what stands between those marks. A URL
/// without the prefix, or whose payload does not decode to non-empty text,
/// stays as it is.
pub open spec fn spec_decode_thunder(s: Seq<char>) -> Seq<char> {
    if !spec_thunder_prefix(s) {
        s
    } else {
        match b64_standard_decode(s.skip(10)) {
            Some(bytes) => if vstd::utf8::valid_utf8(bytes) {
                let t = vstd::utf8::decode_utf8(bytes);
                let t1 = if spec_starts_with(t, "AA"@) {
                    t.skip(2)
                } else {
                    t
                };
                let t2 = if spec_ends_with(t1, "ZZ"@) {
                    t1.take(t1.len() - 2)
                } else {
                    t1
                };
                if t2.len() > 0 {
                    t2
                } else {
                    s
                }
            } else {
                s
            },
            None => s,
        }
    }
}

/// Decodes a `thunder://` URL to the real URL it wraps, exactly as
/// `spec_decode_thunder` says; anything else passes through unchanged.
pub fn decode_thunder_url(url: &str) -> (r: String)
    ensures
        r@ == spec_decode_thunder(url@),
{
    if !has_thunder_prefix(url) {
        let mut out = String::new();
        out.append(url);
        return out;
    }
    let n = url.unicode_len();
    let encoded = url.substring_char(10, n);
    proof {
        assert(encoded@ =~= url@.skip(10));
    }
    let decoded = match b64_decode(encoded) {
        Some(bytes) => bytes,
        None => {
            let mut out = String::new();
            out.append(url);
            return out;
        },
    };
    let ghost bytesv = decoded@;
    let text = match utf8_string_of(&decoded) {
        Some(t) => t,
        None => {
            let mut out = String::new();
            out.append(url);
            return out;
        },
    };
    let tlen = text.as_str().unicode_len();
    proof {
        reveal_strlit("AA");
        reveal_strlit("ZZ");
        assert(b64_standard_decode(url@.skip(10)) == Some(bytesv));
        assert(vstd::utf8::valid_utf8(bytesv));
        assert(text@ == vstd::utf8::decode_utf8(bytesv));
    }
    let start: usize = if str_starts_with(text.as_str(), "AA") {
        2
    } else {
        0
    };
    let trimmed_front = text.as_str().substring_char(start, tlen);
    proof {
        let t = vstd::utf8::decode_utf8(bytesv);
        if spec_starts_with(t, "AA"@) {
            assert(trimmed_front@ =~= t.skip(2));
        } else {
            assert(trimmed_front@ =~= t);
        }
    }
    let flen = trimmed_front.unicode_len();
    let end: usize = if str_ends_with(trimmed_front, "ZZ") {
        flen - 2
    } else {
        flen
    };
    let trimmed = trimmed_front.substring_char(0, end);
    proof {
        let t1 = trimmed_front@;
        if spec_ends_with(t1, "ZZ"@) {
            assert(trimmed@ =~= t1.take(t1.len() - 2));
        } else {
            assert(trimmed@ =~= t1);
        }
    }
    if trimmed.unicode_len() > 0 {
        let mut out = String::new();
        out.append(trimmed);
        proof {
            assert(out@ =~= spec_decode_thunder(url@));
        }
        out
    } else {
        let mut out = String::new();
        out.append(url);
        proof {
            assert(out@ =~= spec_decode_thunder(url@));
        }
        out
    }
}

/// Every collected entry is the decoded form of some argument beyond the
/// program name that is a downloadable URL or carries the torrent suffix.
pub open spec fn spec_args_sound(argv: Seq<String>, r: Seq<String>) -> bool {
    forall|j: int|
        #![trigger r[j]]
        0 <= j < r.len() ==> exists|i: int|
            #![trigger argv[i]]
            1 <= i < argv.len() && r[j]@ == spec_decode_thunder(argv[i]@) && (
            spec_is_downloadable(lower_of(argv[i]@)) || spec_ends_with(
                lower_of(argv[i]@),
                ".torrent"@,
            ))
}

/// Every downloadable URL among the first `k` arguments appears, decoded,
/// among the collected entries.
pub open spec fn spec_args_complete_upto(argv: Seq<String>, r: Seq<String>, k: int) -> bool {
    forall|i: int|
        #![trigger argv[i]]
        1 <= i < k && spec_is_downloadable(lower_of(argv[i]@)) ==> exists|j: int|
            #![trigger r[j]]
            0 <= j < r.len() && r[j]@ == spec_decode_thunder(argv[i]@)
}

/// Collects the download intents among command-line arguments: every
/// argument after the program name that is a downloadable URL or an
/// existing torrent file path, each with its `thunder://` form decoded.
/// Every returned entry comes from such an argument, and every downloadable
/// URL among the arguments is returned; whether a torrent path counts rests
/// with the file system.
pub fn parse_args(argv: &Vec<String>) -> (r: Vec<String>)
    ensures
        spec_args_sound(argv@, r@),
        spec_args_complete_upto(argv@, r@, argv@.len() as int),
{
    let mut out: Vec<String> = Vec::new();
    let n = argv.len();
    if n == 0 {
        return out;
    }
    for i in 1..n
        invariant
            n == argv@.len(),
            spec_args_sound(argv@, out@),
            spec_args_complete_upto(argv@, out@, i as int),
    {
        let arg = &argv[i];
        let downloadable = is_downloadable_url(arg.as_str());
        let keep = downloadable || is_torrent_file(arg.as_str());
        let ghost prevout = out@;
        if keep {
            let decoded = decode_thunder_url(arg.as_str());
            out.push(decoded);
            proof {
                assert(out@ == prevout.push(decoded));
                assert forall|j: int| #![trigger out@[j]] 0 <= j < out@.len() implies exists|
                    i2: int,
                |
                    #![trigger argv@[i2]]
                    1 <= i2 < argv@.len() && out@[j]@ == spec_decode_thunder(argv@[i2]@) && (
                    spec_is_downloadable(lower_of(argv@[i2]@)) || spec_ends_with(
                        lower_of(argv@[i2]@),
                        ".torrent"@,
                    )) by {
                    if j < prevout.len() {
                        assert(out@[j] == prevout[j]);
                        let i2 = choose|i2: int|
                            #![trigger argv@[i2]]
                            1 <= i2 < argv@.len() && prevout[j]@ == spec_decode_thunder(argv@[i2]@)
                                && (spec_is_downloadable(lower_of(argv@[i2]@)) || spec_ends_with(
                                lower_of(argv@[i2]@),
                                ".torrent"@,
                            ));
                        assert(out@[j]@ == spec_decode_thunder(argv@[i2]@));
                    } else {
                        assert(out@[j] == decoded);
                        assert(out@[j]@ == spec_decode_thunder(argv@[i as int]@));
                    }
                }
                assert(spec_args_sound(argv@, out@));
                assert forall|i2: int|
                    #![trigger argv@[i2]]
                    1 <= i2 < i + 1 && spec_is_downloadable(lower_of(argv@[i2]@)) implies exists|
                    j: int,
                |
                    #![trigger out@[j]]
                    0 <= j < out@.len() && out@[j]@ == spec_decode_thunder(argv@[i2]@) by {
                    if i2 < i {
                        let j0 = choose|j: int|
                            #![trigger prevout[j]]
                            0 <= j < prevout.len() && prevout[j]@ == spec_decode_thunder(
                                argv@[i2]@,
                            );
                        assert(out@[j0]@ == spec_decode_thunder(argv@[i2]@));
                    } else {
                        assert(out@[out@.len() - 1]@ == spec_decode_thunder(argv@[i2]@));
                    }
                }
                assert(spec_args_complete_upto(argv@, out@, i + 1));
            }
        } else {
            proof {
                assert(!spec_is_downloadable(lower_of(argv@[i as int]@)));
                assert(spec_args_complete_upto(argv@, out@, i + 1));
            }
        }
    }
    out
}

} // verus!
