//! Reading the file list out of a parsed torrent document: the torrent's
//! name and comment, and one entry per contained file with its position,
//! path and length.

use vstd::prelude::*;
use crate::bencode::Bencode;
use crate::error::Error;
use vstd::utf8::{decode_utf8, valid_utf8};

verus! {

/// One file of a torrent: its position in the torrent's file list, its
/// slash-joined relative path, and its length in bytes.
#[derive(Debug)]
pub struct TorrentFileEntry {
    pub index: usize,
    pub path: String,
    pub length: i64,
}

/// What a torrent document describes: its name, its comment, and its files.
#[derive(Debug)]
pub struct TorrentInfo {
    pub name: String,
    pub comment: String,
    pub files: Vec<TorrentFileEntry>,
}

/// A text key as dictionary key bytes.
pub open spec fn spec_key(s: Seq<char>) -> Seq<u8> {
    s.map_values(|c: char| c as u8)
}

/// The bytes of an ASCII key.
fn ascii_bytes(s: &str) -> (r: Vec<u8>)
    ensures
        r@ == spec_key(s@),
{
    let n = s.unicode_len();
    let mut out: Vec<u8> = Vec::new();
    for i in 0..n
        invariant
            n == s@.len(),
            out@.len() == i,
            forall|j: int| 0 <= j < i ==> out@[j] == (s@[j] as u8),
    {
        let c = s.get_char(i);
        out.push(c as u8);
    }
    proof {
        assert(out@ =~= spec_key(s@));
    }
    out
}

/// Byte-wise equality of two byte vectors.
fn bytes_eq(a: &Vec<u8>, b: &Vec<u8>) -> (r: bool)
    ensures
        r == (a@ == b@),
{
    if a.len() != b.len() {
        assert(a@ != b@) by {
            assert(a@.len() != b@.len());
        }
        return false;
    }
    let n = a.len();
    for i in 0..n
        invariant
            n == a@.len(),
            n == b@.len(),
            forall|j: int| 0 <= j < i ==> a@[j] == b@[j],
    {
        if a[i] != b[i] {
            return false;
        }
    }
    proof {
        assert(a@ =~= b@);
    }
    true
}

/// The first member of a dictionary whose key reads `key`, if any.
pub open spec fn spec_bdict_lookup(fields: Seq<(Vec<u8>, Bencode)>, key: Seq<u8>) -> Option<
    Bencode,
>
    decreases fields.len(),
{
    if fields.len() == 0 {
        None
    } else if fields[0].0@ == key {
        Some(fields[0].1)
    } else {
        spec_bdict_lookup(fields.drop_first(), key)
    }
}

/// The first member of a dictionary whose key reads `key`, if any.
#[verifier::loop_isolation(false)]
fn bdict_get<'a>(fields: &'a Vec<(Vec<u8>, Bencode)>, key: &Vec<u8>) -> (r: Option<&'a Bencode>)
    ensures
        match r {
            Some(x) => spec_bdict_lookup(fields@, key@) == Some(*x),
            None => spec_bdict_lookup(fields@, key@) is None,
        },
{
    let n = fields.len();
    proof {
        assert(fields@.skip(0) =~= fields@);
    }
    for i in 0..n
        invariant
            n == fields@.len(),
            spec_bdict_lookup(fields@.skip(i as int), key@) == spec_bdict_lookup(fields@, key@),
    {
        proof {
            assert(fields@.skip(i as int)[0] == fields@[i as int]);
            assert(fields@.skip(i as int).drop_first() =~= fields@.skip(i + 1));
        }
        if bytes_eq(&fields[i].0, key) {
            return Some(&fields[i].1);
        }
    }
    proof {
        assert(fields@.skip(n as int).len() == 0);
    }
    None
}

/// The decoded text of a byte string, or nothing visible when it is not
/// valid UTF-8.
pub open spec fn spec_utf8_or_empty(b: Seq<u8>) -> Seq<char> {
    if valid_utf8(b) {
        decode_utf8(b)
    } else {
        Seq::empty()
    }
}

/// The text under `key`: the decoded byte-string member, or empty when the
/// member is absent, not a byte string, or not valid UTF-8.
pub open spec fn spec_text_field(fields: Seq<(Vec<u8>, Bencode)>, key: Seq<u8>) -> Seq<char> {
    match spec_bdict_lookup(fields, key) {
        Some(Bencode::Bytes(b)) => spec_utf8_or_empty(b@),
        _ => Seq::empty(),
    }
}

/// The length under the `length` key, or zero when absent or not an integer.
pub open spec fn spec_length_field(fields: Seq<(Vec<u8>, Bencode)>) -> int {
    match spec_bdict_lookup(fields, spec_key("length"@)) {
        Some(Bencode::Int(n)) => n as int,
        _ => 0,
    }
}

/// The decodable byte-string components among path parts, in order.
pub open spec fn spec_path_parts(parts: Seq<Bencode>) -> Seq<Seq<char>>
    decreases parts.len(),
{
    if parts.len() == 0 {
        Seq::empty()
    } else {
        let rest = spec_path_parts(parts.drop_last());
        match parts.last() {
            Bencode::Bytes(b) => if valid_utf8(b@) {
                rest.push(decode_utf8(b@))
            } else {
                rest
            },
            _ => rest,
        }
    }
}

/// Texts joined with slashes.
pub open spec fn spec_join_slash(parts: Seq<Seq<char>>) -> Seq<char>
    decreases parts.len(),
{
    if parts.len() == 0 {
        Seq::empty()
    } else if parts.len() == 1 {
        parts[0]
    } else {
        spec_join_slash(parts.drop_last()) + seq!['/'] + parts.last()
    }
}

/// The path of one file entry: its `path` list's decodable components
/// joined with slashes, or empty when the member is absent or not a list.
pub open spec fn spec_entry_path(fields: Seq<(Vec<u8>, Bencode)>) -> Seq<char> {
    match spec_bdict_lookup(fields, spec_key("path"@)) {
        Some(Bencode::List(ps)) => spec_join_slash(spec_path_parts(ps@)),
        _ => Seq::empty(),
    }
}

/// The file entries of a multi-file torrent: one per dictionary in the
/// `files` list, each carrying its position in that list, its joined path,
/// and its length; anything that is not a dictionary yields no entry.
pub open spec fn spec_file_entries(list: Seq<Bencode>) -> Seq<(int, Seq<char>, int)>
    decreases list.len(),
{
    if list.len() == 0 {
        Seq::empty()
    } else {
        let rest = spec_file_entries(list.drop_last());
        match list.last() {
            Bencode::Dict(fd) => rest.push(
                ((list.len() - 1) as int, spec_entry_path(fd@), spec_length_field(fd@)),
            ),
            _ => rest,
        }
    }
}

/// Decodes a byte string, or yields the empty string for invalid UTF-8.
fn utf8_or_empty(b: &Vec<u8>) -> (r: String)
    ensures
        r@ == spec_utf8_or_empty(b@),
{
    match crate::cli::utf8_string_of(b) {
        Some(s) => s,
        None => String::new(),
    }
}

/// The text under `key` as an owned string.
fn text_field(fields: &Vec<(Vec<u8>, Bencode)>, key: &Vec<u8>) -> (r: String)
    ensures
        r@ == spec_text_field(fields@, key@),
{
    match bdict_get(fields, key) {
        Some(Bencode::Bytes(b)) => utf8_or_empty(b),
        _ => String::new(),
    }
}

/// The slash-joined path of one file entry.
#[verifier::loop_isolation(false)]
fn entry_path(fields: &Vec<(Vec<u8>, Bencode)>) -> (r: String)
    ensures
        r@ == spec_entry_path(fields@),
{
    let path_key = ascii_bytes("path");
    let parts = match bdict_get(fields, &path_key) {
        Some(Bencode::List(ps)) => ps,
        _ => {
            return String::new();
        },
    };
    let mut out = String::new();
    let mut joined_any = false;
    let n = parts.len();
    for i in 0..n
        invariant
            n == parts@.len(),
            joined_any == (spec_path_parts(parts@.take(i as int)).len() > 0),
            out@ == spec_join_slash(spec_path_parts(parts@.take(i as int))),
    {
        proof {
            assert(parts@.take(i + 1).drop_last() =~= parts@.take(i as int));
            assert(parts@.take(i + 1).last() == parts@[i as int]);
        }
        match &parts[i] {
            Bencode::Bytes(b) => {
                match crate::cli::utf8_string_of(b) {
                    Some(piece) => {
                        if joined_any {
                            crate::text::push_char(&mut out, '/');
                        }
                        out.append(piece.as_str());
                        joined_any = true;
                        proof {
                            let prevpp = spec_path_parts(parts@.take(i as int));
                            let pp = spec_path_parts(parts@.take(i + 1));
                            assert(pp == prevpp.push(decode_utf8(b@)));
                            assert(piece@ == decode_utf8(b@));
                            if prevpp.len() > 0 {
                                assert(pp.len() >= 2);
                                assert(pp.drop_last() =~= prevpp);
                                assert(pp.last() == decode_utf8(b@));
                                assert(spec_join_slash(pp) == spec_join_slash(prevpp) + seq!['/']
                                    + decode_utf8(b@));
                                assert(out@ =~= spec_join_slash(pp));
                            } else {
                                assert(pp.len() == 1);
                                assert(spec_join_slash(prevpp) =~= Seq::<char>::empty());
                                assert(pp[0] == decode_utf8(b@));
                                assert(out@ =~= spec_join_slash(pp));
                            }
                        }
                    },
                    None => {},
                }
            },
            _ => {},
        }
    }
    proof {
        assert(parts@.take(n as int) =~= parts@);
    }
    out
}

/// The length of one file entry.
fn length_field(fields: &Vec<(Vec<u8>, Bencode)>) -> (r: i64)
    ensures
        r as int == spec_length_field(fields@),
{
    let length_key = ascii_bytes("length");
    match bdict_get(fields, &length_key) {
        Some(Bencode::Int(n)) => *n,
        _ => 0,
    }
}

/// The entries of a torrent description: a multi-file torrent lists its
/// `files` dictionaries; a single-file torrent lists itself, at position
/// zero, under its own name; a `files` member of any other shape lists
/// nothing.
pub open spec fn spec_torrent_entries(info: Seq<(Vec<u8>, Bencode)>) -> Seq<(int, Seq<char>, int)> {
    match spec_bdict_lookup(info, spec_key("files"@)) {
        Some(Bencode::List(l)) => spec_file_entries(l@),
        Some(_) => Seq::<(int, Seq<char>, int)>::empty(),
        None => seq![
            (0int, spec_text_field(info, spec_key("name"@)), spec_length_field(info)),
        ],
    }
}

/// What a parsed document describes: one of the three rejections, or the
/// name, comment and file entries.
pub enum TorrentView {
    /// The document is not a dictionary.
    BadFormat,
    /// The document has no `info` member.
    MissingInfo,
    /// The `info` member is not a dictionary.
    BadInfo,
    /// A well-formed description.
    Parsed { name: Seq<char>, comment: Seq<char>, entries: Seq<(int, Seq<char>, int)> },
}

/// The description a document carries.
pub open spec fn spec_torrent_view(doc: Bencode) -> TorrentView {
    match doc {
        Bencode::Dict(top) => match spec_bdict_lookup(top@, spec_key("info"@)) {
            None => TorrentView::MissingInfo,
            Some(Bencode::Dict(info)) => TorrentView::Parsed {
                name: spec_text_field(info@, spec_key("name"@)),
                comment: spec_text_field(top@, spec_key("comment"@)),
                entries: spec_torrent_entries(info@),
            },
            Some(_) => TorrentView::BadInfo,
        },
        _ => TorrentView::BadFormat,
    }
}

/// Reads the torrent description out of a parsed document, exactly as
/// `spec_torrent_view` says: each malformed shape is rejected with its own
/// error, and a well-formed document yields its name, comment and file
/// entries.
#[verifier::loop_isolation(false)]
pub fn torrent_info_of(doc: &Bencode) -> (r: Result<TorrentInfo, Error>)
    ensures
        ({
            match spec_torrent_view(*doc) {
                TorrentView::BadFormat => r matches Err(e) && e matches Error::Custom(m) && m@
                    == "Invalid torrent format"@,
                TorrentView::MissingInfo => r matches Err(e) && e matches Error::Custom(m) && m@
                    == "Missing info dictionary"@,
                TorrentView::BadInfo => r matches Err(e) && e matches Error::Custom(m) && m@
                    == "Invalid info dictionary"@,
                TorrentView::Parsed { name, comment, entries } => r matches Ok(t) && {
                    &&& t.name@ == name
                    &&& t.comment@ == comment
                    &&& t.files@.len() == entries.len()
                    &&& (forall|k: int|
                        0 <= k < entries.len() ==> (#[trigger] t.files@[k]).index as int
                            == entries[k].0 && t.files@[k].path@ == entries[k].1
                            && t.files@[k].length as int == entries[k].2)
                },
            }
        }),
{
    let top = match doc {
        Bencode::Dict(fields) => fields,
        _ => {
            let mut m = String::new();
            m.append("Invalid torrent format");
            return Err(Error::Custom(m));
        },
    };
    let info_key = ascii_bytes("info");
    let info_val = match bdict_get(top, &info_key) {
        Some(v) => v,
        None => {
            let mut m = String::new();
            m.append("Missing info dictionary");
            return Err(Error::Custom(m));
        },
    };
    let info = match info_val {
        Bencode::Dict(fields) => fields,
        _ => {
            let mut m = String::new();
            m.append("Invalid info dictionary");
            return Err(Error::Custom(m));
        },
    };
    let name_key = ascii_bytes("name");
    let comment_key = ascii_bytes("comment");
    let name = text_field(info, &name_key);
    let comment = text_field(top, &comment_key);
    let files_key = ascii_bytes("files");
    let mut files: Vec<TorrentFileEntry> = Vec::new();
    match bdict_get(info, &files_key) {
        Some(Bencode::List(list)) => {
            let n = list.len();
            for i in 0..n
                invariant
                    n == list@.len(),
                    ({
                        let entries = spec_file_entries(list@.take(i as int));
                        &&& files@.len() == entries.len()
                        &&& (forall|k: int|
                            0 <= k < entries.len() ==> (#[trigger] files@[k]).index as int
                                == entries[k].0 && files@[k].path@ == entries[k].1
                                && files@[k].length as int == entries[k].2)
                    }),
            {
                proof {
                    assert(list@.take(i + 1).drop_last() =~= list@.take(i as int));
                    assert(list@.take(i + 1).last() == list@[i as int]);
                }
                match &list[i] {
                    Bencode::Dict(fd) => {
                        let length = length_field(fd);
                        let path = entry_path(fd);
                        files.push(TorrentFileEntry { index: i, path, length });
                    },
                    _ => {},
                }
            }
            proof {
                assert(list@.take(n as int) =~= list@);
            }
        },
        Some(_) => {},
        None => {
            let single_name = name.clone();
            let length = length_field(info);
            files.push(TorrentFileEntry { index: 0, path: single_name, length });
        },
    }
    Ok(TorrentInfo { name, comment, files })
}

} // verus!
