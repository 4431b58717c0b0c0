//! Turning a fetched tracker-list document into tracker entries: one entry
//! per non-empty line, whitespace trimmed, duplicates dropped.
//!
//! Fetching the documents is the runtime's work; everything from the raw
//! text onward is pinned here.

use vstd::prelude::*;

verus! {

/// The whitespace characters, as the White_Space property defines them.
pub open spec fn spec_is_ws(c: char) -> bool {
    ||| c == ' '
    ||| c == '\t'
    ||| c == '\n'
    ||| c == '\r'
    ||| c == '\u{0B}'
    ||| c == '\u{0C}'
    ||| c == '\u{85}'
    ||| c == '\u{A0}'
    ||| c == '\u{1680}'
    ||| ('\u{2000}' <= c && c <= '\u{200A}')
    ||| c == '\u{2028}'
    ||| c == '\u{2029}'
    ||| c == '\u{202F}'
    ||| c == '\u{205F}'
    ||| c == '\u{3000}'
}

/// Whitespace test on one character.
fn is_ws(c: char) -> (r: bool)
    ensures
        r == spec_is_ws(c),
{
    c == ' ' || c == '\t' || c == '\n' || c == '\r' || c == '\u{0B}' || c == '\u{0C}' || c
        == '\u{85}' || c == '\u{A0}' || c == '\u{1680}' || ('\u{2000}' <= c && c <= '\u{200A}') || c
        == '\u{2028}' || c == '\u{2029}' || c == '\u{202F}' || c == '\u{205F}' || c == '\u{3000}'
}

/// How many whitespace characters the text begins with.
pub open spec fn spec_ws_prefix_len(s: Seq<char>) -> nat
    decreases s.len(),
{
    if s.len() > 0 && spec_is_ws(s[0]) {
        1 + spec_ws_prefix_len(s.drop_first())
    } else {
        0
    }
}

/// A run of `k` leading whitespace characters followed by a non-whitespace
/// character (or the end) is exactly the whitespace prefix.
proof fn lemma_ws_prefix_is(s: Seq<char>, k: int)
    requires
        0 <= k <= s.len(),
        forall|i: int| 0 <= i < k ==> spec_is_ws(#[trigger] s[i]),
        k == s.len() || !spec_is_ws(s[k]),
    ensures
        spec_ws_prefix_len(s) == k,
    decreases s.len(),
{
    if k > 0 {
        lemma_ws_prefix_is(s.drop_first(), k - 1);
    }
}

/// How many whitespace characters the text ends with.
pub open spec fn spec_ws_suffix_len(s: Seq<char>) -> nat
    decreases s.len(),
{
    if s.len() > 0 && spec_is_ws(s.last()) {
        1 + spec_ws_suffix_len(s.drop_last())
    } else {
        0
    }
}

/// A run of `k` trailing whitespace characters preceded by a non-whitespace
/// character (or the start) is exactly the whitespace suffix.
proof fn lemma_ws_suffix_is(s: Seq<char>, k: int)
    requires
        0 <= k <= s.len(),
        forall|i: int| s.len() - k <= i < s.len() ==> spec_is_ws(#[trigger] s[i]),
        k == s.len() || !spec_is_ws(s[s.len() - k - 1]),
    ensures
        spec_ws_suffix_len(s) == k,
    decreases s.len(),
{
    if k > 0 {
        lemma_ws_suffix_is(s.drop_last(), k - 1);
    }
}

/// The text with leading and trailing whitespace removed.
pub open spec fn spec_trim(s: Seq<char>) -> Seq<char> {
    let rest = s.skip(spec_ws_prefix_len(s) as int);
    rest.take(rest.len() - spec_ws_suffix_len(rest))
}

/// Removes leading and trailing whitespace, exactly as `spec_trim` says.
#[verifier::loop_isolation(false)]
pub fn trim_str(s: &str) -> (r: String)
    ensures
        r@ == spec_trim(s@),
{
    let n = s.unicode_len();
    let mut a: usize = 0;
    while a < n && is_ws(s.get_char(a))
        invariant
            a <= n,
            n == s@.len(),
            forall|i: int| 0 <= i < a ==> spec_is_ws(#[trigger] s@[i]),
        decreases n - a,
    {
        a = a + 1;
    }
    proof {
        lemma_ws_prefix_is(s@, a as int);
    }
    if a == n {
        proof {
            assert(s@.skip(a as int).len() == 0);
            assert(spec_trim(s@) =~= Seq::<char>::empty());
        }
        return String::new();
    }
    let mut b: usize = n;
    while b > a && is_ws(s.get_char(b - 1))
        invariant
            a <= b <= n,
            n == s@.len(),
            forall|i: int| b <= i < n ==> spec_is_ws(#[trigger] s@[i]),
        decreases b,
    {
        b = b - 1;
    }
    proof {
        let rest = s@.skip(a as int);
        assert forall|i: int| rest.len() - (n - b) <= i < rest.len() implies spec_is_ws(
            #[trigger] rest[i],
        ) by {
            assert(rest[i] == s@[i + a]);
        }
        if b > a {
            assert(!spec_is_ws(rest[rest.len() - (n - b) - 1])) by {
                assert(rest[b - a - 1] == s@[b - 1]);
            }
        }
        lemma_ws_suffix_is(rest, n - b);
    }
    let out = s.substring_char(a, b);
    proof {
        assert(out@ =~= spec_trim(s@));
    }
    let mut owned = String::new();
    owned.append(out);
    owned
}

/// The index of the first line feed, or the length when there is none.
pub open spec fn spec_first_nl(s: Seq<char>) -> nat
    decreases s.len(),
{
    if s.len() == 0 {
        0
    } else if s[0] == '\n' {
        0
    } else {
        1 + spec_first_nl(s.drop_first())
    }
}

/// A line-feed-free run up to `k` with a line feed (or the end) at `k` puts
/// the first line feed exactly at `k`.
proof fn lemma_first_nl_is(s: Seq<char>, k: int)
    requires
        0 <= k <= s.len(),
        forall|i: int| 0 <= i < k ==> #[trigger] s[i] != '\n',
        k == s.len() || s[k] == '\n',
    ensures
        spec_first_nl(s) == k,
    decreases s.len(),
{
    if k > 0 {
        lemma_first_nl_is(s.drop_first(), k - 1);
    }
}

/// The text split at line feeds: the runs between them, in order. A final
/// line feed closes the last line rather than opening an empty one.
pub open spec fn spec_split_nl(s: Seq<char>) -> Seq<Seq<char>>
    decreases s.len(),
{
    if s.len() == 0 {
        Seq::empty()
    } else {
        let k = spec_first_nl(s) as int;
        seq![s.take(k)] + (if k < s.len() {
            spec_split_nl(s.skip(k + 1))
        } else {
            Seq::empty()
        })
    }
}

/// Splits the text at line feeds, exactly as `spec_split_nl` says.
#[verifier::loop_isolation(false)]
pub fn split_lines(s: &str) -> (r: Vec<String>)
    ensures
        r@.map_values(|l: String| l@) == spec_split_nl(s@),
{
    let n = s.unicode_len();
    let mut out: Vec<String> = Vec::new();
    let mut start: usize = 0;
    proof {
        assert(out@.map_values(|l: String| l@) =~= Seq::<Seq<char>>::empty());
        assert(s@.skip(0) =~= s@);
    }
    for i in 0..n
        invariant
            n == s@.len(),
            start <= i <= n,
            forall|j: int| start <= j < i ==> #[trigger] s@[j] != '\n',
            spec_split_nl(s@) == out@.map_values(|l: String| l@) + spec_split_nl(
                s@.skip(start as int),
            ),
    {
        if s.get_char(i) == '\n' {
            let line = s.substring_char(start, i);
            let mut entry = String::new();
            entry.append(line);
            let ghost prev = out@;
            out.push(entry);
            proof {
                let rest = s@.skip(start as int);
                assert forall|j: int| 0 <= j < i - start implies #[trigger] rest[j] != '\n' by {
                    assert(rest[j] == s@[j + start]);
                }
                assert(rest[i - start] == s@[i as int]);
                lemma_first_nl_is(rest, i - start);
                assert(rest.take(i - start) =~= s@.subrange(start as int, i as int));
                assert(rest.skip(i - start + 1) =~= s@.skip(i + 1));
                assert(out@.map_values(|l: String| l@) =~= prev.map_values(|l: String| l@).push(
                    entry@,
                ));
            }
            start = i + 1;
        }
    }
    if start < n {
        let line = s.substring_char(start, n);
        let mut entry = String::new();
        entry.append(line);
        let ghost prev = out@;
        out.push(entry);
        proof {
            let rest = s@.skip(start as int);
            assert forall|j: int| 0 <= j < rest.len() implies #[trigger] rest[j] != '\n' by {
                assert(rest[j] == s@[j + start]);
            }
            lemma_first_nl_is(rest, rest.len() as int);
            assert(rest.take(rest.len() as int) =~= s@.subrange(start as int, n as int));
            assert(out@.map_values(|l: String| l@) =~= prev.map_values(|l: String| l@).push(
                entry@,
            ));
            assert(out@.map_values(|l: String| l@) =~= spec_split_nl(s@));
        }
    } else {
        proof {
            assert(s@.skip(start as int).len() == 0);
            assert(out@.map_values(|l: String| l@) + spec_split_nl(s@.skip(start as int)) =~= out@
                .map_values(|l: String| l@));
        }
    }
    out
}

/// The tracker entries a document holds: its lines, trimmed, the empty ones
/// dropped.
pub open spec fn spec_trackers_of(text: Seq<char>) -> Seq<Seq<char>> {
    spec_split_nl(text).map_values(|l: Seq<char>| spec_trim(l)).filter(
        |l: Seq<char>| l.len() > 0,
    )
}

/// Extracts the tracker entries of one fetched document, exactly as
/// `spec_trackers_of` says.
#[verifier::loop_isolation(false)]
pub fn extract_trackers(text: &str) -> (r: Vec<String>)
    ensures
        r@.map_values(|l: String| l@) == spec_trackers_of(text@),
{
    let lines = split_lines(text);
    let mut out: Vec<String> = Vec::new();
    let n = lines.len();
    proof {
        assert(lines@.take(0) =~= Seq::<String>::empty());
        reveal(Seq::filter);
        assert(out@.map_values(|l: String| l@) =~= lines@.take(0).map_values(
            |l: String| spec_trim(l@),
        ).filter(|l: Seq<char>| l.len() > 0));
    }
    for i in 0..n
        invariant
            n == lines@.len(),
            out@.map_values(|l: String| l@) == lines@.take(i as int).map_values(
                |l: String| spec_trim(l@),
            ).filter(|l: Seq<char>| l.len() > 0),
    {
        let t = trim_str(lines[i].as_str());
        let ghost prevmapped = lines@.take(i as int).map_values(|l: String| spec_trim(l@));
        let ghost prevout = out@;
        let keep = t.as_str().unicode_len() > 0;
        if keep {
            out.push(t);
        }
        proof {
            let mapped = lines@.take(i + 1).map_values(|l: String| spec_trim(l@));
            assert(mapped.drop_last() =~= prevmapped);
            assert(mapped.last() == spec_trim(lines@[i as int]@));
            reveal(Seq::filter);
            if keep {
                assert(out@.map_values(|l: String| l@) =~= prevout.map_values(
                    |l: String| l@,
                ).push(spec_trim(lines@[i as int]@)));
            }
            assert(out@.map_values(|l: String| l@) =~= mapped.filter(
                |l: Seq<char>| l.len() > 0,
            ));
        }
    }
    proof {
        assert(lines@.take(n as int) =~= lines@);
        assert(lines@.map_values(|l: String| l@).map_values(|l: Seq<char>| spec_trim(l))
            =~= lines@.map_values(|l: String| spec_trim(l@)));
    }
    out
}

/// Whether an entry with this text stands in the sequence.
pub open spec fn spec_has_view(s: Seq<String>, v: Seq<char>) -> bool {
    exists|i: int| 0 <= i < s.len() && #[trigger] s[i]@ == v
}

/// The texts of `s` with every repetition of an already-seen text dropped,
/// first occurrences kept in order.
pub open spec fn spec_dedup_views(s: Seq<Seq<char>>, seen: Set<Seq<char>>) -> Seq<Seq<char>>
    decreases s.len(),
{
    if s.len() == 0 {
        Seq::empty()
    } else if seen.contains(s[0]) {
        spec_dedup_views(s.drop_first(), seen)
    } else {
        seq![s[0]] + spec_dedup_views(s.drop_first(), seen.insert(s[0]))
    }
}

/// Drops duplicate entries, keeping first occurrences in order, exactly as
/// `spec_dedup_views` says; no text appears twice in the result.
#[verifier::loop_isolation(false)]
pub fn dedup_trackers(items: Vec<String>) -> (r: Vec<String>)
    ensures
        r@.map_values(|x: String| x@) == spec_dedup_views(
            items@.map_values(|x: String| x@),
            Set::empty(),
        ),
        forall|i: int, j: int| 0 <= i < j < r@.len() ==> r@[i]@ != r@[j]@,
{
    let mut out: Vec<String> = Vec::new();
    let ghost views = items@.map_values(|x: String| x@);
    let ghost mut seen: Set<Seq<char>> = Set::empty();
    let n = items.len();
    proof {
        assert(views.skip(0) =~= views);
        assert(out@.map_values(|x: String| x@) =~= Seq::<Seq<char>>::empty());
    }
    for i in 0..n
        invariant
            n == items@.len(),
            views == items@.map_values(|x: String| x@),
            forall|v: Seq<char>| #[trigger] seen.contains(v) <==> spec_has_view(out@, v),
            forall|a: int, b: int| 0 <= a < b < out@.len() ==> out@[a]@ != out@[b]@,
            spec_dedup_views(views, Set::empty()) == out@.map_values(|x: String| x@)
                + spec_dedup_views(views.skip(i as int), seen),
    {
        let mut present = false;
        let m = out.len();
        for j in 0..m
            invariant
                m == out@.len(),
                present ==> spec_has_view(out@, items@[i as int]@),
                !present ==> forall|b: int| 0 <= b < j ==> out@[b]@ != items@[i as int]@,
        {
            if crate::text::str_eq(out[j].as_str(), items[i].as_str()) {
                present = true;
            }
        }
        proof {
            assert(views.skip(i as int)[0] == views[i as int]);
            assert(views[i as int] == items@[i as int]@);
            assert(views.skip(i as int).drop_first() =~= views.skip(i + 1));
        }
        if present {
            proof {
                assert(seen.contains(items@[i as int]@));
            }
        } else {
            proof {
                assert(!spec_has_view(out@, items@[i as int]@));
                assert(!seen.contains(items@[i as int]@));
            }
            let entry = items[i].clone();
            let ghost prevout = out@;
            let ghost prevseen = seen;
            out.push(entry);
            proof {
                seen = seen.insert(items@[i as int]@);
                assert(out@[out@.len() - 1]@ == items@[i as int]@);
                // the seen set still mirrors what stands in the output
                assert forall|v: Seq<char>| #[trigger] seen.contains(v) implies spec_has_view(
                    out@,
                    v,
                ) by {
                    if prevseen.contains(v) {
                        let w = choose|w: int| 0 <= w < prevout.len() && #[trigger] prevout[w]@
                            == v;
                        assert(out@[w]@ == v);
                    } else {
                        assert(out@[out@.len() - 1]@ == v);
                    }
                }
                assert forall|v: Seq<char>| spec_has_view(out@, v) implies #[trigger] seen.contains(
                    v,
                ) by {
                    let w = choose|w: int| 0 <= w < out@.len() && #[trigger] out@[w]@ == v;
                    if w < prevout.len() {
                        assert(prevout[w]@ == v);
                    }
                }
                // the produced texts advance exactly as the spec does
                assert(spec_dedup_views(views.skip(i as int), prevseen) == seq![
                    items@[i as int]@,
                ] + spec_dedup_views(views.skip(i + 1), seen));
                assert(out@.map_values(|x: String| x@) =~= prevout.map_values(|x: String| x@)
                    + seq![items@[i as int]@]);
                assert(out@.map_values(|x: String| x@) + spec_dedup_views(views.skip(i + 1), seen)
                    =~= prevout.map_values(|x: String| x@) + spec_dedup_views(
                    views.skip(i as int),
                    prevseen,
                ));
            }
        }
    }
    proof {
        assert(views.skip(n as int).len() == 0);
        assert(out@.map_values(|x: String| x@) + spec_dedup_views(views.skip(n as int), seen)
            =~= out@.map_values(|x: String| x@));
    }
    out
}

} // verus!
