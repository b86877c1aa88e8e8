//! Extracting the shared text from raw intents: the value of a string extra
//! in an Android intent string, and the URL carried by an iOS share link.

use crate::queue::text_of;
use vstd::prelude::*;
use vstd::string::*;

verus! {

/// The key under which Android hands over shared text.
pub const TEXT_INTENT_KEY: &'static str = "android.intent.extra.TEXT";

/// The index just past the `;`-separated segment of `s` that starts at `i`:
/// the first `;` at or after `i`, or the end of `s`.
pub open spec fn segment_end(s: Seq<char>, i: int) -> int
    decreases s.len() - i,
{
    if i >= s.len() {
        s.len() as int
    } else if s[i] == ';' {
        i
    } else {
        segment_end(s, i + 1)
    }
}

/// Whether the segment of `s` that starts at `i` begins with `p`.
pub open spec fn segment_opens_with(s: Seq<char>, p: Seq<char>, i: int) -> bool {
    i + p.len() <= segment_end(s, i) && s.subrange(i, i + p.len()) == p
}

/// Looks through the segments of `s` in order, from the one that starts at
/// `i`, for the first that begins with `p`, and gives what follows `p` in it.
pub open spec fn first_value_from(s: Seq<char>, p: Seq<char>, i: int) -> Option<Seq<char>>
    decreases s.len() + 1 - i,
    via first_value_from_decreases
{
    if i < 0 || i > s.len() {
        None
    } else if segment_opens_with(s, p, i) {
        Some(s.subrange(i + p.len(), segment_end(s, i)))
    } else {
        first_value_from(s, p, segment_end(s, i) + 1)
    }
}

#[via_fn]
proof fn first_value_from_decreases(s: Seq<char>, p: Seq<char>, i: int) {
    if 0 <= i <= s.len() {
        lemma_segment_end(s, i);
    }
}

/// The segment that starts at `i` ends at a `;` or at the end of `s`, and
/// holds no `;` itself.
proof fn lemma_segment_end(s: Seq<char>, i: int)
    requires
        0 <= i <= s.len(),
    ensures
        i <= segment_end(s, i) <= s.len(),
        segment_end(s, i) < s.len() ==> s[segment_end(s, i)] == ';',
        forall|j: int| i <= j < segment_end(s, i) ==> s[j] != ';',
    decreases s.len() - i,
{
    if i < s.len() && s[i] != ';' {
        lemma_segment_end(s, i + 1);
    }
}

/// The prefix that marks a string extra stored under `key`: `S.<key>=`.
pub open spec fn extra_prefix(key: Seq<char>) -> Seq<char> {
    seq!['S', '.'] + key + seq!['=']
}

/// The value of the first `;`-separated segment of `intent` of the form
/// `S.<key>=<value>`, exactly as stored.
pub open spec fn intent_extra(intent: Seq<char>, key: Seq<char>) -> Option<Seq<char>> {
    first_value_from(intent, extra_prefix(key), 0)
}

/// Whether a `;`-separated segment of `s` starts at `i`.
pub open spec fn starts_segment(s: Seq<char>, i: int) -> bool {
    0 <= i <= s.len() && (i == 0 || s[i - 1] == ';')
}

/// Scanning from the segment at `j` reaches the segment at `i` when none in
/// between begins with `p`.
proof fn lemma_scan_reaches(s: Seq<char>, p: Seq<char>, j: int, i: int)
    requires
        starts_segment(s, j),
        starts_segment(s, i),
        j <= i,
        segment_opens_with(s, p, i),
        forall|k: int| j <= k < i && starts_segment(s, k) ==> !segment_opens_with(s, p, k),
    ensures
        first_value_from(s, p, j) == Some(s.subrange(i + p.len(), segment_end(s, i))),
    decreases i - j,
{
    if j < i {
        lemma_segment_end(s, j);
        let e = segment_end(s, j);
        assert(s[i - 1] == ';');
        assert(e <= i - 1);
        lemma_scan_reaches(s, p, e + 1, i);
    }
}

/// Scanning from the segment at `j` finds nothing when no later segment
/// begins with `p`.
proof fn lemma_scan_finds_nothing(s: Seq<char>, p: Seq<char>, j: int)
    requires
        starts_segment(s, j),
        forall|k: int| j <= k && starts_segment(s, k) ==> !segment_opens_with(s, p, k),
    ensures
        first_value_from(s, p, j) is None,
    decreases s.len() + 1 - j,
{
    lemma_segment_end(s, j);
    let e = segment_end(s, j);
    if e < s.len() {
        lemma_scan_finds_nothing(s, p, e + 1);
    }
}

/// When the segment at `i` is the first that reads `S.<key>=<value>`, the
/// extra under `key` is that value, character for character: percent
/// escapes and all are kept as they stand.
pub proof fn lemma_extra_found(intent: Seq<char>, key: Seq<char>, i: int)
    requires
        starts_segment(intent, i),
        segment_opens_with(intent, extra_prefix(key), i),
        forall|k: int|
            0 <= k < i && starts_segment(intent, k) ==> !segment_opens_with(
                intent,
                extra_prefix(key),
                k,
            ),
    ensures
        intent_extra(intent, key) == Some(
            intent.subrange(i + extra_prefix(key).len(), segment_end(intent, i)),
        ),
{
    lemma_scan_reaches(intent, extra_prefix(key), 0, i);
}

/// When no segment reads `S.<key>=...`, there is no extra under `key`.
pub proof fn lemma_extra_absent(intent: Seq<char>, key: Seq<char>)
    requires
        forall|k: int| starts_segment(intent, k) ==> !segment_opens_with(intent, extra_prefix(key), k),
    ensures
        intent_extra(intent, key) is None,
{
    lemma_scan_finds_nothing(intent, extra_prefix(key), 0);
}

/// The characters of `s`, one per element.
fn chars_of(s: &str) -> (cs: Vec<char>)
    ensures
        cs@ == s@,
{
    let n = s.unicode_len();
    let mut cs: Vec<char> = Vec::new();
    let mut i: usize = 0;
    while i < n
        invariant
            n == s@.len(),
            i <= n,
            cs@ == s@.subrange(0, i as int),
        decreases n - i,
    {
        cs.push(s.get_char(i));
        i = i + 1;
    }
    assert(cs@ =~= s@);
    cs
}

/// The end of the segment of `cs` that starts at `start`.
fn find_segment_end(cs: &Vec<char>, start: usize) -> (e: usize)
    requires
        start <= cs.len(),
    ensures
        e == segment_end(cs@, start as int),
{
    let mut j = start;
    while j < cs.len() && cs[j] != ';'
        invariant
            start <= j <= cs.len(),
            segment_end(cs@, start as int) == segment_end(cs@, j as int),
        decreases cs.len() - j,
    {
        j = j + 1;
    }
    j
}

/// Whether `p` stands in `cs` at `start` and ends no later than `end`.
fn opens_with_at(cs: &Vec<char>, p: &Vec<char>, start: usize, end: usize) -> (r: bool)
    requires
        start <= end <= cs.len(),
    ensures
        r == (start + p.len() <= end && cs@.subrange(start as int, start + p.len()) == p@),
{
    if p.len() > end - start {
        return false;
    }
    let mut k: usize = 0;
    while k < p.len()
        invariant
            start + p.len() <= end <= cs.len(),
            k <= p.len(),
            forall|m: int| 0 <= m < k ==> cs@[start + m] == p@[m],
        decreases p.len() - k,
    {
        if cs[start + k] != p[k] {
            assert(cs@.subrange(start as int, start + p.len())[k as int] != p@[k as int]);
            return false;
        }
        k = k + 1;
    }
    assert(cs@.subrange(start as int, start + p.len()) =~= p@);
    true
}

/// The value of the string extra `key_name` in the Android intent string
/// `intent_uri`: segments are separated by `;`, a string extra reads
/// `S.<key>=<value>`, and the first one that matches wins. The value is
/// returned as stored, percent-encoding included; segments of another shape
/// are passed over.
pub fn extract_android_intent_extra(intent_uri: &str, key_name: &str) -> (r: Option<String>)
    ensures
        text_of(r) == intent_extra(intent_uri@, key_name@),
{
    let cs = chars_of(intent_uri);
    let mut prefix = String::from_str("S.");
    prefix.append(key_name);
    prefix.append("=");
    let p = chars_of(prefix.as_str());
    proof {
        reveal_strlit("S.");
        reveal_strlit("=");
        assert(p@ =~= extra_prefix(key_name@));
    }
    let mut start: usize = 0;
    loop
        invariant
            cs@ == intent_uri@,
            p@ == extra_prefix(key_name@),
            start <= cs.len(),
            intent_extra(intent_uri@, key_name@) == first_value_from(cs@, p@, start as int),
        decreases cs.len() - start,
    {
        let end = find_segment_end(&cs, start);
        proof {
            lemma_segment_end(cs@, start as int);
        }
        if opens_with_at(&cs, &p, start, end) {
            let value = intent_uri.substring_char(start + p.len(), end);
            return Some(value.to_owned());
        }
        assert(first_value_from(cs@, p@, start as int) == first_value_from(
            cs@,
            p@,
            end + 1,
        ));
        if end == cs.len() {
            assert(first_value_from(cs@, p@, end + 1) == None::<Seq<char>>);
            return None;
        }
        start = end + 1;
    }
}

/// The text that opens an iOS share link under `scheme`:
/// `<scheme>://share?url=`.
pub open spec fn share_link_prefix(scheme: Seq<char>) -> Seq<char> {
    scheme + "://share?url="@
}

/// The URL carried by the iOS share link `link` under `scheme`: all that
/// follows `<scheme>://share?url=`, or `None` where `link` does not begin
/// with that text.
pub open spec fn shared_url(link: Seq<char>, scheme: Seq<char>) -> Option<Seq<char>> {
    let p = share_link_prefix(scheme);
    if p.len() <= link.len() && link.subrange(0, p.len() as int) == p {
        Some(link.subrange(p.len() as int, link.len() as int))
    } else {
        None
    }
}

/// The URL shared through the iOS deep link `link`, which is expected to
/// read `<scheme>://share?url=<url>`. The URL is returned as stored, without
/// decoding; `None` where the link does not begin with that prefix.
pub fn extract_ios_shared_url(link: &str, scheme: &str) -> (r: Option<String>)
    ensures
        text_of(r) == shared_url(link@, scheme@),
{
    let cs = chars_of(link);
    let mut prefix = String::from_str(scheme);
    prefix.append("://share?url=");
    let p = chars_of(prefix.as_str());
    proof {
        reveal_strlit("://share?url=");
        assert(p@ =~= share_link_prefix(scheme@));
    }
    if opens_with_at(&cs, &p, 0, cs.len()) {
        let url = link.substring_char(p.len(), cs.len());
        Some(url.to_owned())
    } else {
        None
    }
}

} // verus!
