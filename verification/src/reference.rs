//! The grammar of a post's address, and the extraction of the author's handle
//! and of the record key from it.
//!
//! An address refers to a post where it holds, anywhere in it, the marker
//! `profile/`, a handle, the marker `/post/` and a record key. A handle is the
//! longest run of letters, digits, `.`, `_` and `-` after the first marker; a
//! record key is the longest run of those characters, `:` and `~` after the
//! second. Where several places of the address fit, the leftmost one counts.

use vstd::prelude::*;
use vstd::string::*;

verus! {

/// The handle and the record key that an address names.
#[derive(Debug, Clone, PartialEq, Eq)]
pub struct PostReference {
    pub handle: String,
    pub record_key: String,
}

/// Whether `c` may stand in a handle.
pub open spec fn is_handle_char(c: char) -> bool {
    ||| 'a' <= c <= 'z'
    ||| 'A' <= c <= 'Z'
    ||| '0' <= c <= '9'
    ||| c == '.'
    ||| c == '_'
    ||| c == '-'
}

/// Whether `c` may stand in a record key.
pub open spec fn is_record_key_char(c: char) -> bool {
    is_handle_char(c) || c == ':' || c == '~'
}

/// The marker that precedes the handle.
pub open spec fn profile_marker() -> Seq<char> {
    seq!['p', 'r', 'o', 'f', 'i', 'l', 'e', '/']
}

/// The marker between the handle and the record key.
pub open spec fn post_marker() -> Seq<char> {
    seq!['/', 'p', 'o', 's', 't', '/']
}

/// Whether `marker` stands in `s` at position `i`.
pub open spec fn has_at(s: Seq<char>, i: int, marker: Seq<char>) -> bool {
    &&& 0 <= i
    &&& i + marker.len() <= s.len()
    &&& forall|k: int| 0 <= k < marker.len() ==> #[trigger] s[i + k] == marker[k]
}

/// The length of the longest run of handle characters that starts at `i`.
pub open spec fn handle_run(s: Seq<char>, i: int) -> nat
    decreases s.len() - i,
{
    if 0 <= i < s.len() && is_handle_char(s[i]) {
        1 + handle_run(s, i + 1)
    } else {
        0
    }
}

/// The length of the longest run of record key characters that starts at `i`.
pub open spec fn record_key_run(s: Seq<char>, i: int) -> nat
    decreases s.len() - i,
{
    if 0 <= i < s.len() && is_record_key_char(s[i]) {
        1 + record_key_run(s, i + 1)
    } else {
        0
    }
}

/// Where the handle of a reference that starts at `i` ends.
pub open spec fn handle_end(s: Seq<char>, i: int) -> int {
    i + 8 + handle_run(s, i + 8)
}

/// Where the record key of a reference that starts at `i` ends.
pub open spec fn record_key_end(s: Seq<char>, i: int) -> int {
    handle_end(s, i) + 6 + record_key_run(s, handle_end(s, i) + 6)
}

/// Whether a post reference starts at position `i` of `s`.
pub open spec fn matches_at(s: Seq<char>, i: int) -> bool {
    &&& has_at(s, i, profile_marker())
    &&& handle_run(s, i + 8) >= 1
    &&& has_at(s, handle_end(s, i), post_marker())
    &&& record_key_run(s, handle_end(s, i) + 6) >= 1
}

/// The handle of the reference that starts at `i`.
pub open spec fn handle_at(s: Seq<char>, i: int) -> Seq<char> {
    s.subrange(i + 8, handle_end(s, i))
}

/// The record key of the reference that starts at `i`.
pub open spec fn record_key_at(s: Seq<char>, i: int) -> Seq<char> {
    s.subrange(handle_end(s, i) + 6, record_key_end(s, i))
}

/// The first position from `i` on at which a post reference starts.
pub open spec fn first_match_from(s: Seq<char>, i: int) -> Option<int>
    decreases s.len() - i,
{
    if i < 0 || i >= s.len() {
        None
    } else if matches_at(s, i) {
        Some(i)
    } else {
        first_match_from(s, i + 1)
    }
}

/// The handle and record key that the address `s` names, if it names a post.
pub open spec fn post_reference_of(s: Seq<char>) -> Option<(Seq<char>, Seq<char>)> {
    match first_match_from(s, 0) {
        Some(i) => Some((handle_at(s, i), record_key_at(s, i))),
        None => None,
    }
}

/// Whether the address `s` names a post.
pub open spec fn names_post(s: Seq<char>) -> bool {
    post_reference_of(s) is Some
}

fn handle_char(c: char) -> (b: bool)
    ensures
        b == is_handle_char(c),
{
    ('a' <= c && c <= 'z') || ('A' <= c && c <= 'Z') || ('0' <= c && c <= '9') || c == '.'
        || c == '_' || c == '-'
}

fn record_key_char(c: char) -> (b: bool)
    ensures
        b == is_record_key_char(c),
{
    handle_char(c) || c == ':' || c == '~'
}

/// The characters of `s`, one by one.
fn chars_of(s: &str) -> (chars: Vec<char>)
    ensures
        chars@ == s@,
{
    let n: usize = s.unicode_len();
    let mut chars: Vec<char> = Vec::new();
    let mut i: usize = 0;
    while i < n
        invariant
            n == s@.len(),
            i <= n,
            chars@ == s@.subrange(0, i as int),
        decreases n - i,
    {
        chars.push(s.get_char(i));
        i += 1;
        assert(chars@ =~= s@.subrange(0, i as int));
    }
    assert(s@.subrange(0, n as int) =~= s@);
    chars
}

fn profile_marker_at(chars: &Vec<char>, i: usize) -> (b: bool)
    requires
        i <= chars.len(),
    ensures
        b == has_at(chars@, i as int, profile_marker()),
{
    if chars.len() - i < 8 {
        return false;
    }
    let b = chars[i] == 'p' && chars[i + 1] == 'r' && chars[i + 2] == 'o' && chars[i + 3] == 'f'
        && chars[i + 4] == 'i' && chars[i + 5] == 'l' && chars[i + 6] == 'e' && chars[i + 7]
        == '/';
    proof {
        let s = chars@;
        let m = profile_marker();
        if has_at(s, i as int, m) {
            assert(s[i + 0] == m[0] && s[i + 1] == m[1] && s[i + 2] == m[2] && s[i + 3] == m[3]);
            assert(s[i + 4] == m[4] && s[i + 5] == m[5] && s[i + 6] == m[6] && s[i + 7] == m[7]);
        }
    }
    b
}

fn post_marker_at(chars: &Vec<char>, i: usize) -> (b: bool)
    requires
        i <= chars.len(),
    ensures
        b == has_at(chars@, i as int, post_marker()),
{
    if chars.len() - i < 6 {
        return false;
    }
    let b = chars[i] == '/' && chars[i + 1] == 'p' && chars[i + 2] == 'o' && chars[i + 3] == 's'
        && chars[i + 4] == 't' && chars[i + 5] == '/';
    proof {
        let s = chars@;
        let m = post_marker();
        if has_at(s, i as int, m) {
            assert(s[i + 0] == m[0] && s[i + 1] == m[1] && s[i + 2] == m[2]);
            assert(s[i + 3] == m[3] && s[i + 4] == m[4] && s[i + 5] == m[5]);
        }
    }
    b
}

fn scan_handle(chars: &Vec<char>, start: usize) -> (end: usize)
    requires
        start <= chars.len(),
    ensures
        start <= end <= chars.len(),
        end - start == handle_run(chars@, start as int),
{
    let mut j: usize = start;
    while j < chars.len() && handle_char(chars[j])
        invariant
            start <= j <= chars.len(),
            handle_run(chars@, start as int) == (j - start) + handle_run(chars@, j as int),
        decreases chars.len() - j,
    {
        j += 1;
    }
    j
}

fn scan_record_key(chars: &Vec<char>, start: usize) -> (end: usize)
    requires
        start <= chars.len(),
    ensures
        start <= end <= chars.len(),
        end - start == record_key_run(chars@, start as int),
{
    let mut j: usize = start;
    while j < chars.len() && record_key_char(chars[j])
        invariant
            start <= j <= chars.len(),
            record_key_run(chars@, start as int) == (j - start) + record_key_run(
                chars@,
                j as int,
            ),
        decreases chars.len() - j,
    {
        j += 1;
    }
    j
}

/// Finds the post that the address names: the handle and the record key of
/// the leftmost reference in it, or nothing where the address holds none.
pub fn extract_post_reference(url: &str) -> (found: Option<PostReference>)
    ensures
        match post_reference_of(url@) {
            Some((handle, record_key)) => found is Some && found.unwrap().handle@ == handle
                && found.unwrap().record_key@ == record_key,
            None => found is None,
        },
{
    let chars = chars_of(url);
    let n: usize = chars.len();
    let mut i: usize = 0;
    while i < n
        invariant
            chars@ == url@,
            n == chars.len(),
            i <= n,
            first_match_from(chars@, 0) == first_match_from(chars@, i as int),
        decreases n - i,
    {
        if profile_marker_at(&chars, i) {
            let handle_from: usize = i + 8;
            let handle_to: usize = scan_handle(&chars, handle_from);
            if handle_to > handle_from && post_marker_at(&chars, handle_to) {
                let key_from: usize = handle_to + 6;
                let key_to: usize = scan_record_key(&chars, key_from);
                if key_to > key_from {
                    assert(matches_at(chars@, i as int));
                    let handle = String::from_str(url.substring_char(handle_from, handle_to));
                    let record_key = String::from_str(url.substring_char(key_from, key_to));
                    return Some(PostReference { handle, record_key });
                }
            }
        }
        assert(!matches_at(chars@, i as int));
        i += 1;
    }
    None
}

/// Whether `handle` is a handle: not empty, of handle characters only.
pub open spec fn is_handle(handle: Seq<char>) -> bool {
    &&& handle.len() >= 1
    &&& forall|k: int| 0 <= k < handle.len() ==> is_handle_char(#[trigger] handle[k])
}

/// Whether `record_key` is a record key: not empty, of record key characters only.
pub open spec fn is_record_key(record_key: Seq<char>) -> bool {
    &&& record_key.len() >= 1
    &&& forall|k: int| 0 <= k < record_key.len() ==> is_record_key_char(#[trigger] record_key[k])
}

/// The address that names the post `record_key` of `handle` after `base`,
/// with `rest` behind it.
pub open spec fn post_address(
    base: Seq<char>,
    handle: Seq<char>,
    record_key: Seq<char>,
    rest: Seq<char>,
) -> Seq<char> {
    base + profile_marker() + handle + post_marker() + record_key + rest
}

/// Whether `rest` can stand behind a record key without becoming part of it.
pub open spec fn ends_record_key(rest: Seq<char>) -> bool {
    rest.len() == 0 || !is_record_key_char(rest[0])
}

proof fn handle_run_spans(s: Seq<char>, from: int, to: int)
    requires
        0 <= from <= to <= s.len(),
        forall|j: int| from <= j < to ==> is_handle_char(#[trigger] s[j]),
        to == s.len() || !is_handle_char(s[to]),
    ensures
        handle_run(s, from) == to - from,
    decreases to - from,
{
    if from < to {
        handle_run_spans(s, from + 1, to);
    }
}

proof fn record_key_run_spans(s: Seq<char>, from: int, to: int)
    requires
        0 <= from <= to <= s.len(),
        forall|j: int| from <= j < to ==> is_record_key_char(#[trigger] s[j]),
        to == s.len() || !is_record_key_char(s[to]),
    ensures
        record_key_run(s, from) == to - from,
    decreases to - from,
{
    if from < to {
        record_key_run_spans(s, from + 1, to);
    }
}

proof fn first_match_found(s: Seq<char>, from: int, at: int)
    requires
        0 <= from <= at < s.len(),
        forall|j: int| from <= j < at ==> !matches_at(s, j),
        matches_at(s, at),
    ensures
        first_match_from(s, from) == Some(at),
    decreases at - from,
{
    if from < at {
        first_match_found(s, from + 1, at);
    }
}

/// In an address made of a marker, a handle, a marker and a record key, a
/// post reference starts where the first marker starts, and its handle and
/// record key are the ones the address was made of.
pub proof fn reference_stands_at(
    base: Seq<char>,
    handle: Seq<char>,
    record_key: Seq<char>,
    rest: Seq<char>,
)
    requires
        is_handle(handle),
        is_record_key(record_key),
        ends_record_key(rest),
    ensures
        matches_at(post_address(base, handle, record_key, rest), base.len() as int),
        handle_at(post_address(base, handle, record_key, rest), base.len() as int) == handle,
        record_key_at(post_address(base, handle, record_key, rest), base.len() as int)
            == record_key,
{
    let s = post_address(base, handle, record_key, rest);
    let at = base.len() as int;
    let handle_from = at + 8;
    let handle_to = handle_from + handle.len();
    let key_from = handle_to + 6;
    let key_to = key_from + record_key.len();
    assert(s.len() == key_to + rest.len());
    assert forall|k: int| 0 <= k < 8 implies #[trigger] s[at + k] == profile_marker()[k] by {}
    assert forall|j: int| handle_from <= j < handle_to implies is_handle_char(#[trigger] s[j]) by {
        assert(s[j] == handle[j - handle_from]);
    }
    assert forall|k: int| 0 <= k < 6 implies #[trigger] s[handle_to + k] == post_marker()[k] by {}
    assert(s[handle_to] == post_marker()[0]) by {
        assert(s[handle_to + 0] == post_marker()[0]);
    }
    handle_run_spans(s, handle_from, handle_to);
    assert forall|j: int| key_from <= j < key_to implies is_record_key_char(#[trigger] s[j]) by {
        assert(s[j] == record_key[j - key_from]);
    }
    if rest.len() > 0 {
        assert(s[key_to] == rest[0]);
    }
    record_key_run_spans(s, key_from, key_to);
    assert(handle_at(s, at) =~= handle);
    assert(record_key_at(s, at) =~= record_key);
}

/// Extraction is exact: from an address made of a handle and a record key,
/// with no post reference starting before them, it yields that handle and
/// that record key.
pub proof fn extraction_is_exact(
    base: Seq<char>,
    handle: Seq<char>,
    record_key: Seq<char>,
    rest: Seq<char>,
)
    requires
        is_handle(handle),
        is_record_key(record_key),
        ends_record_key(rest),
        forall|j: int|
            0 <= j < base.len() ==> !matches_at(
                post_address(base, handle, record_key, rest),
                j,
            ),
    ensures
        post_reference_of(post_address(base, handle, record_key, rest)) == Some(
            (handle, record_key),
        ),
{
    reference_stands_at(base, handle, record_key, rest);
    first_match_found(post_address(base, handle, record_key, rest), 0, base.len() as int);
}

/// Extraction is injective: two addresses that differ only in the handle or
/// the record key yield different references.
pub proof fn extraction_is_injective(
    base: Seq<char>,
    handle: Seq<char>,
    record_key: Seq<char>,
    other_handle: Seq<char>,
    other_record_key: Seq<char>,
    rest: Seq<char>,
)
    requires
        is_handle(handle),
        is_record_key(record_key),
        is_handle(other_handle),
        is_record_key(other_record_key),
        ends_record_key(rest),
        forall|j: int|
            0 <= j < base.len() ==> !matches_at(
                post_address(base, handle, record_key, rest),
                j,
            ),
        forall|j: int|
            0 <= j < base.len() ==> !matches_at(
                post_address(base, other_handle, other_record_key, rest),
                j,
            ),
        handle != other_handle || record_key != other_record_key,
    ensures
        post_reference_of(post_address(base, handle, record_key, rest)) != post_reference_of(
            post_address(base, other_handle, other_record_key, rest),
        ),
{
    extraction_is_exact(base, handle, record_key, rest);
    extraction_is_exact(base, other_handle, other_record_key, rest);
}

proof fn handle_run_holds(s: Seq<char>, from: int)
    requires
        0 <= from,
    ensures
        from + handle_run(s, from) <= s.len() || handle_run(s, from) == 0,
        forall|j: int| from <= j < from + handle_run(s, from) ==> is_handle_char(#[trigger] s[j]),
    decreases s.len() - from,
{
    if from < s.len() && is_handle_char(s[from]) {
        handle_run_holds(s, from + 1);
    }
}

proof fn record_key_run_holds(s: Seq<char>, from: int)
    requires
        0 <= from,
    ensures
        from + record_key_run(s, from) <= s.len() || record_key_run(s, from) == 0,
        forall|j: int|
            from <= j < from + record_key_run(s, from) ==> is_record_key_char(#[trigger] s[j]),
    decreases s.len() - from,
{
    if from < s.len() && is_record_key_char(s[from]) {
        record_key_run_holds(s, from + 1);
    }
}

proof fn first_match_matches(s: Seq<char>, from: int)
    requires
        first_match_from(s, from) is Some,
    ensures
        from <= first_match_from(s, from).unwrap() < s.len(),
        matches_at(s, first_match_from(s, from).unwrap()),
        forall|j: int| from <= j < first_match_from(s, from).unwrap() ==> !matches_at(s, j),
    decreases s.len() - from,
{
    if !matches_at(s, from) {
        first_match_matches(s, from + 1);
    }
}

/// An address in which a post reference starts anywhere names a post: the
/// one of its leftmost reference.
pub proof fn matching_address_names_post(s: Seq<char>, at: int)
    requires
        matches_at(s, at),
    ensures
        names_post(s),
        first_match_from(s, 0).unwrap() <= at,
        post_reference_of(s) == Some(
            (
                handle_at(s, first_match_from(s, 0).unwrap()),
                record_key_at(s, first_match_from(s, 0).unwrap()),
            ),
        ),
{
    first_match_at_most(s, 0, at);
}

proof fn first_match_at_most(s: Seq<char>, from: int, at: int)
    requires
        0 <= from <= at,
        matches_at(s, at),
    ensures
        first_match_from(s, from) is Some,
        first_match_from(s, from).unwrap() <= at,
    decreases at - from,
{
    if from < at && !matches_at(s, from) {
        first_match_at_most(s, from + 1, at);
    }
}

/// What extraction yields is a handle and a record key: neither is empty,
/// and each holds only the characters of its kind.
pub proof fn extracted_reference_is_well_formed(s: Seq<char>)
    requires
        names_post(s),
    ensures
        is_handle(post_reference_of(s).unwrap().0),
        is_record_key(post_reference_of(s).unwrap().1),
{
    first_match_matches(s, 0);
    let at = first_match_from(s, 0).unwrap();
    handle_run_holds(s, at + 8);
    record_key_run_holds(s, handle_end(s, at) + 6);
    let handle = handle_at(s, at);
    let record_key = record_key_at(s, at);
    assert forall|k: int| 0 <= k < handle.len() implies is_handle_char(#[trigger] handle[k]) by {
        assert(handle[k] == s[at + 8 + k]);
    }
    assert forall|k: int| 0 <= k < record_key.len() implies is_record_key_char(
        #[trigger] record_key[k],
    ) by {
        assert(record_key[k] == s[handle_end(s, at) + 6 + k]);
    }
}

/// The address under which the service shows posts.
pub open spec fn service_base() -> Seq<char> {
    "https://bsky.app/"@
}

/// From the address under which the service shows a post, extraction yields
/// the post's handle and record key.
pub proof fn service_address_is_exact(handle: Seq<char>, record_key: Seq<char>)
    requires
        is_handle(handle),
        is_record_key(record_key),
    ensures
        post_reference_of(post_address(service_base(), handle, record_key, Seq::empty()))
            == Some((handle, record_key)),
{
    reveal_strlit("https://bsky.app/");
    let base = service_base();
    let s = post_address(base, handle, record_key, Seq::empty());
    assert(base.len() == 17);
    assert forall|j: int| 0 <= j < base.len() implies !matches_at(s, j) by {
        if has_at(s, j, profile_marker()) {
            assert(s[j + 0] == profile_marker()[0]);
            assert(s[j + 1] == profile_marker()[1]);
            assert(s[j] == base[j]);
            if j + 1 < 17 {
                assert(s[j + 1] == base[j + 1]);
            }
            assert(false);
        }
    }
    extraction_is_exact(base, handle, record_key, Seq::empty());
}

/// An address without the first marker names no post.
pub proof fn no_marker_no_post(s: Seq<char>)
    requires
        forall|i: int| !has_at(s, i, profile_marker()),
    ensures
        !names_post(s),
{
    no_match_from(s, 0);
}

proof fn no_match_from(s: Seq<char>, from: int)
    requires
        forall|i: int| from <= i ==> !matches_at(s, i),
    ensures
        first_match_from(s, from) is None,
    decreases s.len() - from,
{
    if 0 <= from < s.len() {
        no_match_from(s, from + 1);
    }
}

} // verus!
