//! Header sets and the allow-list filter that governs what is forwarded
//! upstream and what is handed back to the caller.

use vstd::prelude::*;

verus! {

/// One header line: its name as received and the bytes of its value.
#[derive(Debug, Clone, PartialEq, Eq)]
pub struct Header {
    pub name: String,
    pub value: Vec<u8>,
}

impl View for Header {
    type V = (Seq<char>, Seq<u8>);

    open spec fn view(&self) -> (Seq<char>, Seq<u8>) {
        (self.name@, self.value@)
    }
}

/// An ordered multi-map of headers: a name may occur several times, and the
/// order of the lines is part of the value.
#[derive(Debug, Clone, PartialEq, Eq)]
pub struct HeaderSet {
    pub entries: Vec<Header>,
}

impl View for HeaderSet {
    type V = Seq<(Seq<char>, Seq<u8>)>;

    open spec fn view(&self) -> Seq<(Seq<char>, Seq<u8>)> {
        self.entries@.map_values(|h: Header| h@)
    }
}

impl HeaderSet {
    /// A copy of the set, entry for entry.
    pub fn duplicate(&self) -> (copy: HeaderSet)
        ensures
            copy@ == self@,
    {
        let mut entries: Vec<Header> = Vec::new();
        let mut i: usize = 0;
        while i < self.entries.len()
            invariant
                i <= self.entries.len(),
                entries@.map_values(|h: Header| h@) == self@.take(i as int),
            decreases self.entries.len() - i,
        {
            let entry = &self.entries[i];
            let copy = Header { name: entry.name.clone(), value: entry.value.clone() };
            assert(copy.value@ =~= entry.value@);
            let ghost before = entries@.map_values(|h: Header| h@);
            entries.push(copy);
            assert(entries@.map_values(|h: Header| h@) =~= before.push(entry@));
            assert(self@.take(i + 1) =~= self@.take(i as int).push(entry@));
            i += 1;
        }
        assert(self@.take(i as int) =~= self@);
        HeaderSet { entries }
    }
}

/// `http::HeaderMap`, the header multi-map of the server framework and of
/// the HTTP client. Opaque here: the library reads it through
/// [`header_lines`] and never fills one.
#[verifier::external_type_specification]
#[verifier::external_body]
#[verifier::reject_recursive_types(T)]
pub struct ExHeaderMap<T>(http::HeaderMap<T>);

/// `http::HeaderValue`, the value type of the maps that the library reads.
#[verifier::external_type_specification]
#[verifier::external_body]
pub struct ExHeaderValue(http::HeaderValue);

/// What a header map holds: its lines in the order in which
/// `HeaderMap::iter` yields them, each name as `HeaderName::as_str` gives
/// it and each value as `HeaderValue::as_bytes` gives it.
pub uninterp spec fn header_lines(map: http::HeaderMap<http::HeaderValue>) -> Seq<
    (Seq<char>, Seq<u8>),
>;

/// Walks `http::HeaderMap::iter` and copies each line out, the name by
/// `HeaderName::as_str` and the value by `HeaderValue::as_bytes`. Trusted:
/// the contract only gives the lines their name, [`header_lines`].
#[verifier::external_body]
fn read_header_map(map: &http::HeaderMap<http::HeaderValue>) -> (lines: HeaderSet)
    ensures
        lines@ == header_lines(*map),
{
    HeaderSet {
        entries: map.iter().map(
            |(name, value)| Header {
                name: name.as_str().to_string(),
                value: value.as_bytes().to_vec(),
            },
        ).collect(),
    }
}

/// The ASCII lower-case form of a character: `A` to `Z` map to `a` to `z`,
/// every other character to itself.
pub open spec fn lower_char(c: char) -> char {
    if 'A' <= c && c <= 'Z' {
        ((c as u32) + 32) as char
    } else {
        c
    }
}

/// A string with every character in its ASCII lower-case form.
pub open spec fn ascii_lower(s: Seq<char>) -> Seq<char> {
    s.map_values(|c: char| lower_char(c))
}

/// Two header names are the same name when they agree up to ASCII case.
pub open spec fn same_name(a: Seq<char>, b: Seq<char>) -> bool {
    ascii_lower(a) == ascii_lower(b)
}

/// A name is allowed when it is, up to ASCII case, a member of the list.
pub open spec fn allowed(name: Seq<char>, keep: Seq<Seq<char>>) -> bool {
    exists|i: int| 0 <= i < keep.len() && same_name(name, #[trigger] keep[i])
}

/// The entries of `headers` whose name is allowed by `keep`, each as often
/// as it occurs in `headers` and in the same relative order.
pub open spec fn filtered(headers: Seq<(Seq<char>, Seq<u8>)>, keep: Seq<Seq<char>>) -> Seq<
    (Seq<char>, Seq<u8>),
> {
    headers.filter(|e: (Seq<char>, Seq<u8>)| allowed(e.0, keep))
}

/// The names that may be forwarded from the caller's request to an upstream
/// host.
pub open spec fn client_allow_list() -> Seq<Seq<char>> {
    seq![
        "accept"@,
        "accept-encoding"@,
        "if-modified-since"@,
        "if-none-match"@,
        "range"@,
        "user-agent"@,
    ]
}

/// The names that may be handed back from an upstream response to the caller.
pub open spec fn response_allow_list() -> Seq<Seq<char>> {
    seq![
        "content-type"@,
        "content-length"@,
        "etag"@,
        "last-modified"@,
        "vary"@,
        "cache-control"@,
        "age"@,
        "accept-ranges"@,
        "transfer-encoding"@,
    ]
}

/// `str::eq_ignore_ascii_case` of the standard library: true exactly when
/// the two strings have the same ASCII lower-case form. Trusted, not proved.
#[verifier::external_body]
fn eq_ignore_ascii_case(a: &str, b: &str) -> (same: bool)
    ensures
        same == same_name(a@, b@),
{
    a.eq_ignore_ascii_case(b)
}

/// Whether `name` is allowed by `keep`.
pub fn is_allowed(name: &str, keep: &Vec<String>) -> (yes: bool)
    ensures
        yes == allowed(name@, keep.deep_view()),
{
    let mut i: usize = 0;
    while i < keep.len()
        invariant
            i <= keep.len(),
            forall|j: int| 0 <= j < i ==> !same_name(name@, #[trigger] keep.deep_view()[j]),
        decreases keep.len() - i,
    {
        if eq_ignore_ascii_case(name, keep[i].as_str()) {
            assert(same_name(name@, keep.deep_view()[i as int]));
            return true;
        }
        i += 1;
    }
    false
}

/// Keeps the entries whose name is allowed by `keep` and drops the others.
/// Names and values are passed on as they are.
pub fn filter_lines(headers: &HeaderSet, keep: &Vec<String>) -> (kept: HeaderSet)
    ensures
        kept@ == filtered(headers@, keep.deep_view()),
{
    let ghost pred = |e: (Seq<char>, Seq<u8>)| allowed(e.0, keep.deep_view());
    let mut entries: Vec<Header> = Vec::new();
    let mut i: usize = 0;
    proof {
        reveal(Seq::filter);
        assert(headers@.take(0) =~= Seq::empty());
        assert(entries@.map_values(|h: Header| h@) =~= Seq::empty());
    }
    while i < headers.entries.len()
        invariant
            i <= headers.entries.len(),
            pred == |e: (Seq<char>, Seq<u8>)| allowed(e.0, keep.deep_view()),
            entries@.map_values(|h: Header| h@) == headers@.take(i as int).filter(pred),
        decreases headers.entries.len() - i,
    {
        let entry = &headers.entries[i];
        let ghost before = entries@.map_values(|h: Header| h@);
        proof {
            reveal(Seq::filter);
            assert(headers@.take(i + 1).drop_last() =~= headers@.take(i as int));
            assert(headers@.take(i + 1).last() == entry@);
        }
        if is_allowed(entry.name.as_str(), keep) {
            let copy = Header { name: entry.name.clone(), value: entry.value.clone() };
            assert(copy.value@ =~= entry.value@);
            entries.push(copy);
            assert(entries@.map_values(|h: Header| h@) =~= before.push(entry@));
        }
        i += 1;
    }
    assert(headers@.take(i as int) =~= headers@);
    HeaderSet { entries }
}

/// Keeps the lines of a header map whose name is allowed by `keep`, in the
/// order in which the map yields them.
pub fn filter_headers(headers: &http::HeaderMap<http::HeaderValue>, keep: &Vec<String>) -> (kept:
    HeaderSet)
    ensures
        kept@ == filtered(header_lines(*headers), keep.deep_view()),
{
    let lines = read_header_map(headers);
    filter_lines(&lines, keep)
}

/// The allow-list for headers of the caller's request.
pub fn client_headers_keep() -> (keep: Vec<String>)
    ensures
        keep.deep_view() == client_allow_list(),
{
    let mut keep: Vec<String> = Vec::new();
    keep.push("accept".to_string());
    keep.push("accept-encoding".to_string());
    keep.push("if-modified-since".to_string());
    keep.push("if-none-match".to_string());
    keep.push("range".to_string());
    keep.push("user-agent".to_string());
    assert(keep.deep_view() =~= client_allow_list());
    keep
}

/// The allow-list for headers of an upstream response.
pub fn response_headers_keep() -> (keep: Vec<String>)
    ensures
        keep.deep_view() == response_allow_list(),
{
    let mut keep: Vec<String> = Vec::new();
    keep.push("content-type".to_string());
    keep.push("content-length".to_string());
    keep.push("etag".to_string());
    keep.push("last-modified".to_string());
    keep.push("vary".to_string());
    keep.push("cache-control".to_string());
    keep.push("age".to_string());
    keep.push("accept-ranges".to_string());
    keep.push("transfer-encoding".to_string());
    assert(keep.deep_view() =~= response_allow_list());
    keep
}

/// The filter keeps exactly the allowed entries: an entry occurs in the
/// filtered set as often as in the source when its name is allowed, and
/// not at all when it is not.
pub proof fn filter_keeps_exactly_allowed(
    headers: Seq<(Seq<char>, Seq<u8>)>,
    keep: Seq<Seq<char>>,
    entry: (Seq<char>, Seq<u8>),
)
    ensures
        filtered(headers, keep).to_multiset().count(entry) == if allowed(entry.0, keep) {
            headers.to_multiset().count(entry)
        } else {
            0
        },
        filtered(headers, keep).contains(entry) <==> headers.contains(entry) && allowed(
            entry.0,
            keep,
        ),
    decreases headers.len(),
{
    broadcast use vstd::seq_lib::group_to_multiset_ensures;

    reveal(Seq::filter);
    if headers.len() == 0 {
        assert(filtered(headers, keep) =~= Seq::empty());
    } else {
        let rest = headers.drop_last();
        let last = headers.last();
        filter_keeps_exactly_allowed(rest, keep, entry);
        assert(headers =~= rest.push(last));
        if allowed(last.0, keep) {
            assert(filtered(headers, keep) == filtered(rest, keep).push(last));
        } else {
            assert(filtered(headers, keep) == filtered(rest, keep));
        }
    }
}

/// The filter keeps the relative order: the filtered set is the source with
/// entries left out. `picked` gives, for each entry of the filtered set, its
/// place in the source.
pub proof fn filter_preserves_order(
    headers: Seq<(Seq<char>, Seq<u8>)>,
    keep: Seq<Seq<char>>,
) -> (picked: Seq<int>)
    ensures
        picked.len() == filtered(headers, keep).len(),
        forall|k: int|
            0 <= k < picked.len() ==> 0 <= #[trigger] picked[k] < headers.len() && filtered(
                headers,
                keep,
            )[k] == headers[picked[k]],
        forall|j: int, k: int| 0 <= j < k < picked.len() ==> picked[j] < picked[k],
    decreases headers.len(),
{
    reveal(Seq::filter);
    if headers.len() == 0 {
        Seq::empty()
    } else {
        let rest = headers.drop_last();
        let last = headers.last();
        let picked = filter_preserves_order(rest, keep);
        if allowed(last.0, keep) {
            assert(filtered(headers, keep) == filtered(rest, keep).push(last));
            picked.push(headers.len() - 1)
        } else {
            picked
        }
    }
}

/// Filtering a filtered set again with the same allow-list changes nothing.
pub proof fn filter_is_idempotent(headers: Seq<(Seq<char>, Seq<u8>)>, keep: Seq<Seq<char>>)
    ensures
        filtered(filtered(headers, keep), keep) == filtered(headers, keep),
    decreases headers.len(),
{
    reveal(Seq::filter);
    if headers.len() > 0 {
        let rest = headers.drop_last();
        let last = headers.last();
        filter_is_idempotent(rest, keep);
        if allowed(last.0, keep) {
            let once = filtered(rest, keep).push(last);
            assert(filtered(headers, keep) == once);
            assert(once.drop_last() =~= filtered(rest, keep));
            assert(once.last() == last);
        }
    }
}

} // verus!
