//! Read-only facade over one inbound HTTP request: method, URL, query
//! string, headers and route parameters, materialized as plain values for
//! the duration of one handler invocation.  The query-string and header
//! lookups are specified against first-match recursive definitions.

use vstd::prelude::*;

use crate::utils::append_bytes;
use crate::utils::copy_bytes;
use crate::utils::lower_byte;
use crate::utils::to_lower_bytes;

verus! {

/// Byte value of `&`, the query-string pair separator.
pub const QUERY_SEPARATOR: u8 = 38;

/// Byte value of `=`, the key/value separator inside a pair.
pub const QUERY_EQUALS: u8 = 61;

/// Byte value of `?`, introducing the query string in a full URL.
pub const QUERY_INTRO: u8 = 63;

/// Index of the first `&` in `q`, or `q.len()` if there is none.
pub open spec fn first_amp(q: Seq<u8>) -> int
    decreases q.len(),
{
    if q.len() == 0 {
        0
    } else if q[0] == QUERY_SEPARATOR {
        0
    } else {
        1 + first_amp(q.skip(1))
    }
}

/// `first_amp` stays within the string.
proof fn lemma_first_amp_bounds(q: Seq<u8>)
    ensures
        0 <= first_amp(q) <= q.len(),
    decreases q.len(),
{
    if q.len() != 0 && q[0] != QUERY_SEPARATOR {
        lemma_first_amp_bounds(q.skip(1));
    }
}

/// `first_amp` is the position of the first separator: no separator lies
/// below it, and it is either the end of the string or a separator.
proof fn lemma_first_amp_at(q: Seq<u8>, m: int)
    requires
        0 <= m <= q.len(),
        forall|j: int| 0 <= j < m ==> q[j] != QUERY_SEPARATOR,
        m < q.len() ==> q[m] == QUERY_SEPARATOR,
    ensures
        first_amp(q) == m,
    decreases q.len(),
{
    if q.len() != 0 && q[0] != QUERY_SEPARATOR {
        assert forall|j: int| 0 <= j < m - 1 implies q.skip(1)[j] != QUERY_SEPARATOR by {
            assert(q.skip(1)[j] == q[j + 1]);
        }
        lemma_first_amp_at(q.skip(1), m - 1);
    }
}

/// A query segment names `key`: it is exactly `key`, or `key` followed by
/// `=` and the value.
pub open spec fn seg_matches(seg: Seq<u8>, key: Seq<u8>) -> bool {
    ||| seg == key
    ||| (seg.len() > key.len() && seg.take(key.len() as int) == key && seg[key.len() as int]
        == QUERY_EQUALS)
}

/// The value carried by a matching segment: empty for a bare key.
pub open spec fn seg_value(seg: Seq<u8>, key: Seq<u8>) -> Seq<u8> {
    if seg == key {
        Seq::empty()
    } else {
        seg.skip(key.len() as int + 1)
    }
}

/// First-match lookup of `key` in the query string `q`, split on `&`.
pub open spec fn query_lookup(q: Seq<u8>, key: Seq<u8>) -> Option<Seq<u8>>
    decreases q.len(),
    via query_lookup_decreases
{
    let a = first_amp(q);
    let seg = q.take(a);
    if seg_matches(seg, key) {
        Some(seg_value(seg, key))
    } else if a == q.len() {
        None
    } else {
        query_lookup(q.skip(a + 1), key)
    }
}

#[via_fn]
proof fn query_lookup_decreases(q: Seq<u8>, key: Seq<u8>) {
    lemma_first_amp_bounds(q);
}

/// First-match lookup of `key` among the request headers.
pub open spec fn header_lookup(hs: Seq<(Vec<u8>, Vec<u8>)>, key: Seq<u8>) -> Option<Seq<u8>>
    decreases hs.len(),
{
    if hs.len() == 0 {
        None
    } else if hs[0].0@ == key {
        Some(hs[0].1@)
    } else {
        header_lookup(hs.skip(1), key)
    }
}

/// One inbound HTTP request, valid for the handler invocation that
/// receives it.  Header keys arrive lowercased by the engine; the method
/// field keeps its wire spelling.
pub struct HttpRequest {
    pub method: Vec<u8>,
    pub url: Vec<u8>,
    pub query: Vec<u8>,
    pub headers: Vec<(Vec<u8>, Vec<u8>)>,
    pub parameters: Vec<Vec<u8>>,
    pub ancient: bool,
    pub yielded: bool,
}

impl HttpRequest {
    /// Assemble the facade from the values the engine supplies for one
    /// request.
    pub fn new(
        method: Vec<u8>,
        url: Vec<u8>,
        query: Vec<u8>,
        headers: Vec<(Vec<u8>, Vec<u8>)>,
        parameters: Vec<Vec<u8>>,
        ancient: bool,
    ) -> (r: HttpRequest)
        ensures
            r.method == method,
            r.url == url,
            r.query == query,
            r.headers == headers,
            r.parameters == parameters,
            r.ancient == ancient,
            !r.yielded,
    {
        HttpRequest { method, url, query, headers, parameters, ancient, yielded: false }
    }

    /// The URL path without its query string.
    pub fn get_url(&self) -> (r: &Vec<u8>)
        ensures
            r@ == self.url@,
    {
        &self.url
    }

    /// The URL with its query string, `?`-joined when a query is present.
    pub fn get_full_url(&self) -> (r: Vec<u8>)
        ensures
            self.query@.len() == 0 ==> r@ == self.url@,
            self.query@.len() > 0 ==> r@ == self.url@ + seq![QUERY_INTRO] + self.query@,
    {
        let mut out = copy_bytes(self.url.as_slice());
        if self.query.len() > 0 {
            out.push(QUERY_INTRO);
            append_bytes(&mut out, self.query.as_slice());
            proof {
                assert(out@ =~= self.url@ + seq![QUERY_INTRO] + self.query@);
            }
        }
        out
    }

    /// The request method, lowercased.
    pub fn get_method(&self) -> (r: Vec<u8>)
        ensures
            r@ == self.method@.map_values(|b: u8| lower_byte(b)),
    {
        to_lower_bytes(self.method.as_slice())
    }

    /// The request method in its wire spelling.
    pub fn get_case_sensitive_method(&self) -> (r: &Vec<u8>)
        ensures
            r@ == self.method@,
    {
        &self.method
    }

    /// Whether the request predates HTTP/1.1.
    pub fn is_ancient(&self) -> (r: bool)
        ensures
            r == self.ancient,
    {
        self.ancient
    }

    /// Whether the handler asked the router to try the next route.
    pub fn get_yield(&self) -> (r: bool)
        ensures
            r == self.yielded,
    {
        self.yielded
    }

    /// Hand the request back to the router for the next matching route.
    pub fn set_yield(&mut self, yield_opt: bool)
        ensures
            *final(self) == (HttpRequest { yielded: yield_opt, ..*old(self) }),
    {
        self.yielded = yield_opt;
    }

    /// The value of the first query-string pair whose key is `key`, if
    /// any; a bare key without `=` carries an empty value.
    pub fn get_query(&self, key: &[u8]) -> (r: Option<Vec<u8>>)
        ensures
            (match r {
                Some(v) => query_lookup(self.query@, key@) == Some(v@),
                None => query_lookup(self.query@, key@) is None,
            }),
    {
        let q = self.query.as_slice();
        let n = q.len();
        let mut pos: usize = 0;
        proof {
            assert(q@.skip(0) =~= q@);
        }
        loop
            invariant
                pos <= n,
                n == q@.len(),
                q@ == self.query@,
                query_lookup(q@, key@) == query_lookup(q@.skip(pos as int), key@),
            decreases n - pos,
        {
            let ghost rest = q@.skip(pos as int);
            let mut e: usize = pos;
            while e < n && q[e] != QUERY_SEPARATOR
                invariant
                    pos <= e <= n,
                    n == q@.len(),
                    forall|j: int| pos <= j < e ==> q@[j] != QUERY_SEPARATOR,
                decreases n - e,
            {
                e = e + 1;
            }
            proof {
                assert forall|j: int| 0 <= j < e - pos implies rest[j] != QUERY_SEPARATOR by {
                    assert(rest[j] == q@[pos + j]);
                }
                lemma_first_amp_at(rest, e - pos);
                assert(rest.take(e - pos) =~= q@.subrange(pos as int, e as int));
            }
            let ghost seg = q@.subrange(pos as int, e as int);
            if slice_range_eq(q, pos, e, key) {
                proof {
                    assert(seg_matches(seg, key@));
                    assert(seg_value(seg, key@) =~= Seq::<u8>::empty());
                    assert(rest.take(first_amp(rest)) == seg);
                    assert(query_lookup(rest, key@) == Some(seg_value(seg, key@)));
                }
                return Some(Vec::new());
            }
            if e - pos > key.len() && slice_range_eq(q, pos, pos + key.len(), key) && q[pos
                + key.len()] == QUERY_EQUALS {
                let value = copy_range(q, pos + key.len() + 1, e);
                proof {
                    assert(seg.take(key@.len() as int) =~= q@.subrange(
                        pos as int,
                        pos + key@.len(),
                    ));
                    assert(seg[key@.len() as int] == q@[pos + key@.len()]);
                    assert(seg_matches(seg, key@));
                    assert(seg != key@);
                    assert(seg_value(seg, key@) =~= q@.subrange(pos + key@.len() + 1, e as int));
                    assert(rest.take(first_amp(rest)) == seg);
                    assert(query_lookup(rest, key@) == Some(seg_value(seg, key@)));
                }
                return Some(value);
            }
            proof {
                assert(!seg_matches(seg, key@)) by {
                    if seg == key@ {
                        assert(q@.subrange(pos as int, e as int) == key@);
                    }
                    if seg.len() > key@.len() && seg.take(key@.len() as int) == key@
                        && seg[key@.len() as int] == QUERY_EQUALS {
                        assert(seg.take(key@.len() as int) =~= q@.subrange(
                            pos as int,
                            pos + key@.len(),
                        ));
                    }
                }
            }
            if e == n {
                proof {
                    assert(first_amp(rest) == n - pos);
                    assert(query_lookup(rest, key@) is None);
                }
                return None;
            }
            proof {
                assert(rest.skip((e - pos) + 1) =~= q@.skip(e + 1));
            }
            pos = e + 1;
        }
    }

    /// The value of the first header whose (lowercased) key is `key`.
    pub fn get_header(&self, header_key: &[u8]) -> (r: Option<&Vec<u8>>)
        ensures
            (match r {
                Some(v) => header_lookup(self.headers@, header_key@) == Some(v@),
                None => header_lookup(self.headers@, header_key@) is None,
            }),
    {
        let n = self.headers.len();
        let mut i: usize = 0;
        proof {
            assert(self.headers@.skip(0) =~= self.headers@);
        }
        while i < n
            invariant
                i <= n,
                n == self.headers@.len(),
                header_lookup(self.headers@, header_key@) == header_lookup(
                    self.headers@.skip(i as int),
                    header_key@,
                ),
            decreases n - i,
        {
            proof {
                assert(self.headers@.skip(i as int)[0] == self.headers@[i as int]);
            }
            if crate::utils::bytes_eq(self.headers[i].0.as_slice(), header_key) {
                return Some(&self.headers[i].1);
            }
            proof {
                assert(self.headers@.skip(i as int).skip(1) =~= self.headers@.skip(i + 1));
            }
            i = i + 1;
        }
        None
    }

    /// The route parameter at `index`, if the matched pattern bound one.
    pub fn get_parameter(&self, index: u16) -> (r: Option<&Vec<u8>>)
        ensures
            (index as int) < self.parameters@.len() ==> (r matches Some(v) && v@
                == self.parameters@[index as int]@),
            (index as int) >= self.parameters@.len() ==> r is None,
    {
        if (index as usize) < self.parameters.len() {
            Some(&self.parameters[index as usize])
        } else {
            None
        }
    }

    /// All headers in arrival order.
    pub fn get_headers(&self) -> (r: &Vec<(Vec<u8>, Vec<u8>)>)
        ensures
            r@ == self.headers@,
    {
        &self.headers
    }
}

/// Whether the bytes of `a` between `start` and `end` equal `b`.
fn slice_range_eq(a: &[u8], start: usize, end: usize, b: &[u8]) -> (r: bool)
    requires
        start <= end <= a@.len(),
    ensures
        r == (a@.subrange(start as int, end as int) == b@),
{
    if end - start != b.len() {
        return false;
    }
    let mut i: usize = 0;
    while i < b.len()
        invariant
            i <= b@.len(),
            start + b@.len() == end <= a@.len(),
            forall|j: int| 0 <= j < i ==> a@[start + j] == b@[j],
        decreases b@.len() - i,
    {
        if a[start + i] != b[i] {
            proof {
                assert(a@.subrange(start as int, end as int)[i as int] == a@[start + i]);
            }
            return false;
        }
        i = i + 1;
    }
    proof {
        assert(a@.subrange(start as int, end as int) =~= b@);
    }
    true
}

/// Copy the bytes of `a` between `start` and `end`.
fn copy_range(a: &[u8], start: usize, end: usize) -> (r: Vec<u8>)
    requires
        start <= end <= a@.len(),
    ensures
        r@ == a@.subrange(start as int, end as int),
{
    let mut out: Vec<u8> = Vec::new();
    let mut i: usize = start;
    while i < end
        invariant
            start <= i <= end <= a@.len(),
            out@ == a@.subrange(start as int, i as int),
        decreases end - i,
    {
        out.push(a[i]);
        proof {
            assert(a@.subrange(start as int, i + 1) =~= a@.subrange(start as int, i as int).push(
                a@[i as int],
            ));
        }
        i = i + 1;
    }
    out
}

} // verus!
