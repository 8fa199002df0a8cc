//! Byte-level utilities shared by the framework: slice equality, ASCII
//! lowercasing, and the text-decoding policy for bytes crossing the engine
//! boundary.  Text received from a peer may be malformed; the framework's
//! uniform policy is to truncate such input to its longest valid UTF-8
//! prefix rather than fail.

use vstd::prelude::*;

verus! {

/// Exact equality of two byte slices.
pub fn bytes_eq(a: &[u8], b: &[u8]) -> (r: bool)
    ensures
        r == (a@ == b@),
{
    if a.len() != b.len() {
        return false;
    }
    let mut i: usize = 0;
    while i < a.len()
        invariant
            i <= a@.len(),
            a@.len() == b@.len(),
            forall|j: int| 0 <= j < i ==> a@[j] == b@[j],
        decreases a@.len() - i,
    {
        if a[i] != b[i] {
            return false;
        }
        i = i + 1;
    }
    proof {
        assert(a@ =~= b@);
    }
    true
}

/// Copy a borrowed byte slice into an owned vector.
pub fn copy_bytes(a: &[u8]) -> (r: Vec<u8>)
    ensures
        r@ == a@,
{
    let mut out: Vec<u8> = Vec::new();
    let mut i: usize = 0;
    while i < a.len()
        invariant
            i <= a@.len(),
            out@ == a@.take(i as int),
        decreases a@.len() - i,
    {
        out.push(a[i]);
        proof {
            assert(a@.take(i + 1) =~= a@.take(i as int).push(a@[i as int]));
        }
        i = i + 1;
    }
    proof {
        assert(a@.take(a@.len() as int) =~= a@);
    }
    out
}

/// Append a borrowed byte slice to an owned vector.
pub fn append_bytes(v: &mut Vec<u8>, a: &[u8])
    ensures
        final(v)@ == old(v)@ + a@,
{
    let mut i: usize = 0;
    while i < a.len()
        invariant
            i <= a@.len(),
            v@ == old(v)@ + a@.take(i as int),
        decreases a@.len() - i,
    {
        v.push(a[i]);
        proof {
            assert(old(v)@ + a@.take(i + 1) =~= (old(v)@ + a@.take(i as int)).push(
                a@[i as int],
            ));
        }
        i = i + 1;
    }
    proof {
        assert(old(v)@ + a@.take(a@.len() as int) =~= old(v)@ + a@);
    }
}

/// ASCII lowercasing of one byte; bytes outside `A`..`Z` pass unchanged.
pub open spec fn lower_byte(b: u8) -> u8 {
    if 0x41 <= b <= 0x5A {
        (b + 0x20) as u8
    } else {
        b
    }
}

/// Lowercase a byte string, ASCII letters only.
pub fn to_lower_bytes(a: &[u8]) -> (r: Vec<u8>)
    ensures
        r@ == a@.map_values(|b: u8| lower_byte(b)),
{
    let mut out: Vec<u8> = Vec::new();
    let mut i: usize = 0;
    while i < a.len()
        invariant
            i <= a@.len(),
            out@ == a@.take(i as int).map_values(|b: u8| lower_byte(b)),
        decreases a@.len() - i,
    {
        let b = a[i];
        if 0x41 <= b && b <= 0x5A {
            out.push(b + 0x20);
        } else {
            out.push(b);
        }
        proof {
            assert(a@.take(i + 1).map_values(|b: u8| lower_byte(b)) =~= a@.take(i as int)
                .map_values(|b: u8| lower_byte(b))
                .push(lower_byte(a@[i as int])));
        }
        i = i + 1;
    }
    proof {
        assert(a@.take(a@.len() as int) =~= a@);
    }
    out
}

/// Length in bytes of the UTF-8 sequence introduced by lead byte `b`, or 0
/// if `b` cannot begin a sequence (continuation bytes, the overlong leads
/// `C0`/`C1`, and `F5`..`FF`).
pub open spec fn utf8_char_len(b: u8) -> int {
    if b < 0x80 {
        1
    } else if b < 0xC2 {
        0
    } else if b < 0xE0 {
        2
    } else if b < 0xF0 {
        3
    } else if b < 0xF5 {
        4
    } else {
        0
    }
}

/// Whether `b` is a UTF-8 continuation byte.
pub open spec fn is_cont_byte(b: u8) -> bool {
    0x80 <= b < 0xC0
}

/// A complete, well-formed UTF-8 scalar sequence starts at index `i` of `s`:
/// the lead byte is valid, all continuation bytes are present and in range,
/// and overlong encodings, surrogates, and values above `U+10FFFF` are
/// excluded.
pub open spec fn valid_char_at(s: Seq<u8>, i: int) -> bool {
    let l = utf8_char_len(s[i]);
    &&& 0 <= i < s.len()
    &&& l > 0
    &&& i + l <= s.len()
    &&& (l >= 2 ==> is_cont_byte(s[i + 1]))
    &&& (l >= 3 ==> is_cont_byte(s[i + 2]))
    &&& (l == 4 ==> is_cont_byte(s[i + 3]))
    &&& (s[i] == 0xE0 ==> s[i + 1] >= 0xA0)
    &&& (s[i] == 0xED ==> s[i + 1] < 0xA0)
    &&& (s[i] == 0xF0 ==> s[i + 1] >= 0x90)
    &&& (s[i] == 0xF4 ==> s[i + 1] < 0x90)
}

/// The bytes of `s` from `i` (inclusive) to `j` (exclusive) parse as a
/// whole number of well-formed UTF-8 scalar sequences.
pub open spec fn utf8_chars_between(s: Seq<u8>, i: int, j: int) -> bool
    decreases j - i,
{
    if i >= j {
        i == j
    } else {
        &&& valid_char_at(s, i)
        &&& i + utf8_char_len(s[i]) <= j
        &&& utf8_chars_between(s, i + utf8_char_len(s[i]), j)
    }
}

/// The whole byte string is well-formed UTF-8.
pub open spec fn is_utf8(s: Seq<u8>) -> bool {
    utf8_chars_between(s, 0, s.len() as int)
}

/// A parse that reaches `j` can be extended by one more scalar sequence
/// starting at `j`.
proof fn lemma_chars_snoc(s: Seq<u8>, i: int, j: int)
    requires
        0 <= i <= j,
        utf8_chars_between(s, i, j),
        valid_char_at(s, j),
    ensures
        utf8_chars_between(s, i, j + utf8_char_len(s[j])),
    decreases j - i,
{
    if i < j {
        lemma_chars_snoc(s, i + utf8_char_len(s[i]), j);
    } else {
        assert(utf8_chars_between(s, j + utf8_char_len(s[j]), j + utf8_char_len(s[j])));
    }
}

/// A scalar sequence of `s` lying wholly below `k` is also a scalar
/// sequence of the truncation of `s` to `k` bytes, and vice versa.
proof fn lemma_char_at_truncate(s: Seq<u8>, i: int, k: int)
    requires
        0 <= i < k <= s.len(),
    ensures
        valid_char_at(s.take(k), i) <==> (valid_char_at(s, i) && i + utf8_char_len(s[i]) <= k),
{
}

/// Bytes that parse as whole scalar sequences up to `r` parse the same way
/// inside the truncation of `s` to `r` bytes.
proof fn lemma_parse_of_prefix(s: Seq<u8>, i: int, r: int)
    requires
        0 <= i <= r <= s.len(),
        utf8_chars_between(s, i, r),
    ensures
        utf8_chars_between(s.take(r), i, r),
    decreases r - i,
{
    if i < r {
        lemma_char_at_truncate(s, i, r);
        lemma_parse_of_prefix(s, i + utf8_char_len(s[i]), r);
    }
}

/// If parsing `s` from `i` reaches `r` and no scalar sequence starts at `r`
/// in `s`, then no truncation of `s` strictly longer than `r` parses from
/// `i`: UTF-8 boundaries are determined by the lead bytes, so any parse of
/// the longer truncation would also have to stop at `r`.
proof fn lemma_no_valid_extension(s: Seq<u8>, i: int, r: int, k: int)
    requires
        0 <= i <= r < k <= s.len(),
        utf8_chars_between(s, i, r),
        !valid_char_at(s, r),
    ensures
        !utf8_chars_between(s.take(k), i, k),
    decreases r - i,
{
    if i == r {
        if utf8_chars_between(s.take(k), i, k) {
            lemma_char_at_truncate(s, i, k);
        }
    } else {
        lemma_char_at_truncate(s, i, k);
        lemma_no_valid_extension(s, i + utf8_char_len(s[i]), r, k);
    }
}

/// Length of the UTF-8 sequence led by `b`, or 0 if `b` is no valid lead.
fn char_len_of_lead(b: u8) -> (r: usize)
    ensures
        r == utf8_char_len(b),
{
    if b < 0x80 {
        1
    } else if b < 0xC2 {
        0
    } else if b < 0xE0 {
        2
    } else if b < 0xF0 {
        3
    } else if b < 0xF5 {
        4
    } else {
        0
    }
}

/// Whether a complete, well-formed UTF-8 scalar sequence starts at `i`.
fn check_char_at(bytes: &[u8], i: usize) -> (r: bool)
    requires
        i < bytes@.len(),
    ensures
        r == valid_char_at(bytes@, i as int),
{
    let n = bytes.len();
    let b = bytes[i];
    let l = char_len_of_lead(b);
    if l == 0 {
        return false;
    }
    if n - i < l {
        return false;
    }
    if l >= 2 {
        let b1 = bytes[i + 1];
        if !(0x80 <= b1 && b1 < 0xC0) {
            return false;
        }
        if b == 0xE0 && b1 < 0xA0 {
            return false;
        }
        if b == 0xED && b1 >= 0xA0 {
            return false;
        }
        if b == 0xF0 && b1 < 0x90 {
            return false;
        }
        if b == 0xF4 && b1 >= 0x90 {
            return false;
        }
    }
    if l >= 3 {
        let b2 = bytes[i + 2];
        if !(0x80 <= b2 && b2 < 0xC0) {
            return false;
        }
    }
    if l == 4 {
        let b3 = bytes[i + 3];
        if !(0x80 <= b3 && b3 < 0xC0) {
            return false;
        }
    }
    true
}

/// Length of the longest prefix of `bytes` that is well-formed UTF-8.
pub fn utf8_valid_prefix_len(bytes: &[u8]) -> (r: usize)
    ensures
        r <= bytes@.len(),
        is_utf8(bytes@.take(r as int)),
        forall|k: int| r < k <= bytes@.len() ==> !is_utf8(bytes@.take(k)),
{
    let n = bytes.len();
    let mut i: usize = 0;
    while i < n
        invariant
            i <= n,
            n == bytes@.len(),
            utf8_chars_between(bytes@, 0, i as int),
        ensures
            i <= n,
            n == bytes@.len(),
            utf8_chars_between(bytes@, 0, i as int),
            i == n || !valid_char_at(bytes@, i as int),
        decreases n - i,
    {
        if !check_char_at(bytes, i) {
            break;
        }
        let l = char_len_of_lead(bytes[i]);
        proof {
            lemma_chars_snoc(bytes@, 0, i as int);
        }
        i = i + l;
    }
    proof {
        lemma_parse_of_prefix(bytes@, 0, i as int);
        assert(bytes@.take(i as int).len() == i as int);
        if i < n {
            assert forall|k: int| i < k <= bytes@.len() implies !is_utf8(bytes@.take(k)) by {
                lemma_no_valid_extension(bytes@, 0, i as int, k);
                assert(bytes@.take(k).len() == k);
            }
        }
    }
    i
}

/// Truncate `bytes` to its longest valid UTF-8 prefix.  This is the
/// framework's uniform policy for text of foreign origin: malformed input
/// from a hostile peer is cut at the first invalid byte instead of raising
/// a fault.
pub fn truncate_to_valid_utf8(bytes: &[u8]) -> (r: Vec<u8>)
    ensures
        is_utf8(r@),
        exists|p: int|
            {
                &&& 0 <= p <= bytes@.len()
                &&& r@ == bytes@.take(p)
                &&& forall|k: int| p < k <= bytes@.len() ==> !is_utf8(bytes@.take(k))
            },
{
    let p = utf8_valid_prefix_len(bytes);
    let mut out: Vec<u8> = Vec::new();
    let mut i: usize = 0;
    while i < p
        invariant
            i <= p,
            p <= bytes@.len(),
            out@ == bytes@.take(i as int),
        decreases p - i,
    {
        out.push(bytes[i]);
        proof {
            assert(bytes@.take(i + 1) =~= bytes@.take(i as int).push(bytes@[i as int]));
        }
        i = i + 1;
    }
    proof {
        let gp = p as int;
        assert(out@ == bytes@.take(gp));
    }
    out
}

} // verus!
