//! Byte-level text helpers: decimal numbers, substring search and XML escaping.

use vstd::prelude::*;
use vstd::string::StringSliceAdditionalSpecFns;

verus! {

/// The ASCII decimal digits of `n`, most significant first, without leading zeros.
pub open spec fn decimal(n: nat) -> Seq<u8>
    decreases n,
{
    if n < 10 {
        seq![(n + 48) as u8]
    } else {
        decimal(n / 10).push(((n % 10) + 48) as u8)
    }
}

/// Appends the decimal digits of `value` to `out`.
pub fn push_decimal(out: &mut Vec<u8>, value: u64)
    ensures
        final(out)@ == old(out)@ + decimal(value as nat),
    decreases value,
{
    if value < 10 {
        out.push((value as u8) + 48);
        assert(decimal(value as nat) == seq![(value + 48) as u8]);
    } else {
        push_decimal(out, value / 10);
        out.push(((value % 10) as u8) + 48);
    }
}

/// The digits of a number are ASCII.
pub proof fn lemma_decimal_ascii(n: nat)
    ensures
        forall|i: int| 0 <= i < decimal(n).len() ==> #[trigger] decimal(n)[i] < 128,
    decreases n,
{
    if n < 10 {
        assert(((n + 48) as u8) == n + 48);
    } else {
        lemma_decimal_ascii(n / 10);
        let d = (n % 10) + 48;
        assert((d as u8) == d);
        let s = decimal(n);
        assert forall|i: int| 0 <= i < s.len() implies #[trigger] s[i] < 128 by {
            if i < s.len() - 1 {
                assert(s[i] == decimal(n / 10)[i]);
            }
        }
    }
}

/// Returns the decimal digits of `value` as a new byte vector.
pub fn decimal_bytes(value: u64) -> (res: Vec<u8>)
    ensures
        res@ == decimal(value as nat),
{
    let mut out = Vec::new();
    push_decimal(&mut out, value);
    assert(out@ =~= decimal(value as nat));
    out
}

/// Whether `needle` occurs in `hay` starting at byte `at`.
pub open spec fn occurs_at(hay: Seq<u8>, needle: Seq<u8>, at: int) -> bool {
    0 <= at && at + needle.len() <= hay.len() && hay.subrange(at, at + needle.len()) == needle
}

/// The first position at or after `from` where `needle` occurs in `hay`.
#[verifier::opaque]
pub open spec fn first_occurrence(hay: Seq<u8>, needle: Seq<u8>, from: int) -> Option<int> {
    if exists|at: int| from <= at && occurs_at(hay, needle, at) {
        let at = choose|at: int|
            from <= at && occurs_at(hay, needle, at) && forall|other: int|
                from <= other < at ==> !occurs_at(hay, needle, other);
        Some(at)
    } else {
        None
    }
}

/// What [`first_occurrence`] gives: an occurrence with none before it, or
/// none at all.
pub proof fn lemma_first_occurrence(hay: Seq<u8>, needle: Seq<u8>, from: int)
    ensures
        match first_occurrence(hay, needle, from) {
            Some(at) => from <= at && occurs_at(hay, needle, at) && at + needle.len() <= hay.len() && forall|other: int|
                from <= other < at ==> !occurs_at(hay, needle, other),
            None => forall|at: int| from <= at ==> !occurs_at(hay, needle, at),
        },
{
    reveal(first_occurrence);
    if exists|at: int| from <= at && occurs_at(hay, needle, at) {
        let w = choose|at: int| from <= at && occurs_at(hay, needle, at);
        lemma_least_occurrence(hay, needle, from, w);
    }
}

/// Some occurrence at or after `from` has none before it.
proof fn lemma_least_occurrence(hay: Seq<u8>, needle: Seq<u8>, from: int, w: int)
    requires
        from <= w,
        occurs_at(hay, needle, w),
    ensures
        exists|at: int|
            from <= at && occurs_at(hay, needle, at) && forall|other: int| from <= other < at ==> !occurs_at(hay, needle, other),
    decreases w - from,
{
    if exists|other: int| from <= other < w && occurs_at(hay, needle, other) {
        let o = choose|other: int| from <= other < w && occurs_at(hay, needle, other);
        lemma_least_occurrence(hay, needle, from, o);
    } else {
        assert(forall|other: int| from <= other < w ==> !occurs_at(hay, needle, other));
    }
}

/// Compares `needle` with the bytes of `hay` at `at`.
pub fn matches_at(hay: &[u8], needle: &[u8], at: usize) -> (res: bool)
    requires
        at + needle@.len() <= hay@.len(),
    ensures
        res == occurs_at(hay@, needle@, at as int),
{
    let hay_len = hay.len();
    let mut i: usize = 0;
    while i < needle.len()
        invariant
            i <= needle@.len(),
            hay_len == hay@.len(),
            at + needle@.len() <= hay@.len(),
            forall|j: int| 0 <= j < i ==> hay@[at + j] == needle@[j],
        decreases needle@.len() - i,
    {
        if hay[at + i] != needle[i] {
            assert(hay@.subrange(at as int, at + needle@.len())[i as int] != needle@[i as int]);
            return false;
        }
        i = i + 1;
    }
    assert(hay@.subrange(at as int, at + needle@.len()) =~= needle@);
    true
}

/// Finds the first occurrence of `needle` in `hay` at or after `from`.
pub fn find_bytes(hay: &[u8], needle: &[u8], from: usize) -> (res: Option<usize>)
    ensures
        match first_occurrence(hay@, needle@, from as int) {
            Some(at) => res == Some(at as usize),
            None => res is None,
        },
        res matches Some(at) ==> at + needle@.len() <= hay@.len(),
{
    proof {
        lemma_first_occurrence(hay@, needle@, from as int);
    }
    if needle.len() > hay.len() {
        assert(forall|at: int| from <= at ==> !occurs_at(hay@, needle@, at));
        return None;
    }
    let last = hay.len() - needle.len();
    let mut at = from;
    while at <= last
        invariant
            last + needle@.len() == hay@.len(),
            from <= at,
            forall|other: int| from <= other < at ==> !occurs_at(hay@, needle@, other),
        decreases last + 1 - at,
    {
        if matches_at(hay, needle, at) {
            proof {
                lemma_first_occurrence(hay@, needle@, from as int);
                let found = at as int;
                match first_occurrence(hay@, needle@, from as int) {
                    Some(a) => {
                        if a < found {
                            assert(!occurs_at(hay@, needle@, a));
                        } else if a > found {
                            assert(!occurs_at(hay@, needle@, found));
                        }
                    },
                    None => {
                        assert(!occurs_at(hay@, needle@, found));
                    },
                }
            }
            return Some(at);
        }
        if at == last {
            proof {
                lemma_first_occurrence(hay@, needle@, from as int);
                assert forall|other: int| from <= other implies !occurs_at(hay@, needle@, other) by {
                    if other > last {
                    }
                }
            }
            return None;
        }
        at = at + 1;
    }
    proof {
        lemma_first_occurrence(hay@, needle@, from as int);
        assert forall|other: int| from <= other implies !occurs_at(hay@, needle@, other) by {
            if other > last {
            }
        }
    }
    None
}

/// What XML escaping turns one byte into.
pub open spec fn escaped_byte(b: u8) -> Seq<u8> {
    if b == 60 {
        seq![38u8, 108, 116, 59]
    } else if b == 62 {
        seq![38u8, 103, 116, 59]
    } else if b == 38 {
        seq![38u8, 97, 109, 112, 59]
    } else if b == 39 {
        seq![38u8, 97, 112, 111, 115, 59]
    } else if b == 34 {
        seq![38u8, 113, 117, 111, 116, 59]
    } else if b == 13 {
        seq![38u8, 35, 49, 51, 59]
    } else {
        seq![b]
    }
}

/// XML escaping of a byte string: `<`, `>`, `&`, `'`, `"` and carriage return
/// become `&lt;`, `&gt;`, `&amp;`, `&apos;`, `&quot;` and `&#13;`; every
/// other byte is kept.
pub open spec fn escape_bytes(s: Seq<u8>) -> Seq<u8>
    decreases s.len(),
{
    if s.len() == 0 {
        Seq::empty()
    } else {
        escape_bytes(s.drop_last()) + escaped_byte(s.last())
    }
}

/// Escapes `value` for XML text or an attribute value.
///
/// Calls `quick_xml::escape::escape`. Claimed: its result, taken as UTF-8
/// bytes, is the input's bytes with `<`, `>`, `&`, `'`, `"` and `\r`
/// replaced by their entities, as that function's table and body show.
#[verifier::external_body]
pub(crate) fn xml_escape(value: &str) -> (res: Vec<u8>)
    ensures
        res@ == escape_bytes(value.spec_bytes()),
{
    quick_xml::escape::escape(value).into_owned().into_bytes()
}

/// Decodes `bytes` as UTF-8.
///
/// Calls `String::from_utf8`, which fails exactly on bytes that are not
/// valid UTF-8 and otherwise keeps them as the string's contents.
#[verifier::external_body]
pub(crate) fn utf8_string(bytes: Vec<u8>) -> (res: Option<String>)
    ensures
        res is Some <==> vstd::utf8::valid_utf8(bytes@),
        res matches Some(s) ==> s@ == vstd::utf8::decode_utf8(bytes@),
{
    String::from_utf8(bytes).ok()
}

/// Whether `bytes` are valid UTF-8.
///
/// Calls `std::str::from_utf8`, which fails exactly on bytes that are not
/// valid UTF-8.
#[verifier::external_body]
pub(crate) fn utf8_valid(bytes: &[u8]) -> (res: bool)
    ensures
        res == vstd::utf8::valid_utf8(bytes@),
{
    std::str::from_utf8(bytes).is_ok()
}

/// The characters of ASCII bytes.
pub open spec fn ascii_chars(bytes: Seq<u8>) -> Seq<char> {
    bytes.map_values(|b: u8| b as char)
}

/// Turns ASCII bytes into a string of the same characters.
pub fn ascii_string(bytes: &[u8]) -> (res: String)
    requires
        forall|i: int| 0 <= i < bytes@.len() ==> #[trigger] bytes@[i] < 128,
    ensures
        res@ == ascii_chars(bytes@),
{
    let ghost chars = ascii_chars(bytes@);
    proof {
        assert(vstd::utf8::is_ascii_chars(chars));
        vstd::utf8::is_ascii_chars_encode_utf8(chars);
        assert(vstd::utf8::encode_utf8(chars) =~= bytes@);
        vstd::utf8::encode_utf8_valid_utf8(chars);
        vstd::utf8::encode_utf8_decode_utf8(chars);
    }
    match utf8_string(vstd::slice::slice_to_vec(bytes)) {
        Some(text) => text,
        None => String::new(),
    }
}

/// Returns the decimal digits of `value` as a string.
pub fn number_text(value: u64) -> (res: String)
    ensures
        res@ == ascii_chars(decimal(value as nat)),
{
    let digits = decimal_bytes(value);
    proof {
        lemma_decimal_ascii(value as nat);
    }
    ascii_string(digits.as_slice())
}

/// Two byte strings that agree on the first scalar of one agree on
/// whether it is a valid scalar and on its length.
pub proof fn lemma_first_scalar_same(s: Seq<u8>, t: Seq<u8>)
    requires
        vstd::utf8::valid_first_scalar(s),
        t.len() >= vstd::utf8::length_of_first_scalar(s),
        forall|i: int| 0 <= i < vstd::utf8::length_of_first_scalar(s) ==> t[i] == s[i],
    ensures
        vstd::utf8::valid_first_scalar(t),
        vstd::utf8::length_of_first_scalar(t) == vstd::utf8::length_of_first_scalar(s),
{
    let l = vstd::utf8::length_of_first_scalar(s);
    assert(t[0] == s[0]);
    if l >= 2 {
        assert(t[1] == s[1]);
    }
    if l >= 3 {
        assert(t[2] == s[2]);
    }
    if l >= 4 {
        assert(t[3] == s[3]);
    }
}

/// Bytes below `0x80` are valid UTF-8.
pub proof fn lemma_ascii_valid(s: Seq<u8>)
    requires
        forall|i: int| 0 <= i < s.len() ==> s[i] < 0x80,
    ensures
        vstd::utf8::valid_utf8(s),
    decreases s.len(),
{
    if s.len() > 0 {
        let b = s[0];
        assert((b & 0x7f) as u32 == b as u32) by (bit_vector)
            requires
                b < 0x80,
        ;
        assert(vstd::utf8::valid_first_scalar(s));
        let rest = vstd::utf8::pop_first_scalar(s);
        assert(rest =~= s.subrange(1, s.len() as int));
        lemma_ascii_valid(rest);
    }
}

/// Valid UTF-8 followed by valid UTF-8 is valid UTF-8.
pub proof fn lemma_concat_valid(a: Seq<u8>, b: Seq<u8>)
    requires
        vstd::utf8::valid_utf8(a),
        vstd::utf8::valid_utf8(b),
    ensures
        vstd::utf8::valid_utf8(a + b),
    decreases a.len(),
{
    if a.len() == 0 {
        assert(a + b =~= b);
    } else {
        let c = a + b;
        lemma_first_scalar_same(a, c);
        let l = vstd::utf8::length_of_first_scalar(a);
        assert(vstd::utf8::pop_first_scalar(c) =~= vstd::utf8::pop_first_scalar(a) + b);
        lemma_concat_valid(vstd::utf8::pop_first_scalar(a), b);
    }
}

/// Whether position `k` of `x` starts a scalar or ends the text: it is an
/// end, holds no continuation byte, or follows a byte below `0x80`.
pub open spec fn split_point(x: Seq<u8>, k: int) -> bool {
    k == 0 || k == x.len() || !vstd::utf8::is_continuation_byte(x[k]) || x[k - 1] < 0x80
}

/// Valid UTF-8 split where a scalar starts is valid on both sides.
pub proof fn lemma_split_valid(x: Seq<u8>, k: int)
    requires
        vstd::utf8::valid_utf8(x),
        0 <= k <= x.len(),
        split_point(x, k),
    ensures
        vstd::utf8::valid_utf8(x.subrange(0, k)),
        vstd::utf8::valid_utf8(x.subrange(k, x.len() as int)),
    decreases x.len(),
{
    if k == 0 {
        assert(x.subrange(0, 0) =~= Seq::<u8>::empty());
        assert(x.subrange(0, x.len() as int) =~= x);
    } else {
        let l = vstd::utf8::length_of_first_scalar(x);
        assert(l <= k) by {
            if k < l {
                assert(vstd::utf8::is_continuation_byte(x[k]));
                if k - 1 == 0 {
                    assert(x[0] >= 0xc0);
                } else {
                    assert(vstd::utf8::is_continuation_byte(x[k - 1]));
                }
            }
        }
        let rest = vstd::utf8::pop_first_scalar(x);
        assert(rest =~= x.subrange(l, x.len() as int));
        lemma_split_valid(rest, k - l);
        assert(rest.subrange(k - l, rest.len() as int) =~= x.subrange(k, x.len() as int));
        let front = x.subrange(0, k);
        lemma_first_scalar_same(x, front);
        assert(vstd::utf8::pop_first_scalar(front) =~= rest.subrange(0, k - l));
    }
}

/// Escaping distributes over concatenation.
pub proof fn lemma_escape_concat(a: Seq<u8>, b: Seq<u8>)
    ensures
        escape_bytes(a + b) == escape_bytes(a) + escape_bytes(b),
    decreases b.len(),
{
    if b.len() == 0 {
        assert(a + b =~= a);
        assert(escape_bytes(a) + escape_bytes(b) =~= escape_bytes(a));
    } else {
        assert((a + b).drop_last() =~= a + b.drop_last());
        lemma_escape_concat(a, b.drop_last());
        assert(escape_bytes(a + b) =~= escape_bytes(a) + escape_bytes(b));
    }
}

/// Escaping keeps bytes from `0x80` up as they are.
proof fn lemma_escape_high(s: Seq<u8>)
    requires
        forall|i: int| 0 <= i < s.len() ==> s[i] >= 0x80,
    ensures
        escape_bytes(s) == s,
    decreases s.len(),
{
    if s.len() > 0 {
        lemma_escape_high(s.drop_last());
        assert(escape_bytes(s) =~= s);
    }
}

/// Escaping bytes below `0x80` gives bytes below `0x80`.
proof fn lemma_escape_ascii(s: Seq<u8>)
    requires
        forall|i: int| 0 <= i < s.len() ==> s[i] < 0x80,
    ensures
        forall|i: int| 0 <= i < escape_bytes(s).len() ==> escape_bytes(s)[i] < 0x80,
    decreases s.len(),
{
    if s.len() > 0 {
        lemma_escape_ascii(s.drop_last());
        let d = escape_bytes(s.drop_last());
        let e = escaped_byte(s.last());
        assert(s.last() < 0x80);
        assert(forall|i: int| 0 <= i < e.len() ==> e[i] < 0x80);
        assert(escape_bytes(s) == d + e);
        assert forall|i: int| 0 <= i < (d + e).len() implies (d + e)[i] < 0x80 by {
            if i < d.len() {
                assert((d + e)[i] == d[i]);
            } else {
                assert((d + e)[i] == e[i - d.len()]);
            }
        }
    }
}

/// The escaped first scalar of valid UTF-8 is valid UTF-8.
proof fn lemma_escape_first_valid(s: Seq<u8>)
    requires
        vstd::utf8::valid_utf8(s),
        s.len() > 0,
    ensures
        vstd::utf8::valid_utf8(escape_bytes(s.subrange(0, vstd::utf8::length_of_first_scalar(s)))),
{
    let l = vstd::utf8::length_of_first_scalar(s);
    let first = s.subrange(0, l);
    if l == 1 {
        assert(first[0] == s[0]);
        lemma_escape_ascii(first);
        lemma_ascii_valid(escape_bytes(first));
    } else {
        assert forall|i: int| 0 <= i < first.len() implies first[i] >= 0x80 by {
            assert(first[i] == s[i]);
            if i > 0 {
                assert(vstd::utf8::is_continuation_byte(s[i]));
            }
        }
        lemma_escape_high(first);
        let rest = vstd::utf8::pop_first_scalar(s);
        if l < s.len() {
            assert(rest[0] == s[l]);
            assert(vstd::utf8::valid_utf8(rest));
            assert(rest.len() > 0);
            assert(vstd::utf8::valid_first_scalar(rest));
        }
        lemma_split_valid(s, l);
    }
}

/// Escaping valid UTF-8 gives valid UTF-8.
pub proof fn lemma_escape_valid(s: Seq<u8>)
    requires
        vstd::utf8::valid_utf8(s),
    ensures
        vstd::utf8::valid_utf8(escape_bytes(s)),
    decreases s.len(),
{
    if s.len() > 0 {
        let l = vstd::utf8::length_of_first_scalar(s);
        let first = s.subrange(0, l);
        let rest = vstd::utf8::pop_first_scalar(s);
        assert(s =~= first + rest);
        lemma_escape_concat(first, rest);
        lemma_escape_valid(rest);
        lemma_escape_first_valid(s);
        lemma_concat_valid(escape_bytes(first), escape_bytes(rest));
    }
}

} // verus!
