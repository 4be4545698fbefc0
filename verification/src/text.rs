//! Byte and text helpers: UTF-8 decoding, the byte budget of the sentiment
//! service, and decimal parsing of message ids.

use vstd::prelude::*;
use vstd::string::StringSliceAdditionalSpecFns;
use vstd::utf8::*;

verus! {

broadcast use vstd::utf8::group_utf8_lib;

/// The byte value of the ASCII `'+'` sign.
pub const PLUS: u8 = 43;

/// The byte value of the ASCII `'0'` digit.
pub const ZERO: u8 = 48;

/// True when `b` is one of the ASCII bytes `'0'..='9'`.
pub open spec fn is_digit(b: u8) -> bool {
    ZERO <= b <= 57
}

/// True when every byte of `d` is an ASCII digit.
pub open spec fn all_digits(d: Seq<u8>) -> bool {
    forall|i: int| 0 <= i < d.len() ==> #[trigger] is_digit(d[i])
}

/// The number that the ASCII digits `d` denote in base ten (most significant first).
pub open spec fn digits_value(d: Seq<u8>) -> nat
    decreases d.len(),
{
    if d.len() == 0 {
        0
    } else {
        digits_value(d.drop_last()) * 10 + (d.last() - ZERO) as nat
    }
}

/// The bytes of `s` after an optional leading `'+'`.
pub open spec fn unsigned_digits(s: Seq<u8>) -> Seq<u8> {
    if s.len() > 0 && s[0] == PLUS {
        s.drop_first()
    } else {
        s
    }
}

/// What parsing the text `s` as a `usize` gives: an optional `'+'`, then one
/// or more ASCII digits whose value fits in a `usize`; anything else is refused.
pub open spec fn decimal_usize(s: Seq<u8>) -> Option<usize> {
    let d = unsigned_digits(s);
    if d.len() > 0 && all_digits(d) && digits_value(d) <= usize::MAX {
        Some(digits_value(d) as usize)
    } else {
        None
    }
}

/// A prefix of a digit string never denotes more than the whole string.
pub proof fn lemma_digits_prefix_le(d: Seq<u8>, k: int)
    requires
        0 <= k <= d.len(),
        all_digits(d),
    ensures
        digits_value(d.take(k)) <= digits_value(d),
    decreases d.len(),
{
    if k < d.len() {
        assert(d.drop_last().take(k) =~= d.take(k));
        assert(all_digits(d.drop_last()));
        lemma_digits_prefix_le(d.drop_last(), k);
    } else {
        assert(d.take(k) =~= d);
    }
}

/// A non-empty string of ASCII digits (with no sign) whose value fits in a
/// `usize` parses to exactly the number its digits denote in base ten.
pub proof fn law_digit_strings_parse_to_their_value(d: Seq<u8>)
    ensures
        d.len() > 0 && all_digits(d) && digits_value(d) <= usize::MAX ==> decimal_usize(d) == Some(
            digits_value(d) as usize,
        ),
{
    if d.len() > 0 && all_digits(d) {
        assert(is_digit(d[0]));
        assert(unsigned_digits(d) == d);
    }
}

/// A single ASCII digit parses to its own value.
pub proof fn law_single_digit(c: u8)
    requires
        is_digit(c),
    ensures
        decimal_usize(seq![c]) == Some((c - 48) as usize),
{
    let d = seq![c];
    assert(d.drop_last() =~= Seq::<u8>::empty());
    assert(digits_value(Seq::<u8>::empty()) == 0);
    assert(d.last() == c);
    assert(digits_value(d) == (c - 48) as nat);
    assert(is_digit(d[0]));
    assert(unsigned_digits(d) == d);
    assert(all_digits(d));
}

/// Appending a digit `c` to an unsigned digit string worth `v` gives a string
/// worth `v * 10 + c`, as long as that fits in a `usize`; together with
/// `law_single_digit` this fixes the value of every digit string.
pub proof fn law_append_digit(d: Seq<u8>, c: u8, v: usize)
    requires
        d.len() > 0,
        all_digits(d),
        is_digit(c),
        decimal_usize(d) == Some(v),
        v * 10 + (c - 48) <= usize::MAX,
    ensures
        decimal_usize(d.push(c)) == Some((v * 10 + (c - 48)) as usize),
{
    let e = d.push(c);
    assert(is_digit(d[0]));
    assert(unsigned_digits(d) == d);
    assert(e[0] == d[0]);
    assert(unsigned_digits(e) == e);
    assert(e.drop_last() =~= d);
    assert(all_digits(e)) by {
        assert forall|i: int| 0 <= i < e.len() implies #[trigger] is_digit(e[i]) by {
            if i < d.len() {
                assert(e[i] == d[i]);
            }
        }
    }
}

/// Parses `s` as a `usize` in base ten, as `str::parse::<usize>` does.
pub fn parse_usize(s: &str) -> (res: Option<usize>)
    ensures
        res == decimal_usize(s.spec_bytes()),
        s.spec_bytes().len() > 0 && all_digits(s.spec_bytes()) && digits_value(s.spec_bytes())
            <= usize::MAX ==> res == Some(digits_value(s.spec_bytes()) as usize),
{
    proof {
        law_digit_strings_parse_to_their_value(s.spec_bytes());
    }
    let bytes = s.as_bytes();
    let n = bytes.len();
    let start: usize = if n > 0 && bytes[0] == PLUS { 1 } else { 0 };
    let ghost d = unsigned_digits(bytes@);
    assert(d =~= bytes@.subrange(start as int, n as int));
    if start == n {
        return None;
    }
    let mut acc: usize = 0;
    let mut i: usize = start;
    while i < n
        invariant
            start <= i <= n,
            n == bytes@.len(),
            bytes@ == s.spec_bytes(),
            d == unsigned_digits(bytes@),
            start < n,
            d =~= bytes@.subrange(start as int, n as int),
            all_digits(d.take(i - start)),
            acc as nat == digits_value(d.take(i - start)),
        decreases n - i,
    {
        let b = bytes[i];
        assert(d.take(i + 1 - start).drop_last() =~= d.take(i - start));
        assert(d[i - start] == b);
        assert(d.take(i + 1 - start).last() == b);
        if b < ZERO || b > 57 {
            assert(!is_digit(d[i - start]));
            proof {
                law_digit_strings_parse_to_their_value(s.spec_bytes());
            }
            return None;
        }
        let next = match acc.checked_mul(10) {
            Some(m) => m.checked_add((b - ZERO) as usize),
            None => None,
        };
        match next {
            Some(v) => {
                acc = v;
            },
            None => {
                assert(digits_value(d.take(i + 1 - start)) == acc * 10 + (b - ZERO));
                // The value so far already exceeds what a usize holds, so the
                // whole string does too, whatever follows.
                proof {
                    if all_digits(d) {
                        lemma_digits_prefix_le(d, i + 1 - start);
                    }
                    law_digit_strings_parse_to_their_value(s.spec_bytes());
                }
                return None;
            },
        }
        i = i + 1;
    }
    assert(d.take(n - start) =~= d);
    Some(acc)
}

/// Largest number of bytes of a message that is sent for sentiment analysis.
pub const ANALYSIS_BYTES: usize = 5000;

/// The text kept for analysis is never longer than 5000 bytes, is the whole
/// body when the body is shorter than that, and otherwise is exactly the
/// first 5000 bytes; it can be kept exactly when the body is short or byte
/// 5000 starts a character.
pub proof fn law_analysis_keeps_the_first_5000_bytes(body: Seq<u8>)
    requires
        valid_utf8(body),
    ensures
        body.len() < 5000 ==> analysis_bytes(body) == body,
        body.len() >= 5000 ==> analysis_bytes(body).len() == 5000,
        analysis_bytes(body) == body.take(analysis_bytes(body).len() as int),
        cuts_cleanly(body) <==> (body.len() < 5000 || is_char_boundary(body, 5000)),
{
    assert(body.take(body.len() as int) =~= body);
}

/// Decodes `bytes` as UTF-8 with `std::str::from_utf8`.
///
/// Trusted: `from_utf8` returns `Ok` exactly when the slice is well-formed
/// UTF-8, and the string it returns is made of those very bytes.
#[verifier::external_body]
fn utf8_str(bytes: &[u8]) -> (res: Option<&str>)
    ensures
        res is Some <==> valid_utf8(bytes@),
        res matches Some(s) ==> s.spec_bytes() == bytes@,
{
    std::str::from_utf8(bytes).ok()
}

/// Decodes `bytes` as UTF-8 into an owned string; `None` when they are not
/// well-formed UTF-8.
pub fn decode_text(bytes: &[u8]) -> (res: Option<String>)
    ensures
        res is Some <==> valid_utf8(bytes@),
        res matches Some(t) ==> t@ == decode_utf8(bytes@),
{
    match utf8_str(bytes) {
        Some(s) => {
            proof {
                assert(decode_utf8(encode_utf8(s@)) == s@);
            }
            Some(s.to_owned())
        },
        None => None,
    }
}

/// The bytes of a message body that are sent for analysis: all of them when
/// there are fewer than `ANALYSIS_BYTES`, else the first `ANALYSIS_BYTES`.
pub open spec fn analysis_bytes(body: Seq<u8>) -> Seq<u8> {
    if body.len() < ANALYSIS_BYTES {
        body
    } else {
        body.take(ANALYSIS_BYTES as int)
    }
}

/// True when cutting `body` to `analysis_bytes(body)` does not split a character.
pub open spec fn cuts_cleanly(body: Seq<u8>) -> bool {
    body.len() < ANALYSIS_BYTES || is_char_boundary(body, ANALYSIS_BYTES as int)
}

/// The part of `body` that is sent for analysis, or `None` when the byte
/// budget would cut a character in two (slicing the text there panics).
pub fn analysis_text(body: &str) -> (res: Option<&str>)
    ensures
        res is Some <==> cuts_cleanly(body.spec_bytes()),
        res matches Some(t) ==> t.spec_bytes() == analysis_bytes(body.spec_bytes()),
        res matches Some(t) ==> t@ == decode_utf8(analysis_bytes(body.spec_bytes())),
        body.spec_bytes().len() < 5000 ==> (res matches Some(t) && t.spec_bytes()
            == body.spec_bytes()),
        body.spec_bytes().len() >= 5000 && is_char_boundary(body.spec_bytes(), 5000) ==> (
        res matches Some(t) && t.spec_bytes() == body.spec_bytes().take(5000)
            && t.spec_bytes().len() == 5000),
        body.spec_bytes().len() >= 5000 && !is_char_boundary(body.spec_bytes(), 5000)
            ==> res is None,
{
    proof {
        assert(valid_utf8(encode_utf8(body@)));
    }
    let len = body.as_bytes().len();
    if len < ANALYSIS_BYTES {
        proof {
            assert(decode_utf8(encode_utf8(body@)) == body@);
        }
        Some(body)
    } else if body.is_char_boundary(ANALYSIS_BYTES) {
        let (head, _tail) = body.split_at(ANALYSIS_BYTES);
        proof {
            assert(decode_utf8(encode_utf8(head@)) == head@);
            assert(body.spec_bytes().subrange(0, ANALYSIS_BYTES as int)
                =~= body.spec_bytes().take(ANALYSIS_BYTES as int));
        }
        Some(head)
    } else {
        None
    }
}

} // verus!
