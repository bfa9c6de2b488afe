//! Comparisons of text, byte by byte.

use vstd::prelude::*;
use vstd::string::StringExecFns;
use vstd::utf8::decode_utf8;
use vstd::utf8::encode_utf8_valid_utf8;
use vstd::utf8::is_char_boundary;
use vstd::utf8::is_char_boundary_start_end_of_seq;
use vstd::string::StringSliceAdditionalSpecFns;
use vstd::utf8::encode_utf8;
use vstd::utf8::encode_utf8_decode_utf8;

verus! {

/// The text `s` without the white space at its two ends.
pub uninterp spec fn spec_trim(s: Seq<char>) -> Seq<char>;

/// `str::trim`: the text without the white space at its two ends, white
/// space being what Unicode calls so.
#[verifier::external_body]
pub(crate) fn trimmed(s: &str) -> (t: &str)
    ensures
        t@ == spec_trim(s@),
{
    s.trim()
}

/// The text `s` with every letter in lower case.
pub uninterp spec fn spec_lowercase(s: Seq<char>) -> Seq<char>;

/// `str::to_lowercase`: the text with every letter in lower case, by the
/// rules of Unicode.
#[verifier::external_body]
pub(crate) fn lowercase(s: &str) -> (t: String)
    ensures
        t@ == spec_lowercase(s@),
{
    s.to_lowercase()
}

/// Whether `s` is empty or white space only.
pub open spec fn spec_is_blank(s: Seq<char>) -> bool {
    spec_trim(s).len() == 0
}

/// Whether `s` is empty or white space only.
pub fn is_blank(s: &str) -> (b: bool)
    ensures
        b == spec_is_blank(s@),
{
    trimmed(s).is_empty()
}

/// Texts with the same encoding are the same text.
pub proof fn lemma_same_encoding(a: Seq<char>, b: Seq<char>)
    requires
        encode_utf8(a) == encode_utf8(b),
    ensures
        a == b,
{
    encode_utf8_decode_utf8(a);
    encode_utf8_decode_utf8(b);
}

/// Whether two runs of bytes are the same.
pub fn bytes_equal(a: &[u8], b: &[u8]) -> (same: bool)
    ensures
        same == (a@ == b@),
{
    if a.len() != b.len() {
        return false;
    }
    let mut i: usize = 0;
    while i < a.len()
        invariant
            i <= a@.len(),
            a@.len() == b@.len(),
            forall|k: int| 0 <= k < i ==> a@[k] == b@[k],
        decreases a@.len() - i,
    {
        if a[i] != b[i] {
            return false;
        }
        i += 1;
    }
    assert(a@ =~= b@);
    true
}

/// Whether two texts are the same.
pub fn str_equal(a: &str, b: &str) -> (same: bool)
    ensures
        same == (a@ == b@),
{
    let same = bytes_equal(a.as_bytes(), b.as_bytes());
    proof {
        if same {
            lemma_same_encoding(a@, b@);
        }
    }
    same
}

/// Whether the bytes `s` begin with the bytes `prefix`.
pub open spec fn spec_bytes_start_with(s: Seq<u8>, prefix: Seq<u8>) -> bool {
    s.len() >= prefix.len() && s.take(prefix.len() as int) == prefix
}

/// Whether the text `s` begins with the text `prefix`: whether its encoding
/// begins with the encoding of `prefix`.
pub open spec fn spec_starts_with(s: Seq<char>, prefix: Seq<char>) -> bool {
    spec_bytes_start_with(encode_utf8(s), encode_utf8(prefix))
}

/// Whether the text `s` begins with the text `prefix`.
pub fn starts_with(s: &str, prefix: &str) -> (b: bool)
    ensures
        b == spec_starts_with(s@, prefix@),
{
    let text = s.as_bytes();
    let head = prefix.as_bytes();
    if text.len() < head.len() {
        return false;
    }
    let mut i: usize = 0;
    while i < head.len()
        invariant
            i <= head@.len() <= text@.len(),
            text@ == s.spec_bytes(),
            head@ == prefix.spec_bytes(),
            forall|k: int| 0 <= k < i ==> text@[k] == head@[k],
        decreases head@.len() - i,
    {
        if text[i] != head[i] {
            assert(text@.take(head@.len() as int)[i as int] != head@[i as int]);
            return false;
        }
        i += 1;
    }
    assert(text@.take(head@.len() as int) =~= head@);
    true
}

/// The decimal digit of a number below ten.
pub open spec fn spec_digit(d: nat) -> char {
    ((0x30 + d) as u8) as char
}

/// The decimal numeral of `n`, without leading zeros.
pub open spec fn spec_decimal(n: nat) -> Seq<char>
    decreases n,
{
    if n < 10 {
        seq![spec_digit(n)]
    } else {
        spec_decimal(n / 10).push(spec_digit(n % 10))
    }
}

/// `u64::to_string`: the decimal numeral of `n`, without sign and without
/// leading zeros.
#[verifier::external_body]
pub(crate) fn decimal_string(n: u64) -> (s: String)
    ensures
        s@ == spec_decimal(n as nat),
{
    n.to_string()
}

/// The decimal numeral of `n`, with a minus sign before it where `n` is
/// negative.
pub open spec fn spec_signed_decimal(n: int) -> Seq<char> {
    if n < 0 {
        "-"@ + spec_decimal((-n) as nat)
    } else {
        spec_decimal(n as nat)
    }
}

/// The decimal numeral of `n`, with a minus sign before it where `n` is
/// negative.
pub fn signed_decimal_string(n: i64) -> (s: String)
    ensures
        s@ == spec_signed_decimal(n as int),
{
    if n < 0 {
        let magnitude: u64 = ((-(n + 1)) as u64) + 1;
        String::from_str("-").concat(decimal_string(magnitude).as_str())
    } else {
        decimal_string(n as u64)
    }
}

/// `char::to_string`: the text of one character.
#[verifier::external_body]
pub(crate) fn char_string(c: char) -> (s: String)
    ensures
        s@ == seq![c],
{
    c.to_string()
}

/// The word for a truth value: `true` or `false`.
pub open spec fn spec_bool_text(b: bool) -> Seq<char> {
    if b {
        "true"@
    } else {
        "false"@
    }
}

/// The word for a truth value.
pub fn bool_string(b: bool) -> (s: String)
    ensures
        s@ == spec_bool_text(b),
{
    if b {
        String::from_str("true")
    } else {
        String::from_str("false")
    }
}

/// The last place at or before `at` where a character of the encoded text
/// `bytes` begins or the text ends.
pub open spec fn spec_floor_boundary(bytes: Seq<u8>, at: int) -> int
    decreases at,
{
    if at <= 0 {
        0
    } else if is_char_boundary(bytes, at) {
        at
    } else {
        spec_floor_boundary(bytes, at - 1)
    }
}

/// The text cut to at most `max` bytes of its encoding, whole characters
/// only, and marked as cut; the text itself where it is no longer than that.
pub open spec fn spec_truncated(text: Seq<char>, max: nat) -> Seq<char> {
    if encode_utf8(text).len() <= max {
        text
    } else {
        decode_utf8(
            encode_utf8(text).subrange(0, spec_floor_boundary(encode_utf8(text), max as int)),
        ) + "... (truncated)"@
    }
}

/// The text cut to at most `max` bytes of its encoding, whole characters
/// only, and marked as cut; the text itself where it is no longer than that.
pub fn truncated(text: &str, max: usize) -> (s: String)
    ensures
        s@ == spec_truncated(text@, max as nat),
{
    let bytes = text.as_bytes();
    if bytes.len() <= max {
        return String::from_str(text);
    }
    proof {
        encode_utf8_valid_utf8(text@);
        is_char_boundary_start_end_of_seq(text.spec_bytes());
    }
    let mut k: usize = max;
    while k > 0 && !text.is_char_boundary(k)
        invariant
            k <= max < bytes@.len(),
            bytes@ == text.spec_bytes(),
            spec_floor_boundary(text.spec_bytes(), max as int) == spec_floor_boundary(
                text.spec_bytes(),
                k as int,
            ),
        decreases k,
    {
        k -= 1;
    }
    assert(is_char_boundary(text.spec_bytes(), k as int));
    let (head, _) = text.split_at(k);
    proof {
        encode_utf8_decode_utf8(head@);
    }
    String::from_str(head).concat("... (truncated)")
}

/// Whether a character is a decimal digit.
pub open spec fn is_decimal_digit(c: char) -> bool {
    '0' <= c <= '9'
}

/// A decimal numeral has at least one character, and digits only.
pub proof fn lemma_decimal_is_digits(n: nat)
    ensures
        spec_decimal(n).len() >= 1,
        forall|i: int| 0 <= i < spec_decimal(n).len() ==> is_decimal_digit(
            #[trigger] spec_decimal(n)[i],
        ),
    decreases n,
{
    if n >= 10 {
        lemma_decimal_is_digits(n / 10);
    }
}

/// Numbers with the same decimal numeral are the same number.
pub proof fn lemma_decimal_is_injective(a: nat, b: nat)
    requires
        spec_decimal(a) == spec_decimal(b),
    ensures
        a == b,
    decreases a,
{
    lemma_decimal_is_digits(a / 10);
    lemma_decimal_is_digits(b / 10);
    if a < 10 && b < 10 {
        assert(spec_decimal(a)[0] == spec_decimal(b)[0]);
        assert(spec_digit(a) as int == 0x30 + a);
        assert(spec_digit(b) as int == 0x30 + b);
        assert(spec_decimal(a)[0] == spec_digit(a));
        assert(spec_decimal(b)[0] == spec_digit(b));
    } else if a >= 10 && b >= 10 {
        let x = spec_decimal(a / 10);
        let y = spec_decimal(b / 10);
        assert(x.push(spec_digit(a % 10)).last() == y.push(spec_digit(b % 10)).last());
        assert(x.push(spec_digit(a % 10)).drop_last() =~= x);
        assert(y.push(spec_digit(b % 10)).drop_last() =~= y);
        assert(spec_digit(a % 10) as int == 0x30 + a % 10);
        assert(spec_digit(b % 10) as int == 0x30 + b % 10);
        assert(spec_digit(a % 10) == spec_digit(b % 10));
        assert(a % 10 == b % 10);
        assert(x == y);
        lemma_decimal_is_injective(a / 10, b / 10);
    } else if a < 10 {
        assert(spec_decimal(a).len() == 1);
        assert(spec_decimal(b).len() == spec_decimal(b / 10).len() + 1);
    } else {
        assert(spec_decimal(b).len() == 1);
        assert(spec_decimal(a).len() == spec_decimal(a / 10).len() + 1);
    }
}

} // verus!
