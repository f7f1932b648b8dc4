//! Percent-encoding of query parameters and decimal rendering of numbers.
use vstd::prelude::*;
use vstd::string::*;
use vstd::utf8::{encode_scalar, encode_utf8};

verus! {

/// Bytes that percent-encoding leaves as they are: ASCII letters, digits and `-._~`.
pub open spec fn is_unreserved(b: u8) -> bool {
    (0x30 <= b <= 0x39) || (0x41 <= b <= 0x5a) || (0x61 <= b <= 0x7a) || b == 0x2d || b == 0x2e
        || b == 0x5f || b == 0x7e
}

/// Upper-case hexadecimal digit for a value below 16.
pub open spec fn hex_digit(d: u8) -> char {
    seq!['0', '1', '2', '3', '4', '5', '6', '7', '8', '9', 'A', 'B', 'C', 'D', 'E', 'F'][d as int]
}

/// One byte, percent-encoded.
pub open spec fn escape_byte(b: u8) -> Seq<char> {
    if is_unreserved(b) {
        seq![b as char]
    } else {
        seq!['%', hex_digit(b / 16), hex_digit(b % 16)]
    }
}

/// A byte sequence, percent-encoded byte by byte.
pub open spec fn percent_encode_bytes(bytes: Seq<u8>) -> Seq<char>
    decreases bytes.len(),
{
    if bytes.len() == 0 {
        seq![]
    } else {
        escape_byte(bytes[0]) + percent_encode_bytes(bytes.drop_first())
    }
}

/// The percent-encoding of a string: its UTF-8 bytes, each escaped unless unreserved.
pub open spec fn url_encoded(s: Seq<char>) -> Seq<char> {
    percent_encode_bytes(encode_utf8(s))
}

/// Characters that percent-encoding can emit: unreserved ones, `%` and hex digits.
pub open spec fn is_encoded_char(c: char) -> bool {
    c == '%' || (c as u32) < 128 && is_unreserved(c as u32 as u8)
}

/// Every character of the percent-encoding of `bytes` is one that encoding emits.
pub proof fn lemma_percent_encode_chars(bytes: Seq<u8>)
    ensures
        forall|i: int|
            0 <= i < percent_encode_bytes(bytes).len() ==> is_encoded_char(
                #[trigger] percent_encode_bytes(bytes)[i],
            ),
    decreases bytes.len(),
{
    if bytes.len() > 0 {
        lemma_percent_encode_chars(bytes.drop_first());
        let b = bytes[0];
        let e = escape_byte(b);
        assert(forall|i: int| 0 <= i < e.len() ==> is_encoded_char(#[trigger] e[i])) by {
            if is_unreserved(b) {
                assert(((b as char) as u32) == b as u32);
            } else {
                assert(b / 16 < 16 && b % 16 < 16);
                assert(forall|d: u8| d < 16 ==> is_encoded_char(#[trigger] hex_digit(d)));
            }
        }
        let rest = percent_encode_bytes(bytes.drop_first());
        assert forall|i: int| 0 <= i < (e + rest).len() implies is_encoded_char(
            #[trigger] (e + rest)[i],
        ) by {
            if i >= e.len() {
                assert((e + rest)[i] == rest[i - e.len()]);
            }
        }
    }
}

/// The percent-encoding of any string holds only characters that encoding emits;
/// in particular no `?`, `&`, `=` or space.
pub proof fn lemma_url_encoded_chars(s: Seq<char>)
    ensures
        forall|i: int|
            0 <= i < url_encoded(s).len() ==> is_encoded_char(#[trigger] url_encoded(s)[i]),
{
    lemma_percent_encode_chars(encode_utf8(s));
}

/// An unreserved ASCII character: one byte in UTF-8, which encoding keeps.
pub open spec fn is_plain_char(c: char) -> bool {
    (c as u32) < 128 && is_unreserved(c as u32 as u8) && (c as u32 as u8) as char == c
}

/// A string of unreserved ASCII characters only.
pub open spec fn is_plain(s: Seq<char>) -> bool {
    forall|i: int| 0 <= i < s.len() ==> is_plain_char(#[trigger] s[i])
}

/// Percent-encoding leaves a string of unreserved ASCII characters as it is.
pub proof fn lemma_plain_unchanged(s: Seq<char>)
    requires
        is_plain(s),
    ensures
        url_encoded(s) == s,
    decreases s.len(),
{
    if s.len() > 0 {
        let c = s[0];
        let v = c as u32;
        assert(v < 128);
        assert(v & 0x7f == v) by (bit_vector)
            requires
                v < 128,
        ;
        assert(encode_scalar(v) == seq![v as u8]);
        assert(is_plain_char(c));
        assert(is_plain(s.drop_first()));
        lemma_plain_unchanged(s.drop_first());
        assert(encode_utf8(s) == seq![v as u8] + encode_utf8(s.drop_first()));
        let bs = encode_utf8(s);
        assert(bs[0] == v as u8);
        assert(bs.drop_first() =~= encode_utf8(s.drop_first()));
        assert(seq![c] + s.drop_first() =~= s);
    }
}

/// Decimal digits are unreserved ASCII characters.
pub proof fn lemma_decimal_plain(n: nat)
    ensures
        is_plain(decimal(n)),
    decreases n,
{
    assert(forall|d: nat| d < 10 ==> is_plain_char(#[trigger] digit_char(d)));
    if n >= 10 {
        lemma_decimal_plain(n / 10);
        let p = decimal(n / 10);
        let c = digit_char(n % 10);
        assert forall|i: int| 0 <= i < p.push(c).len() implies is_plain_char(
            #[trigger] p.push(c)[i],
        ) by {
            if i < p.len() {
                assert(p.push(c)[i] == p[i]);
            }
        }
    }
}

/// Relies on urlencoding::encode: it percent-encodes every byte of the UTF-8 form
/// except ASCII alphanumerics and `-`, `_`, `.`, `~`, with upper-case hex digits.
#[verifier::external_body]
pub(crate) fn encode(s: &str) -> (r: String)
    ensures
        r@ == url_encoded(s@),
{
    urlencoding::encode(s).into_owned()
}

/// Decimal digit for a value below 10.
pub open spec fn digit_char(d: nat) -> char {
    seq!['0', '1', '2', '3', '4', '5', '6', '7', '8', '9'][d as int]
}

/// Decimal representation of a natural number, without leading zeros.
pub open spec fn decimal(n: nat) -> Seq<char>
    decreases n,
{
    if n < 10 {
        seq![digit_char(n)]
    } else {
        decimal(n / 10).push(digit_char(n % 10))
    }
}

/// The one-character string of a decimal digit.
fn digit_str(d: u32) -> (r: &'static str)
    requires
        d < 10,
    ensures
        r@ == seq![digit_char(d as nat)],
{
    let digits = "0123456789";
    proof {
        reveal_strlit("0123456789");
    }
    let r = digits.substring_char(d as usize, d as usize + 1);
    assert(r@ =~= seq![digit_char(d as nat)]);
    r
}

/// Renders a number in decimal.
pub(crate) fn decimal_string(n: u32) -> (r: String)
    ensures
        r@ == decimal(n as nat),
    decreases n,
{
    if n < 10 {
        digit_str(n).to_owned()
    } else {
        let mut s = decimal_string(n / 10);
        s.append(digit_str(n % 10));
        s
    }
}

} // verus!
