//! Text helpers: byte-wise comparison, UTF-8, and numbers as text in the
//! bases that the node and the count files use.

use vstd::prelude::*;
use vstd::slice::slice_subrange;
use vstd::string::*;
use vstd::utf8::{encode_utf8, valid_utf8};

verus! {

/// Two strings hold the same characters exactly when their UTF-8 encodings agree.
pub proof fn lemma_same_bytes_same_chars(a: Seq<char>, b: Seq<char>)
    ensures
        (encode_utf8(a) == encode_utf8(b)) <==> (a == b),
{
    vstd::utf8::encode_utf8_decode_utf8(a);
    vstd::utf8::encode_utf8_decode_utf8(b);
}

/// Whether two byte slices hold the same bytes.
pub fn bytes_eq(a: &[u8], b: &[u8]) -> (same: bool)
    ensures
        same == (a@ == b@),
{
    if a.len() != b.len() {
        return false;
    }
    let mut i: usize = 0;
    while i < a.len()
        invariant
            i <= a.len(),
            a.len() == b.len(),
            forall|j: int| 0 <= j < i ==> a@[j] == b@[j],
        decreases a.len() - i,
    {
        if a[i] != b[i] {
            return false;
        }
        i += 1;
    }
    assert(a@ =~= b@);
    true
}

/// Whether two strings hold the same text.
pub fn str_eq(a: &str, b: &str) -> (same: bool)
    ensures
        same == (a@ == b@),
{
    proof {
        lemma_same_bytes_same_chars(a@, b@);
    }
    bytes_eq(a.as_bytes(), b.as_bytes())
}

/// Append `tail` to `out`.
pub fn push_bytes(out: &mut Vec<u8>, tail: &[u8])
    ensures
        final(out)@ == old(out)@ + tail@,
{
    let mut i: usize = 0;
    while i < tail.len()
        invariant
            i <= tail.len(),
            out@ == old(out)@ + tail@.take(i as int),
        decreases tail.len() - i,
    {
        out.push(tail[i]);
        assert(out@ =~= old(out)@ + tail@.take(i + 1));
        i += 1;
    }
    assert(tail@.take(tail.len() as int) =~= tail@);
}

/// The bytes of a text.
pub open spec fn lit(text: &str) -> Seq<u8> {
    text.spec_bytes()
}

/// Every byte is below `0x80`.
pub open spec fn is_ascii_bytes(bytes: Seq<u8>) -> bool {
    forall|i: int| 0 <= i < bytes.len() ==> #[trigger] bytes[i] < 0x80
}

/// Bytes below `0x80` are UTF-8 as they stand.
pub proof fn lemma_ascii_is_utf8(bytes: Seq<u8>)
    requires
        is_ascii_bytes(bytes),
    ensures
        valid_utf8(bytes),
{
    assert(bytes.subrange(0, 0) =~= Seq::<u8>::empty());
    assert(vstd::utf8::partial_valid_utf8(bytes, 0));
    assert forall|i: int| 0 <= i < bytes.len() implies #[trigger] vstd::utf8::is_leading_byte_width_1(
        bytes[i],
    ) by {
        assert(bytes[i] < 0x80);
    }
    vstd::utf8::partial_valid_utf8_extend_ascii_block(bytes, 0, bytes.len() as int);
    assert(bytes.subrange(0, bytes.len() as int) =~= bytes);
}

/// `std::str::from_utf8`: the bytes as a string where they are UTF-8, and
/// nothing where they are not.
#[verifier::external_body]
pub(crate) fn utf8_str(bytes: &[u8]) -> (text: Option<&str>)
    ensures
        text.is_some() == valid_utf8(bytes@),
        text matches Some(s) ==> s.spec_bytes() == bytes@,
{
    std::str::from_utf8(bytes).ok()
}

/// The string that ASCII bytes spell.
pub fn ascii_string(bytes: &[u8]) -> (text: String)
    requires
        is_ascii_bytes(bytes@),
    ensures
        text@ == vstd::utf8::decode_utf8(bytes@),
        encode_utf8(text@) == bytes@,
{
    proof {
        lemma_ascii_is_utf8(bytes@);
        vstd::utf8::decode_utf8_encode_utf8(bytes@);
    }
    match utf8_str(bytes) {
        Some(s) => {
            proof {
                vstd::utf8::encode_utf8_decode_utf8(s@);
            }
            s.to_owned()
        },
        None => String::new(),
    }
}

/// The value of a digit in a base of up to 36: `0`-`9`, then the letters in
/// either case.
pub open spec fn digit_of(b: u8, radix: nat) -> Option<nat> {
    let v: int = if 0x30 <= b <= 0x39 {
        b - 0x30
    } else if 0x61 <= b <= 0x7a {
        b - 0x61 + 10
    } else if 0x41 <= b <= 0x5a {
        b - 0x41 + 10
    } else {
        36
    };
    if v < radix {
        Some(v as nat)
    } else {
        None
    }
}

/// Every byte is a digit of the base.
pub open spec fn all_digits(digits: Seq<u8>, radix: nat) -> bool {
    forall|i: int| 0 <= i < digits.len() ==> (#[trigger] digit_of(digits[i], radix)) is Some
}

/// The number that a run of digits denotes, most significant first.
pub open spec fn digits_value(digits: Seq<u8>, radix: nat) -> nat
    decreases digits.len(),
{
    if digits.len() == 0 {
        0
    } else {
        radix * digits_value(digits.drop_last(), radix) + digit_of(
            digits.last(),
            radix,
        ).unwrap_or(0)
    }
}

/// A number as text: an optional `+`, then one or more digits of the base,
/// the whole no larger than `u64::MAX`.
pub open spec fn parse_radix(text: Seq<u8>, radix: nat) -> Option<u64> {
    let digits = if text.len() > 0 && text[0] == 0x2b {
        text.skip(1)
    } else {
        text
    };
    if digits.len() > 0 && all_digits(digits, radix) && digits_value(digits, radix) <= u64::MAX {
        Some(digits_value(digits, radix) as u64)
    } else {
        None
    }
}

/// The quantity behind a two-byte prefix such as `0x`. The prefix itself is
/// skipped, not inspected.
pub open spec fn prefixed_hex(text: Seq<u8>) -> Option<u64> {
    if text.len() > 2 {
        parse_radix(text.skip(2), 16)
    } else {
        None
    }
}

/// Leading digits never denote more than the whole run does.
pub proof fn lemma_digits_value_prefix(digits: Seq<u8>, radix: nat, n: int)
    requires
        0 <= n <= digits.len(),
        radix >= 1,
    ensures
        digits_value(digits.take(n), radix) <= digits_value(digits, radix),
    decreases digits.len() - n,
{
    if n == digits.len() {
        assert(digits.take(n) =~= digits);
    } else {
        lemma_digits_value_prefix(digits, radix, n + 1);
        assert(digits.take(n + 1).drop_last() =~= digits.take(n));
        let x = digits_value(digits.take(n), radix);
        assert(radix * x >= x) by (nonlinear_arith)
            requires
                radix >= 1,
                x >= 0,
        ;
    }
}

fn digit_value(b: u8, radix: u8) -> (d: Option<u8>)
    requires
        radix <= 36,
    ensures
        d matches Some(v) ==> digit_of(b, radix as nat) == Some(v as nat) && v < radix,
        d is None ==> digit_of(b, radix as nat) is None,
{
    let v: u8 = if 0x30 <= b && b <= 0x39 {
        b - 0x30
    } else if 0x61 <= b && b <= 0x7a {
        b - 0x61 + 10
    } else if 0x41 <= b && b <= 0x5a {
        b - 0x41 + 10
    } else {
        36
    };
    if v < radix {
        Some(v)
    } else {
        None
    }
}

/// Read a number in the given base: an optional `+`, then digits only.
/// `None` for anything else, and for a number beyond `u64::MAX`.
pub fn parse_u64(text: &[u8], radix: u8) -> (value: Option<u64>)
    requires
        2 <= radix <= 36,
    ensures
        value == parse_radix(text@, radix as nat),
{
    let start: usize = if text.len() > 0 && text[0] == 0x2b {
        1
    } else {
        0
    };
    let ghost digits = text@.skip(start as int);
    assert(digits =~= if text@.len() > 0 && text@[0] == 0x2b {
        text@.skip(1)
    } else {
        text@
    });
    if start == text.len() {
        return None;
    }
    let mut acc: u64 = 0;
    let mut i: usize = start;
    while i < text.len()
        invariant
            2 <= radix <= 36,
            start <= i <= text.len(),
            digits == text@.skip(start as int),
            parse_radix(text@, radix as nat) == (if all_digits(digits, radix as nat)
                && digits_value(digits, radix as nat) <= u64::MAX {
                Some(digits_value(digits, radix as nat) as u64)
            } else {
                None
            }),
            all_digits(digits.take(i - start), radix as nat),
            acc == digits_value(digits.take(i - start), radix as nat),
        decreases text.len() - i,
    {
        let ghost seen = digits.take(i - start);
        let ghost next = digits.take(i - start + 1);
        assert(next.drop_last() =~= seen);
        assert(next.last() == text@[i as int]);
        match digit_value(text[i], radix) {
            None => {
                assert(!all_digits(digits, radix as nat)) by {
                    assert(digit_of(digits[i - start], radix as nat) is None);
                }
                return None;
            },
            Some(d) => {
                assert(digits_value(next, radix as nat) == acc * radix + d) by {
                    assert(radix * acc == acc * radix) by (nonlinear_arith);
                }
                proof {
                    lemma_digits_value_prefix(digits, radix as nat, i - start + 1);
                }
                let shifted = match acc.checked_mul(radix as u64) {
                    Some(m) => m,
                    None => {
                        return None;
                    },
                };
                acc = match shifted.checked_add(d as u64) {
                    Some(a) => a,
                    None => {
                        return None;
                    },
                };
                assert(all_digits(next, radix as nat)) by {
                    assert forall|j: int| 0 <= j < next.len() implies (#[trigger] digit_of(
                        next[j],
                        radix as nat,
                    )) is Some by {
                        if j < seen.len() {
                            assert(next[j] == seen[j]);
                        }
                    }
                }
            },
        }
        i += 1;
    }
    assert(digits.take(i - start) =~= digits);
    Some(acc)
}

/// Convert a `0x` prefixed hex string to u64.
///
/// `hex_to_u64("0xff")` is `Some(255)`. Text of two bytes or fewer, text with
/// anything but digits behind the prefix (one leading `+` aside), and numbers
/// beyond `u64::MAX` give `None`.
pub fn hex_to_u64(s: &str) -> (value: Option<u64>)
    ensures
        value == prefixed_hex(s.spec_bytes()),
{
    let bytes = s.as_bytes();
    if bytes.len() > 2 {
        let digits = slice_subrange(bytes, 2, bytes.len());
        assert(digits@ =~= bytes@.skip(2));
        parse_u64(digits, 16)
    } else {
        None
    }
}

/// The byte that writes a digit: `0`-`9`, then lower-case letters.
pub open spec fn digit_byte(v: nat) -> u8 {
    if v < 10 {
        (0x30 + v) as u8
    } else {
        (0x61 + v - 10) as u8
    }
}

/// A number written in a base, most significant digit first, without
/// leading zeros.
pub open spec fn render(n: nat, radix: nat) -> Seq<u8>
    decreases n,
    when radix >= 2
    via render_decreases
{
    if n < radix {
        seq![digit_byte(n)]
    } else {
        render(n / radix, radix).push(digit_byte(n % radix))
    }
}

#[via_fn]
proof fn render_decreases(n: nat, radix: nat) {
    if n >= radix {
        assert(n / radix < n) by (nonlinear_arith)
            requires
                radix >= 2,
                n >= radix,
        ;
    }
}

/// A number written in decimal.
pub open spec fn decimal(n: nat) -> Seq<u8> {
    render(n, 10)
}

/// A number written as the node writes quantities: `0x`, then lower-case
/// hexadecimal digits.
pub open spec fn hex_quantity(n: nat) -> Seq<u8> {
    seq![0x30u8, 0x78u8] + render(n, 16)
}

/// What `render` writes reads back as the same number, and holds digits only.
pub proof fn lemma_render_reads_back(n: nat, radix: nat)
    requires
        2 <= radix <= 36,
    ensures
        render(n, radix).len() > 0,
        all_digits(render(n, radix), radix),
        digits_value(render(n, radix), radix) == n,
        n <= u64::MAX ==> parse_radix(render(n, radix), radix) == Some(n as u64),
    decreases n,
{
    let text = render(n, radix);
    if n < radix {
        assert(text.drop_last() =~= Seq::<u8>::empty());
        assert(digits_value(text.drop_last(), radix) == 0);
        assert(radix * 0 == 0);
        assert(digit_of(digit_byte(n), radix) == Some(n));
    } else {
        let q = n / radix;
        let r = n % radix;
        assert(q < n && n == radix * q + r && r < radix) by (nonlinear_arith)
            requires
                radix >= 2,
                n >= radix,
                q == n / radix,
                r == n % radix,
        ;
        lemma_render_reads_back(q, radix);
        assert(text.drop_last() =~= render(q, radix));
        assert(digit_of(digit_byte(r), radix) == Some(r));
        assert forall|i: int| 0 <= i < text.len() implies (#[trigger] digit_of(
            text[i],
            radix,
        )) is Some by {
            if i < text.len() - 1 {
                assert(text[i] == render(q, radix)[i]);
            }
        }
    }
    assert(digit_of(text[0], radix) is Some);
    assert(text[0] != 0x2b);
}

/// A number written by `render` holds digits and lower-case letters only:
/// no sign, separator or line end.
pub proof fn lemma_render_plain(n: nat, radix: nat)
    requires
        2 <= radix <= 36,
    ensures
        forall|i: int|
            0 <= i < render(n, radix).len() ==> {
                let b = #[trigger] render(n, radix)[i];
                0x30 <= b <= 0x39 || 0x61 <= b <= 0x7a
            },
    decreases n,
{
    if n >= radix {
        let q = n / radix;
        let r = n % radix;
        assert(q < n && r < radix) by (nonlinear_arith)
            requires
                radix >= 2,
                n >= radix,
                q == n / radix,
                r == n % radix,
        ;
        lemma_render_plain(q, radix);
        assert forall|i: int| 0 <= i < render(n, radix).len() implies {
            let b = #[trigger] render(n, radix)[i];
            0x30 <= b <= 0x39 || 0x61 <= b <= 0x7a
        } by {
            if i < render(q, radix).len() {
                assert(render(n, radix)[i] == render(q, radix)[i]);
            }
        }
    } else {
        assert(render(n, radix) =~= seq![digit_byte(n)]);
    }
}

/// What the node's notation for a number reads back as.
pub proof fn lemma_hex_quantity_reads_back(n: u64)
    ensures
        prefixed_hex(hex_quantity(n as nat)) == Some(n),
{
    lemma_render_reads_back(n as nat, 16);
    assert(hex_quantity(n as nat).skip(2) =~= render(n as nat, 16));
}

/// Write a number in the given base, lower case, no leading zeros.
pub fn render_u64(n: u64, radix: u8) -> (text: Vec<u8>)
    requires
        2 <= radix <= 36,
    ensures
        text@ == render(n as nat, radix as nat),
{
    let mut text: Vec<u8> = Vec::new();
    let mut rest: u64 = n;
    while rest >= radix as u64
        invariant
            2 <= radix <= 36,
            render(n as nat, radix as nat) == render(rest as nat, radix as nat) + text@,
        decreases rest,
    {
        let d = (rest % (radix as u64)) as u8;
        let ghost before = text@;
        text.insert(0, digit_for(d));
        assert(render(rest as nat, radix as nat) + before =~= render(
            (rest / (radix as u64)) as nat,
            radix as nat,
        ) + text@);
        rest = rest / (radix as u64);
    }
    let ghost before = text@;
    text.insert(0, digit_for(rest as u8));
    assert(render(rest as nat, radix as nat) + before =~= text@);
    text
}

fn digit_for(v: u8) -> (b: u8)
    requires
        v < 36,
    ensures
        b == digit_byte(v as nat),
{
    if v < 10 {
        0x30 + v
    } else {
        0x61 + (v - 10)
    }
}

/// Write a number as the node writes quantities: `to_hex(255)` is `0xff`.
pub fn to_hex(n: u64) -> (text: Vec<u8>)
    ensures
        text@ == hex_quantity(n as nat),
{
    let mut text: Vec<u8> = Vec::new();
    text.push(0x30);
    text.push(0x78);
    let digits = render_u64(n, 16);
    push_bytes(&mut text, digits.as_slice());
    assert(text@ =~= hex_quantity(n as nat));
    text
}

/// A number in decimal, as text.
pub open spec fn decimal_text(n: u64) -> Seq<char> {
    vstd::utf8::decode_utf8(decimal(n as nat))
}

/// A number in decimal, as text.
pub fn decimal_string(n: u64) -> (text: String)
    ensures
        text@ == decimal_text(n),
{
    let digits = render_u64(n, 10);
    proof {
        lemma_render_plain(n as nat, 10);
        assert forall|i: int| 0 <= i < digits@.len() implies #[trigger] digits@[i] < 0x80 by {
            let b = render(n as nat, 10)[i];
            assert(0x30 <= b <= 0x39 || 0x61 <= b <= 0x7a);
        }
    }
    ascii_string(digits.as_slice())
}

} // verus!
