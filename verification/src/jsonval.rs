//! The JSON documents of the node's answers. The `json` crate reads them;
//! nothing in this module is proved. Each function here makes one call into
//! that crate, and each `spec fn` names what one of those calls returns.

use json::JsonValue;
use vstd::prelude::*;
use vstd::string::*;

verus! {

/// `json::JsonValue`: a JSON document or a part of one. Nothing is known
/// of what it holds but what the functions below say.
#[verifier::external_type_specification]
#[verifier::external_body]
pub struct ExJsonValue(json::JsonValue);

/// `json::Error`: why a text is no JSON. It is carried, never looked into.
#[verifier::external_type_specification]
#[verifier::external_body]
pub struct ExJsonError(json::Error);

/// The document that `json::parse` reads from a text, where it reads one.
pub uninterp spec fn parsed(text: Seq<char>) -> Option<JsonValue>;

/// What indexing a value by a key gives.
pub uninterp spec fn member_of(value: JsonValue, key: Seq<char>) -> JsonValue;

/// What indexing a value by a position gives.
pub uninterp spec fn item_of(value: JsonValue, index: usize) -> JsonValue;

/// What `members` walks through, in its order.
pub uninterp spec fn members_of(value: JsonValue) -> Seq<JsonValue>;

/// What `as_str` gives.
pub uninterp spec fn text_of(value: JsonValue) -> Option<Seq<char>>;

/// What `as_u64` gives.
pub uninterp spec fn u64_of(value: JsonValue) -> Option<u64>;

/// What `is_empty` gives.
pub uninterp spec fn is_empty_of(value: JsonValue) -> bool;

/// What `len` gives.
pub uninterp spec fn len_of(value: JsonValue) -> usize;

/// The most digits that may stand directly behind a point in a text that
/// is handed to the parser.
pub const MAX_FRACTION: usize = 32767;

/// The byte `.`.
pub const POINT: u8 = 0x2e;

/// How many digits the text ends in that stand directly behind a point;
/// nothing where the text does not end in a point or in such digits.
pub open spec fn fraction_tail(text: Seq<u8>) -> Option<nat>
    decreases text.len(),
{
    if text.len() == 0 {
        None
    } else if text.last() == POINT {
        Some(0)
    } else if 0x30 <= text.last() <= 0x39 {
        match fraction_tail(text.drop_last()) {
            Some(n) => Some(n + 1),
            None => None,
        }
    } else {
        None
    }
}

/// No point in the text is followed directly by more than `MAX_FRACTION`
/// digits.
pub open spec fn fractions_short(text: Seq<u8>) -> bool {
    forall|n: int|
        0 <= n <= text.len() ==> match #[trigger] fraction_tail(text.take(n)) {
            Some(digits) => digits <= MAX_FRACTION,
            None => true,
        }
}

/// Whether no point in the text is followed directly by more than
/// `MAX_FRACTION` digits. The parser counts the digits of a fraction in
/// sixteen bits, so a text is only handed to it where this holds.
pub fn fractions_are_short(text: &[u8]) -> (short: bool)
    ensures
        short == fractions_short(text@),
{
    let mut tail: Option<usize> = None;
    let mut i: usize = 0;
    assert(text@.take(0) =~= Seq::<u8>::empty());
    while i < text.len()
        invariant
            i <= text.len(),
            match tail {
                Some(digits) => fraction_tail(text@.take(i as int)) == Some(digits as nat)
                    && digits <= MAX_FRACTION,
                None => fraction_tail(text@.take(i as int)) is None,
            },
            forall|n: int|
                0 <= n <= i ==> match #[trigger] fraction_tail(text@.take(n)) {
                    Some(digits) => digits <= MAX_FRACTION,
                    None => true,
                },
        decreases text.len() - i,
    {
        assert(text@.take(i + 1).drop_last() =~= text@.take(i as int));
        assert(text@.take(i + 1).last() == text@[i as int]);
        let b = text[i];
        if b == POINT {
            tail = Some(0);
        } else if 0x30 <= b && b <= 0x39 {
            tail = match tail {
                Some(digits) => {
                    if digits == MAX_FRACTION {
                        assert(fraction_tail(text@.take(i + 1)) == Some((MAX_FRACTION + 1) as nat));
                        return false;
                    }
                    Some(digits + 1)
                },
                None => None,
            };
        } else {
            tail = None;
        }
        i += 1;
    }
    assert(text@.take(text.len() as int) =~= text@);
    true
}

/// `json::parse`: the document in `text`, or the crate's error where `text`
/// is not JSON. The same text always gives the same outcome.
///
/// The parser lowers a sixteen-bit exponent by one for each digit of a
/// fraction that it takes in, without a check, so a text with a longer
/// fraction than `MAX_FRACTION` digits is kept from it.
#[verifier::external_body]
pub(crate) fn parse(text: &str) -> (doc: Result<JsonValue, json::Error>)
    requires
        fractions_short(text.spec_bytes()),
    ensures
        doc.is_ok() == parsed(text@).is_some(),
        doc matches Ok(v) ==> parsed(text@) == Some(v),
{
    json::parse(text)
}

/// `JsonValue`'s `Index<&str>`: the member of an object under `key`; the
/// crate's `null` for a missing key and for a value that is no object.
#[verifier::external_body]
pub(crate) fn member<'a>(value: &'a JsonValue, key: &str) -> (found: &'a JsonValue)
    ensures
        *found == member_of(*value, key@),
{
    &value[key]
}

/// `JsonValue`'s `Index<usize>`: the item of an array at `index`; the
/// crate's `null` past its end and for a value that is no array.
#[verifier::external_body]
pub(crate) fn item(value: &JsonValue, index: usize) -> (found: &JsonValue)
    ensures
        *found == item_of(*value, index),
{
    &value[index]
}

/// `JsonValue::members`: the items of an array in order; none for a value
/// that is no array.
#[verifier::external_body]
pub(crate) fn members(value: &JsonValue) -> (items: Vec<&JsonValue>)
    ensures
        items@.len() == members_of(*value).len(),
        forall|i: int| 0 <= i < items@.len() ==> *(#[trigger] items@[i]) == members_of(*value)[i],
{
    value.members().collect()
}

/// `JsonValue::as_str`: the text of a string value, nothing for any other.
#[verifier::external_body]
pub(crate) fn as_str(value: &JsonValue) -> (text: Option<&str>)
    ensures
        text.is_some() == text_of(*value).is_some(),
        text matches Some(s) ==> text_of(*value) == Some(s@),
{
    value.as_str()
}

/// `JsonValue::as_u64`: the value of a number that is not negative and is
/// held without an exponent, nothing for any other value.
#[verifier::external_body]
pub(crate) fn as_u64(value: &JsonValue) -> (number: Option<u64>)
    ensures
        number == u64_of(*value),
{
    value.as_u64()
}

/// `JsonValue::is_empty`: whether the value is `null`, `false`, zero, or
/// a string, array or object that holds nothing.
#[verifier::external_body]
pub(crate) fn is_empty(value: &JsonValue) -> (empty: bool)
    ensures
        empty == is_empty_of(*value),
{
    value.is_empty()
}

/// `JsonValue::len`: the number of items of an array or of keys of an
/// object, zero for any other value.
#[verifier::external_body]
pub(crate) fn len(value: &JsonValue) -> (count: usize)
    ensures
        count == len_of(*value),
{
    value.len()
}

} // verus!
