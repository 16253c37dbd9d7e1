//! Identifiers, which the server sends now as strings, now as numbers.

use crate::error::Error;
use crate::text::{decimal, digit_text, push_decimal_u64};
use vstd::prelude::*;
use vstd::string::*;

verus! {

/// Whether the character is one of the ten decimal digits.
pub open spec fn is_digit(c: char) -> bool {
    '0' <= c <= '9'
}

/// The number that a run of decimal digits denotes.
pub open spec fn digits_value(s: Seq<char>) -> nat
    decreases s.len(),
{
    if s.len() == 0 {
        0
    } else {
        digits_value(s.drop_last()) * 10 + (s.last() as nat - '0' as nat) as nat
    }
}

/// Whether the text is a run of at least one decimal digit.
pub open spec fn is_number(s: Seq<char>) -> bool {
    s.len() > 0 && forall|i: int| 0 <= i < s.len() ==> is_digit(#[trigger] s[i])
}

/// The text without a sign in front.
pub open spec fn unsigned_part(s: Seq<char>) -> Seq<char> {
    if s.len() > 0 && (s[0] == '-' || s[0] == '+') {
        s.skip(1)
    } else {
        s
    }
}

/// The integer that a text denotes: an optional sign and at least one decimal
/// digit, within the range of `i64`.
pub open spec fn parsed_id(s: Seq<char>) -> Option<i64> {
    let body = unsigned_part(s);
    let value = if s.len() > 0 && s[0] == '-' {
        -(digits_value(body) as int)
    } else {
        digits_value(body) as int
    };
    if is_number(body) && i64::MIN <= value <= i64::MAX {
        Some(value as i64)
    } else {
        None
    }
}

/// An integer as text: a minus sign for a negative one, then the digits.
pub open spec fn id_text(id: i64) -> Seq<char> {
    if id < 0 {
        "-"@ + decimal((-id) as nat)
    } else {
        decimal(id as nat)
    }
}

/// A run of digits that has grown past a bound never falls below it again.
pub proof fn lemma_digits_value_grows(s: Seq<char>, n: int)
    requires
        0 <= n <= s.len(),
        forall|i: int| 0 <= i < s.len() ==> is_digit(#[trigger] s[i]),
    ensures
        digits_value(s.take(n)) <= digits_value(s),
    decreases s.len() - n,
{
    if n < s.len() {
        lemma_digits_value_grows(s, n + 1);
        assert(s.take(n + 1).drop_last() =~= s.take(n));
        assert(is_digit(s[n]));
    } else {
        assert(s.take(n) =~= s);
    }
}

/// Reads an identifier that came as text.
pub fn parse_id(text: &str) -> (id: Option<i64>)
    ensures
        id == parsed_id(text@),
{
    let len = text.unicode_len();
    if len == 0 {
        return None;
    }
    let first = text.get_char(0);
    let negative = first == '-';
    let start: usize = if first == '-' || first == '+' {
        1
    } else {
        0
    };
    let ghost body = unsigned_part(text@);
    assert(body =~= text@.skip(start as int));
    if start == len {
        return None;
    }
    let limit: u64 = 9223372036854775808;
    let mut acc: u64 = 0;
    let mut i: usize = start;
    while i < len
        invariant
            start <= i <= len,
            len == text@.len(),
            body == text@.skip(start as int),
            body == unsigned_part(text@),
            limit == 9223372036854775808,
            forall|k: int| 0 <= k < i - start ==> is_digit(#[trigger] body[k]),
            acc == digits_value(body.take(i - start)),
            acc <= limit,
        decreases len - i,
    {
        let c = text.get_char(i);
        assert(c == body[i - start]);
        if !(c >= '0' && c <= '9') {
            assert(!is_digit(body[i - start]));
            return None;
        }
        let digit: u64 = (c as u32 - '0' as u32) as u64;
        proof {
            assert(body.take(i - start + 1).drop_last() =~= body.take(i - start));
            assert(digits_value(body.take(i - start + 1)) == acc * 10 + digit);
        }
        let next: u128 = acc as u128 * 10 + digit as u128;
        if next > limit as u128 {
            proof {
                if is_number(body) {
                    lemma_digits_value_grows(body, i - start + 1);
                }
            }
            return None;
        }
        acc = next as u64;
        i += 1;
    }
    assert(body.take(len - start) =~= body);
    if negative {
        if acc == limit {
            Some(i64::MIN)
        } else {
            Some(-(acc as i64))
        }
    } else if acc == limit {
        None
    } else {
        Some(acc as i64)
    }
}

/// Writes an identifier as text.
pub fn serialize_id(id: &i64) -> (text: String)
    ensures
        text@ == id_text(*id),
{
    let mut text = String::new();
    if *id < 0 {
        text.append("-");
        let magnitude: u64 = if *id == i64::MIN {
            9223372036854775808
        } else {
            (-*id) as u64
        };
        push_decimal_u64(&mut text, magnitude);
        assert(text@ =~= "-"@ + decimal((-*id) as nat));
    } else {
        push_decimal_u64(&mut text, *id as u64);
        assert(text@ =~= decimal(*id as nat));
    }
    text
}

/// The text of a digit is that digit's one character.
pub proof fn lemma_digit_text(d: nat)
    requires
        d < 10,
    ensures
        digit_text(d).len() == 1,
        is_digit(digit_text(d)[0]),
        digit_text(d)[0] as nat - '0' as nat == d,
{
    reveal_strlit("0");
    reveal_strlit("1");
    reveal_strlit("2");
    reveal_strlit("3");
    reveal_strlit("4");
    reveal_strlit("5");
    reveal_strlit("6");
    reveal_strlit("7");
    reveal_strlit("8");
    reveal_strlit("9");
}

/// The decimal notation of a number is a run of digits that denotes the number.
pub proof fn lemma_decimal_denotes(n: nat)
    ensures
        is_number(decimal(n)),
        digits_value(decimal(n)) == n,
    decreases n,
{
    lemma_digit_text(n % 10);
    if n < 10 {
        let s = decimal(n);
        assert(s.drop_last() =~= Seq::<char>::empty());
        assert(digits_value(s.drop_last()) == 0);
    } else {
        lemma_decimal_denotes(n / 10);
        let front = decimal(n / 10);
        let s = decimal(n);
        assert(s == front + digit_text(n % 10));
        assert(s.drop_last() =~= front);
        assert(s.last() == digit_text(n % 10)[0]);
        assert forall|i: int| 0 <= i < s.len() implies is_digit(#[trigger] s[i]) by {
            if i < front.len() {
                assert(s[i] == front[i]);
            }
        }
    }
}

/// Reading the text of an identifier gives the identifier back.
pub proof fn lemma_id_text_round_trip(id: i64)
    ensures
        parsed_id(id_text(id)) == Some(id),
{
    if id < 0 {
        let digits = decimal((-id) as nat);
        lemma_decimal_denotes((-id) as nat);
        reveal_strlit("-");
        let text = id_text(id);
        assert(text[0] == '-');
        assert(text.skip(1) =~= digits);
    } else {
        let digits = decimal(id as nat);
        lemma_decimal_denotes(id as nat);
        assert(is_digit(digits[0]));
    }
}

/// What a JSON value is, as far as an identifier is concerned.
pub enum JsonShape {
    /// A string with these characters.
    Text(Seq<char>),
    /// A number that is an integer within the range of `i64`.
    Integer(i64),
    /// Any other number.
    OtherNumber,
    /// Anything but a string or a number.
    Other,
}

/// What a JSON value is.
pub uninterp spec fn json_shape(value: serde_json::Value) -> JsonShape;

/// The text that `Debug` prints for a JSON value.
pub uninterp spec fn json_debug(value: serde_json::Value) -> Seq<char>;

/// `Value::as_str`: the characters of a JSON string, `None` for any other value.
#[verifier::external_body]
fn json_text(value: &serde_json::Value) -> (text: Option<String>)
    ensures
        match text {
            Some(t) => json_shape(*value) == JsonShape::Text(t@),
            None => !(json_shape(*value) is Text),
        },
{
    value.as_str().map(str::to_owned)
}

/// `Value::as_i64`: the integer of a JSON number that is one within the range
/// of `i64`, `None` for any other value.
#[verifier::external_body]
fn json_integer(value: &serde_json::Value) -> (integer: Option<i64>)
    ensures
        match integer {
            Some(n) => json_shape(*value) == JsonShape::Integer(n),
            None => !(json_shape(*value) is Integer),
        },
{
    value.as_i64()
}

/// `Value::is_number`: whether the JSON value is a number.
#[verifier::external_body]
fn json_is_number(value: &serde_json::Value) -> (number: bool)
    ensures
        number == (json_shape(*value) is Integer || json_shape(*value) is OtherNumber),
{
    value.is_number()
}

/// The `Debug` text of a JSON value.
#[verifier::external_body]
fn json_debug_text(value: &serde_json::Value) -> (text: String)
    ensures
        text@ == json_debug(*value),
{
    format!("{:?}", value)
}

/// The identifier that a JSON value holds, or the message that says why it holds none.
pub open spec fn id_of_shape(shape: JsonShape, debug: Seq<char>) -> Result<i64, Seq<char>> {
    match shape {
        JsonShape::Text(text) => match parsed_id(text) {
            Some(id) => Ok(id),
            None => Err("Expected i64, got "@ + debug),
        },
        JsonShape::Integer(id) => Ok(id),
        JsonShape::OtherNumber => Err("Expected i64, got "@ + debug),
        JsonShape::Other => Err("Expected string or number, got "@ + debug),
    }
}

/// Reads an identifier from JSON. The server sends identifiers now as strings,
/// now as numbers; both give the same integer.
pub fn deserialize_id(value: &serde_json::Value) -> (id: Result<i64, Error>)
    ensures
        match id_of_shape(json_shape(*value), json_debug(*value)) {
            Ok(n) => id == Ok::<i64, Error>(n),
            Err(why) => id matches Err(Error::Jirascope { message }) && message@ == why,
        },
{
    if let Some(text) = json_text(value) {
        match parse_id(text.as_str()) {
            Some(id) => Ok(id),
            None => Err(unexpected("Expected i64, got ", value)),
        }
    } else if let Some(id) = json_integer(value) {
        Ok(id)
    } else if json_is_number(value) {
        Err(unexpected("Expected i64, got ", value))
    } else {
        Err(unexpected("Expected string or number, got ", value))
    }
}

fn unexpected(what: &str, value: &serde_json::Value) -> (e: Error)
    ensures
        e matches Error::Jirascope { message } && message@ == what@ + json_debug(*value),
{
    let mut message = what.to_owned();
    let shown = json_debug_text(value);
    message.append(shown.as_str());
    Error::Jirascope { message }
}

} // verus!
