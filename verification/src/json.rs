//! JSON values, as they stand in the database.
use serde::Deserialize;
use serde_json::Value;
use vstd::prelude::*;
use vstd::string::StringExecFns;

use crate::error::{seen, StoreError, StoreErrorView};
use crate::nesting::{is_within_limit, nesting, NESTING_LIMIT};
use crate::text::join;

verus! {

/// A JSON value. It is carried from a caller to the database and back, and never looked into.
#[verifier::external_type_specification]
#[verifier::external_body]
pub struct ExValue(serde_json::Value);

/// `Value::clone` copies a value with everything in it.
pub assume_specification[ <serde_json::Value as std::clone::Clone>::clone ](
    value: &serde_json::Value,
) -> (copy: serde_json::Value)
    ensures
        copy == *value,
;

/// What a JSON value holds, as the characters of its compact JSON text: the text that
/// `serde_json::to_string` writes of it.
pub uninterp spec fn json_text(value: serde_json::Value) -> Seq<char>;

/// What `serde_json::Deserializer` makes of a text without its limit on nesting, or the words of
/// its error.
pub uninterp spec fn json_parsed(text: Seq<char>) -> Result<serde_json::Value, Seq<char>>;

/// What `serde_json::from_str` makes of a text, with its limit on nesting, or the words of its
/// error.
pub uninterp spec fn json_guarded(text: Seq<char>) -> Result<serde_json::Value, Seq<char>>;

/// Whether a text is read as the given value.
pub open spec fn json_reads_as(text: Seq<char>, value: Value) -> bool {
    json_parsed(text) == Ok::<Value, Seq<char>>(value)
}

/// What is made of a text. Past [`NESTING_LIMIT`] the limit of `serde_json` is on.
pub open spec fn json_outcome(text: Seq<char>) -> Result<Value, Seq<char>> {
    if nesting(text) <= NESTING_LIMIT {
        json_parsed(text)
    } else {
        json_guarded(text)
    }
}

/// Whether a value is nested no deeper than the limit.
pub open spec fn json_fits(value: Value) -> bool {
    nesting(json_text(value)) <= NESTING_LIMIT
}

/// Whether a value is read back from its own text.
pub open spec fn json_survives(value: Value) -> bool {
    json_outcome(json_text(value)) == Ok::<Value, Seq<char>>(value)
}

/// `serde_json::to_string` writes the text of a value. It can fail only on maps with keys that
/// are no strings and on types that refuse to be written, and a [`Value`] is neither.
///
/// A text within the limit is read back as the value. Integers are read as integers, and a
/// floating-point number is written with the digits that tell it from its neighbours, with a point
/// or an exponent, and read as the number nearest to them (feature `float_roundtrip`). No object
/// stands for something else, as some do where the features `raw_value` or `arbitrary_precision`
/// are on, which they are not.
#[verifier::external_body]
fn print_json(value: &Value) -> (printed: Result<String, String>)
    ensures
        printed is Ok,
        printed->Ok_0@ == json_text(*value),
        nesting(printed->Ok_0@) <= NESTING_LIMIT ==> json_reads_as(printed->Ok_0@, *value),
{
    serde_json::to_string(value).map_err(|error| error.to_string())
}

/// `Deserializer::from_str` reads a value of a text, and `end` finds that nothing follows it. What
/// comes of a text is a function of the text.
///
/// With `disable_recursion_limit` it goes into every bracket that is open, without regard for the
/// stack. That is why the text is to be nested no deeper than the limit.
#[verifier::external_body]
fn parse_json(text: &str) -> (parsed: Result<Value, String>)
    requires
        nesting(text@) <= NESTING_LIMIT,
    ensures
        match parsed {
            Ok(value) => json_parsed(text@) == Ok::<Value, Seq<char>>(value),
            Err(message) => json_parsed(text@) == Err::<Value, Seq<char>>(message@),
        },
{
    let mut reader = serde_json::Deserializer::from_str(text);
    reader.disable_recursion_limit();
    let value = Value::deserialize(&mut reader).map_err(|error| error.to_string())?;
    reader.end().map_err(|error| error.to_string())?;
    Ok(value)
}

/// `serde_json::from_str` reads a value of a text. What comes of a text is a function of the text.
///
/// It goes into 127 brackets and gives an error at the next one that is open, or an earlier error,
/// so that nothing is read of a text that is nested deeper.
#[verifier::external_body]
fn parse_json_guarded(text: &str) -> (parsed: Result<Value, String>)
    ensures
        match parsed {
            Ok(value) => json_guarded(text@) == Ok::<Value, Seq<char>>(value),
            Err(message) => json_guarded(text@) == Err::<Value, Seq<char>>(message@),
        },
        nesting(text@) > 127 ==> parsed is Err,
{
    serde_json::from_str(text).map_err(|error| error.to_string())
}

/// `Value::Object` of an empty `serde_json::Map` is the object without members. It is written
/// as `{}`, and `{}` is read as it.
#[verifier::external_body]
pub(crate) fn empty_object() -> (value: Value)
    ensures
        json_text(value) == "{}"@,
        json_reads_as("{}"@, value),
{
    Value::Object(serde_json::Map::new())
}

/// What [`encoded_json`] returns.
pub open spec fn json_written(failure: Seq<char>, printed: Result<Seq<char>, Seq<char>>) -> Result<
    Seq<char>,
    StoreErrorView,
> {
    match printed {
        Ok(text) => Ok(text),
        Err(error) => Err(StoreErrorView::InvalidInput(failure + error)),
    }
}

/// The text that was written of a JSON value, or the error where none was. `failure` starts its
/// message.
pub fn encoded_json(failure: &str, printed: Result<String, String>) -> (encoded: Result<
    String,
    StoreError,
>)
    ensures
        seen(encoded) == json_written(
            failure@,
            match printed {
                Ok(text) => Ok(text@),
                Err(error) => Err(error@),
            },
        ),
{
    match printed {
        Ok(text) => Ok(text),
        Err(error) => Err(StoreError::InvalidInput(join(failure, error.as_str()))),
    }
}

/// The text that the database keeps for a JSON value. The value is read back from it, unless it is
/// nested deeper than [`NESTING_LIMIT`].
///
/// `failure` starts the message in case that the value has no text.
pub fn encode_json(failure: &str, value: &Value) -> (encoded: Result<String, StoreError>)
    ensures
        encoded matches Ok(text) && text@ == json_text(*value),
        json_fits(*value) ==> json_survives(*value),
        forall|field: Seq<char>|
            json_fits(*value) ==> #[trigger] json_from(field, json_text(*value)) == Ok::<
                Value,
                StoreErrorView,
            >(*value),
{
    encoded_json(failure, print_json(value))
}

/// What [`decode_json`] makes of what was read.
pub open spec fn json_read(field: Seq<char>, parsed: Result<Value, Seq<char>>) -> Result<
    Value,
    StoreErrorView,
> {
    match parsed {
        Ok(value) => Ok(value),
        Err(error) => Err(
            StoreErrorView::InvalidData(field + " contains invalid JSON: "@ + error),
        ),
    }
}

/// The JSON value that was read of a text, or the error where none was.
pub fn decoded_json(field: &str, parsed: Result<Value, String>) -> (decoded: Result<
    Value,
    StoreError,
>)
    ensures
        match parsed {
            Ok(value) => decoded == Ok::<Value, StoreError>(value),
            Err(error) => decoded matches Err(failure) && failure@ == StoreErrorView::InvalidData(
                field@ + " contains invalid JSON: "@ + error@,
            ),
        },
{
    match parsed {
        Ok(value) => Ok(value),
        Err(error) => {
            let mut message: String = join(field, " contains invalid JSON: ");
            message.append(error.as_str());
            Err(StoreError::InvalidData(message))
        },
    }
}

/// What [`decode_json`] returns.
pub open spec fn json_from(field: Seq<char>, encoded: Seq<char>) -> Result<Value, StoreErrorView> {
    json_read(field, json_outcome(encoded))
}

/// The JSON value that the database kept as a text. A text that is nested deeper than
/// [`NESTING_LIMIT`] has none.
pub fn decode_json(field: &str, encoded: &str) -> (decoded: Result<Value, StoreError>)
    ensures
        match decoded {
            Ok(value) => json_from(field@, encoded@) == Ok::<Value, StoreErrorView>(value),
            Err(error) => json_from(field@, encoded@) == Err::<Value, StoreErrorView>(error@),
        },
        nesting(encoded@) > NESTING_LIMIT ==> decoded matches Err(StoreError::InvalidData(_)),
{
    if is_within_limit(encoded) {
        decoded_json(field, parse_json(encoded))
    } else {
        decoded_json(field, parse_json_guarded(encoded))
    }
}

} // verus!
