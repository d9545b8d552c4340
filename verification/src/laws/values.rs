//! What holds of the texts, numbers and times that the store writes and reads.
use serde_json::Value;
use vstd::arithmetic::power::pow;
use vstd::prelude::*;

use crate::checks::{integer_to_sql, sql_to_integer, validate_non_empty};
use crate::error::{database_error, seen, StoreError, StoreErrorView};
use crate::identifiers::{base32_symbols, is_drawn, session_id_text, ulid_text};
use crate::json::{
    decode_json, decoded_json, encode_json, encoded_json, json_guarded, json_parsed, json_text,
};
use crate::names::{AgentName, EventKind, EventSequence, SessionId, SessionVersion};
use crate::nesting::nesting;
use crate::order::lemma_notation_len;
use crate::text::{
    decimal, decimal_text, digits, is_blank, is_white_space, join, notation, padded,
};
use crate::time::{
    decode_timestamp, decoded_timestamp, encode_timestamp, rfc3339_parsed, Timestamp,
};

verus! {

/// White space is what Unicode gives the property `White_Space`: twenty-five characters.
pub proof fn law_white_space(c: char)
    ensures
        is_white_space(c) <==> seq![
            0x9u32, 0xau32, 0xbu32, 0xcu32, 0xdu32, 0x20u32, 0x85u32, 0xa0u32, 0x1680u32,
            0x2000u32, 0x2001u32, 0x2002u32, 0x2003u32, 0x2004u32, 0x2005u32, 0x2006u32,
            0x2007u32, 0x2008u32, 0x2009u32, 0x200au32, 0x2028u32, 0x2029u32, 0x202fu32,
            0x205fu32, 0x3000u32,
        ].contains(c as u32),
{
    let white = seq![
        0x9u32, 0xau32, 0xbu32, 0xcu32, 0xdu32, 0x20u32, 0x85u32, 0xa0u32, 0x1680u32,
        0x2000u32, 0x2001u32, 0x2002u32, 0x2003u32, 0x2004u32, 0x2005u32, 0x2006u32,
        0x2007u32, 0x2008u32, 0x2009u32, 0x200au32, 0x2028u32, 0x2029u32, 0x202fu32,
        0x205fu32, 0x3000u32,
    ];
    let code = c as u32;
    if is_white_space(c) {
        let i: int = if 0x9 <= code <= 0xd {
            code - 0x9
        } else if code == 0x20 {
            5
        } else if code == 0x85 {
            6
        } else if code == 0xa0 {
            7
        } else if code == 0x1680 {
            8
        } else if 0x2000 <= code <= 0x200a {
            9 + code - 0x2000
        } else if code == 0x2028 {
            20
        } else if code == 0x2029 {
            21
        } else if code == 0x202f {
            22
        } else if code == 0x205f {
            23
        } else {
            24
        };
        assert(white[i] == code);
    }
    if white.contains(code) {
        let i = choose|i: int| 0 <= i < white.len() && white[i] == code;
    }
}

/// A text is blank exactly if it has no character but white space. One such character, wherever it
/// stands, makes it a name, however long the text is.
pub proof fn law_blank_text(text: Seq<char>, i: int)
    ensures
        0 <= i < text.len() && !is_white_space(text[i]) ==> !is_blank(text),
        (forall|j: int| 0 <= j < text.len() ==> is_white_space(#[trigger] text[j])) ==> is_blank(
            text,
        ),
{
}

/// A value is refused as empty exactly if it is blank, and the refusal names its field.
pub proof fn law_blank_values_are_refused(
    field: &str,
    value: &str,
    checked: Result<(), StoreError>,
)
    requires
        call_ensures(validate_non_empty, (field, value), checked),
    ensures
        checked is Err <==> is_blank(value@),
        checked is Err ==> checked->Err_0@ == StoreErrorView::InvalidInput(
            field@ + " cannot be empty"@,
        ),
{
}

/// A number is stored exactly if it is one that SQLite can keep, it is stored as it is, and it is
/// read again as it was.
pub proof fn law_integers_are_kept(
    field: &str,
    value: u64,
    stored: Result<i64, StoreError>,
    number: Result<u64, StoreError>,
)
    requires
        call_ensures(integer_to_sql, (field, value), stored),
        stored is Ok ==> call_ensures(sql_to_integer, (field, stored->Ok_0), number),
    ensures
        stored is Ok <==> value <= i64::MAX,
        stored is Ok ==> stored->Ok_0 == value && number == Ok::<u64, StoreError>(value),
        stored is Err ==> stored->Err_0@ == StoreErrorView::InvalidInput(
            field@ + " exceeds SQLite's integer range"@,
        ),
{
}

/// A stored integer is read as a number exactly if it is not negative, and as the number it is.
pub proof fn law_negative_integers_are_refused(
    field: &str,
    value: i64,
    number: Result<u64, StoreError>,
)
    requires
        call_ensures(sql_to_integer, (field, value), number),
    ensures
        number is Ok <==> value >= 0,
        number is Ok ==> number->Ok_0 == value,
        number is Err ==> number->Err_0@ == StoreErrorView::InvalidData(
            field@ + " cannot be negative"@,
        ),
{
}

/// The number that decimal digits stand for.
pub open spec fn number_of(text: Seq<char>) -> int
    decreases text.len(),
{
    if text.len() == 0 {
        0
    } else {
        10 * number_of(text.drop_last()) + (text.last() as int - '0' as int)
    }
}

/// Whether a text is made of decimal digits.
pub open spec fn is_digits(text: Seq<char>) -> bool {
    forall|i: int| 0 <= i < text.len() ==> '0' as int <= #[trigger] text[i] as int <= '9' as int
}

proof fn lemma_digit(n: nat)
    requires
        n < 10,
    ensures
        digits().len() == 10,
        digits()[n as int] as int == '0' as int + n,
{
    reveal_strlit("0123456789");
}

/// A number in decimal notation is made of digits, stands for the number, and starts with a zero
/// only if it is zero.
pub proof fn law_decimals_stand_for_their_numbers(n: nat)
    ensures
        is_digits(decimal(n)),
        number_of(decimal(n)) == n,
        decimal(n).len() > 0,
        decimal(n)[0] == '0' ==> n == 0 && decimal(n).len() == 1,
    decreases n,
{
    if n < 10 {
        lemma_digit(n);
        let text = decimal(n);
        assert(text.drop_last() =~= Seq::empty());
        reveal_with_fuel(number_of, 2);
    } else {
        law_decimals_stand_for_their_numbers(n / 10);
        lemma_digit(n % 10);
        let (head, c) = (decimal(n / 10), digits()[(n % 10) as int]);
        assert(decimal(n) == head.push(c));
        assert(head.push(c).drop_last() =~= head);
        assert(head.push(c)[0] == head[0]);
    }
}

proof fn lemma_padded_number(n: nat, width: nat)
    requires
        n < pow(10, width),
    ensures
        is_digits(padded(n, width)),
        number_of(padded(n, width)) == n,
        padded(n, width).len() == width,
    decreases width,
{
    vstd::arithmetic::power::lemma_pow0(10);
    lemma_digit(n % 10);
    lemma_notation_len(n, digits(), width);
    if width > 0 {
        let w = (width - 1) as nat;
        assert(pow(10, width) == 10 * pow(10, w)) by {
            reveal(pow);
        }
        lemma_padded_number(n / 10, w);
        let (head, c) = (padded(n / 10, w), digits()[(n % 10) as int]);
        assert(padded(n, width) == head.push(c));
        assert(head.push(c).drop_last() =~= head);
    }
}

/// Versions and sequence numbers are shown as the numbers they are.
pub proof fn law_numbers_are_shown(n: u64, plain: String, version: String, sequence: String)
    requires
        call_ensures(decimal_text, (n,), plain),
        call_ensures(SessionVersion::to_string, (&SessionVersion(n),), version),
        call_ensures(EventSequence::to_string, (&EventSequence(n),), sequence),
    ensures
        number_of(plain@) == n,
        plain@.len() > 0 && is_digits(plain@),
        plain@[0] == '0' ==> n == 0 && plain@.len() == 1,
        version@ == plain@,
        sequence@ == plain@,
{
    law_decimals_stand_for_their_numbers(n as nat);
}

/// A session without events is at version zero.
pub proof fn law_versions_start_at_zero(initial: SessionVersion, default: SessionVersion)
    requires
        call_ensures(SessionVersion::initial, (), initial),
        call_ensures(<SessionVersion as Default>::default, (), default),
    ensures
        initial.0 == 0,
        default.0 == 0,
{
}

/// Joining two texts puts the second behind the first and changes neither.
pub proof fn law_joined_texts_are_kept(first: &str, second: &str, joined: String)
    requires
        call_ensures(join, (first, second), joined),
    ensures
        joined@.len() == first@.len() + second@.len(),
        joined@.take(first@.len() as int) == first@,
        joined@.skip(first@.len() as int) == second@,
{
    assert(joined@.take(first@.len() as int) =~= first@);
    assert(joined@.skip(first@.len() as int) =~= second@);
}

/// Names keep the text they were made from, in whatever way they were made, copied or looked at.
pub proof fn law_session_ids_keep_their_text(
    text: &str,
    owned: String,
    id: SessionId,
    from_owned: SessionId,
    made: SessionId,
    copy: SessionId,
    seen: &str,
    shown: String,
    lent: &str,
)
    requires
        owned@ == text@,
        call_ensures(<SessionId as From<&str>>::from, (text,), id),
        call_ensures(<SessionId as From<String>>::from, (owned,), from_owned),
        call_ensures(<SessionId as Clone>::clone, (&id,), copy),
        call_ensures(SessionId::as_str, (&copy,), seen),
        call_ensures(SessionId::to_string, (&from_owned,), shown),
        call_ensures(SessionId::from_string::<String>, (owned,), made),
        call_ensures(SessionId::as_str, (&made,), lent),
    ensures
        seen@ == text@,
        shown@ == text@,
        lent@ == text@,
{
}

/// Names keep the text they were made from, in whatever way they were made, copied or looked at.
pub proof fn law_agent_names_keep_their_text(
    text: &str,
    owned: String,
    name: AgentName,
    from_owned: AgentName,
    made: AgentName,
    copy: AgentName,
    seen: &str,
    shown: String,
    lent: &str,
)
    requires
        owned@ == text@,
        call_ensures(<AgentName as From<&str>>::from, (text,), name),
        call_ensures(<AgentName as From<String>>::from, (owned,), from_owned),
        call_ensures(<AgentName as Clone>::clone, (&name,), copy),
        call_ensures(AgentName::as_str, (&copy,), seen),
        call_ensures(AgentName::to_string, (&from_owned,), shown),
        call_ensures(AgentName::from_string::<String>, (owned,), made),
        call_ensures(AgentName::as_str, (&made,), lent),
    ensures
        seen@ == text@,
        shown@ == text@,
        lent@ == text@,
{
}

/// Names keep the text they were made from, in whatever way they were made, copied or looked at.
pub proof fn law_event_kinds_keep_their_text(
    text: &str,
    owned: String,
    kind: EventKind,
    from_owned: EventKind,
    made: EventKind,
    copy: EventKind,
    seen: &str,
    shown: String,
    lent: &str,
)
    requires
        owned@ == text@,
        call_ensures(<EventKind as From<&str>>::from, (text,), kind),
        call_ensures(<EventKind as From<String>>::from, (owned,), from_owned),
        call_ensures(<EventKind as Clone>::clone, (&kind,), copy),
        call_ensures(EventKind::as_str, (&copy,), seen),
        call_ensures(EventKind::to_string, (&from_owned,), shown),
        call_ensures(EventKind::from_string::<String>, (owned,), made),
        call_ensures(EventKind::as_str, (&made,), lent),
    ensures
        seen@ == text@,
        shown@ == text@,
        lent@ == text@,
{
}

/// A view of an error tells its kind and all that it holds, and a result is seen by its value or
/// by its error.
pub proof fn law_errors_are_seen_whole<T: View>(
    error: StoreError,
    value: T,
    failed: Result<T, StoreError>,
    done: Result<T, StoreError>,
)
    requires
        failed == Err::<T, StoreError>(error),
        done == Ok::<T, StoreError>(value),
    ensures
        match error {
            StoreError::NotFound(id) => error@ == StoreErrorView::NotFound(id@),
            StoreError::AlreadyExists(id) => error@ == StoreErrorView::AlreadyExists(id@),
            StoreError::Conflict { expected, actual } => error@ == (StoreErrorView::Conflict {
                expected,
                actual,
            }),
            StoreError::InvalidInput(message) => error@ == StoreErrorView::InvalidInput(message@),
            StoreError::InvalidData(message) => error@ == StoreErrorView::InvalidData(message@),
            StoreError::Database(message) => error@ == StoreErrorView::Database(message@),
        },
        seen(failed) == Err::<T::V, StoreErrorView>(error@),
        seen(done) == Ok::<T::V, StoreErrorView>(value@),
{
}

/// The message of an error tells what went wrong with all that the error holds: the identifier,
/// both versions, or the words it was given, between fixed words of its kind.
pub proof fn law_messages_tell_everything(
    error: StoreError,
    message: String,
    words: String,
    failure: StoreError,
)
    requires
        call_ensures(StoreError::to_string, (&error,), message),
        call_ensures(database_error, (words,), failure),
    ensures
        match error {
            StoreError::NotFound(id) => message@ == "session `"@ + id@ + "` was not found"@,
            StoreError::AlreadyExists(id) => message@ == "session `"@ + id@ + "` already exists"@,
            StoreError::Conflict { expected, actual } => exists|first: Seq<char>, second: Seq<char>|
                {
                    &&& message@ == #[trigger] conflict_text(first, second)
                    &&& is_digits(first) && number_of(first) == expected.0
                    &&& is_digits(second) && number_of(second) == actual.0
                },
            StoreError::InvalidInput(text) => message@ == "invalid store input: "@ + text@,
            StoreError::InvalidData(text) => message@ == "stored data is invalid: "@ + text@,
            StoreError::Database(text) => message@ == "database error: "@ + text@,
        },
        failure matches StoreError::Database(text) && text@ == words@,
{
    if let StoreError::Conflict { expected, actual } = error {
        law_decimals_stand_for_their_numbers(expected.0 as nat);
        law_decimals_stand_for_their_numbers(actual.0 as nat);
        assert(message@ == conflict_text(decimal(expected.0 as nat), decimal(actual.0 as nat)));
    }
}

/// The message of a version conflict.
pub open spec fn conflict_text(expected: Seq<char>, actual: Seq<char>) -> Seq<char> {
    "session version conflict: expected version "@ + expected + ", but current version is "@
        + actual
}

/// The number that symbols stand for, each by its place among all symbols.
pub open spec fn number_in(text: Seq<char>, symbols: Seq<char>) -> int
    decreases text.len(),
{
    if text.len() == 0 {
        0
    } else {
        symbols.len() * number_in(text.drop_last(), symbols) + symbols.index_of(text.last())
    }
}

proof fn lemma_notation_number(n: nat, symbols: Seq<char>, width: nat)
    requires
        symbols.len() >= 2,
        symbols.no_duplicates(),
        n < pow(symbols.len() as int, width),
    ensures
        number_in(notation(n, symbols, width), symbols) == n,
    decreases width,
{
    let base = symbols.len();
    vstd::arithmetic::power::lemma_pow0(base as int);
    if width > 0 {
        let w = (width - 1) as nat;
        let p = pow(base as int, w);
        assert(pow(base as int, width) == base * p) by {
            reveal(pow);
        }
        vstd::arithmetic::div_mod::lemma_fundamental_div_mod(n as int, base as int);
        let (n1, n0) = (n / base, n % base);
        assert(n1 < p) by (nonlinear_arith)
            requires
                n == base * n1 + n0,
                n < base * p,
                n0 >= 0,
                base >= 2,
        ;
        lemma_notation_number(n1, symbols, w);
        let (head, c) = (notation(n1, symbols, w), symbols[n0 as int]);
        assert(notation(n, symbols, width) == head.push(c));
        assert(head.push(c).drop_last() =~= head);
        assert(symbols.contains(c));
        assert(symbols[symbols.index_of(c)] == c);
        assert(symbols.index_of(c) == n0);
    }
}

/// A session identifier is `ses_` and twenty-six symbols of Crockford's Base32, which stand for the
/// whole ULID that it was made from.
pub proof fn law_session_ids_hold_their_ulids(ulid: u128, id: SessionId, fresh: SessionId)
    requires
        call_ensures(SessionId::from_ulid, (ulid,), id),
        call_ensures(SessionId::new, (), fresh),
    ensures
        id@.len() == 30,
        id@.take(4) == "ses_"@,
        number_in(id@.skip(4), "0123456789ABCDEFGHJKMNPQRSTVWXYZ"@) == ulid,
        exists|drawn: u128| is_drawn(drawn) && fresh@ == #[trigger] session_id_text(drawn),
{
    reveal_strlit("ses_");
    reveal_strlit("0123456789ABCDEFGHJKMNPQRSTVWXYZ");
    let symbols = base32_symbols();
    assert(symbols.len() == 32);
    assert forall|i: int, j: int| 0 <= i < 32 && 0 <= j < 32 && i != j implies symbols[i]
        != symbols[j] by {
        if i < j {
            assert(symbols[i] < symbols[j]);
        } else {
            assert(symbols[j] < symbols[i]);
        }
    }
    assert(pow(32, 26) > u128::MAX) by {
        reveal(pow);
        reveal_with_fuel(pow, 27);
    }
    lemma_notation_number(ulid as nat, symbols, 26);
    lemma_notation_len(ulid as nat, symbols, 26);
    assert(id@.take(4) =~= "ses_"@);
    assert(id@.skip(4) =~= ulid_text(ulid));
}

/// The text of a point in time holds each of its fields in its place, down to the nanosecond. A
/// leap second is shown as the sixtieth.
///
/// Years are taken that have four digits.
pub proof fn law_timestamp_texts_hold_each_field(t: Timestamp, text: String)
    requires
        t.valid(),
        0 <= t.year <= 9999,
        call_ensures(encode_timestamp, (t,), text),
    ensures
        text@.len() == 30,
        number_of(text@.subrange(0, 4)) == t.year,
        text@[4] == '-',
        number_of(text@.subrange(5, 7)) == t.month,
        text@[7] == '-',
        number_of(text@.subrange(8, 10)) == t.day,
        text@[10] == 'T',
        number_of(text@.subrange(11, 13)) == t.hour,
        text@[13] == ':',
        number_of(text@.subrange(14, 16)) == t.minute,
        text@[16] == ':',
        number_of(text@.subrange(17, 19)) == t.second + t.nanosecond / 1_000_000_000,
        text@[19] == '.',
        number_of(text@.subrange(20, 29)) == t.nanosecond % 1_000_000_000,
        text@[29] == 'Z',
{
    assert(pow(10, 2) == 100 && pow(10, 4) == 10000 && pow(10, 9) == 1_000_000_000) by {
        reveal(pow);
        reveal_with_fuel(pow, 10);
    }
    reveal_strlit("-");
    reveal_strlit("T");
    reveal_strlit(":");
    reveal_strlit(".");
    reveal_strlit("Z");
    let nanosecond = (t.nanosecond as nat) % 1_000_000_000;
    lemma_padded_number(t.year as nat, 4);
    lemma_padded_number(t.month as nat, 2);
    lemma_padded_number(t.day as nat, 2);
    lemma_padded_number(t.hour as nat, 2);
    lemma_padded_number(t.minute as nat, 2);
    lemma_padded_number(t.shown_second(), 2);
    lemma_padded_number(nanosecond, 9);
    assert(text@.subrange(0, 4) =~= padded(t.year as nat, 4));
    assert(text@.subrange(5, 7) =~= padded(t.month as nat, 2));
    assert(text@.subrange(8, 10) =~= padded(t.day as nat, 2));
    assert(text@.subrange(11, 13) =~= padded(t.hour as nat, 2));
    assert(text@.subrange(14, 16) =~= padded(t.minute as nat, 2));
    assert(text@.subrange(17, 19) =~= padded(t.shown_second(), 2));
    assert(text@.subrange(20, 29) =~= padded(nanosecond, 9));
}

/// A point in time is read again as it was written, in every field. Whatever else is read of a text
/// is passed on as it is, and where nothing is read, the error names the field, the text and the
/// words of the parser.
pub proof fn law_timestamps_are_read_as_they_are(
    t: Timestamp,
    written: String,
    field: &str,
    encoded: &str,
    decoded: Result<Timestamp, StoreError>,
)
    requires
        t.valid(),
        call_ensures(encode_timestamp, (t,), written),
        call_ensures(decode_timestamp, (field, encoded), decoded),
    ensures
        encoded@ == written@ && 0 <= t.year <= 9999 ==> decoded == Ok::<Timestamp, StoreError>(t),
        match rfc3339_parsed(encoded@) {
            Ok(read) => decoded == Ok::<Timestamp, StoreError>(read),
            Err(words) => decoded is Err && decoded->Err_0@ == StoreErrorView::InvalidData(
                field@ + " contains invalid timestamp `"@ + encoded@ + "`: "@ + words,
            ),
        },
{
    assert(seen(decoded) is Ok <==> decoded is Ok);
}

/// What the parser made of a text is passed on as it is, and its error with its words.
pub proof fn law_parsed_timestamps_are_passed_on(
    field: &str,
    encoded: &str,
    parsed: Result<Timestamp, String>,
    decoded: Result<Timestamp, StoreError>,
)
    requires
        call_ensures(decoded_timestamp, (field, encoded, parsed), decoded),
    ensures
        match parsed {
            Ok(read) => decoded == Ok::<Timestamp, StoreError>(read),
            Err(words) => decoded is Err && decoded->Err_0@ == StoreErrorView::InvalidData(
                field@ + " contains invalid timestamp `"@ + encoded@ + "`: "@ + words@,
            ),
        },
{
    assert(seen(decoded) is Ok <==> decoded is Ok);
}

/// A JSON value is written as the text that `serde_json` gives it, and is read again as it was,
/// where it is nested at most 256 levels deep. A text that is nested deeper is refused.
pub proof fn law_json_is_read_as_it_was_written(
    failure: &str,
    value: Value,
    written: Result<String, StoreError>,
    field: &str,
    encoded: &str,
    decoded: Result<Value, StoreError>,
)
    requires
        call_ensures(encode_json, (failure, &value), written),
        call_ensures(decode_json, (field, encoded), decoded),
    ensures
        written is Ok && written->Ok_0@ == json_text(value),
        encoded@ == json_text(value) && nesting(encoded@) <= 256 ==> decoded == Ok::<
            Value,
            StoreError,
        >(value),
        match if nesting(encoded@) <= 256 {
            json_parsed(encoded@)
        } else {
            json_guarded(encoded@)
        } {
            Ok(read) => decoded == Ok::<Value, StoreError>(read),
            Err(words) => decoded is Err && decoded->Err_0@ == StoreErrorView::InvalidData(
                field@ + " contains invalid JSON: "@ + words,
            ),
        },
        nesting(encoded@) > 256 ==> decoded is Err && decoded->Err_0@ is InvalidData,
{
}

/// What `serde_json` wrote or read is passed on as it is, and its error with its words.
pub proof fn law_json_is_passed_on(
    failure: &str,
    printed: Result<String, String>,
    encoded: Result<String, StoreError>,
    field: &str,
    parsed: Result<Value, String>,
    decoded: Result<Value, StoreError>,
)
    requires
        call_ensures(encoded_json, (failure, printed), encoded),
        call_ensures(decoded_json, (field, parsed), decoded),
    ensures
        match printed {
            Ok(text) => encoded is Ok && encoded->Ok_0@ == text@,
            Err(words) => encoded is Err && encoded->Err_0@ == StoreErrorView::InvalidInput(
                failure@ + words@,
            ),
        },
        match parsed {
            Ok(value) => decoded == Ok::<Value, StoreError>(value),
            Err(words) => decoded is Err && decoded->Err_0@ == StoreErrorView::InvalidData(
                field@ + " contains invalid JSON: "@ + words@,
            ),
        },
{
}

} // verus!
