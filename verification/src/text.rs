//! Text as sequences of characters: blank text, joined text and numbers in positional notation.
use vstd::prelude::*;
use vstd::string::StringExecFns;

verus! {

/// Copying a string slice into a `String` keeps its characters
/// (`<String as From<&str>>::from`).
pub assume_specification<'a>[ <String as std::convert::From<&'a str>>::from ](
    value: &str,
) -> (text: String)
    ensures
        text@ == value@,
;

/// Converting a value to its own type hands it back (`<T as From<T>>::from`).
pub assume_specification<Item>[ <Item as std::convert::From<Item>>::from ](
    value: Item,
) -> (same: Item)
    ensures
        same == value,
;

/// Whether Unicode gives the character the property `White_Space`.
pub open spec fn is_white_space(c: char) -> bool {
    let code = c as u32;
    ||| 0x09 <= code <= 0x0d
    ||| code == 0x20
    ||| code == 0x85
    ||| code == 0xa0
    ||| code == 0x1680
    ||| 0x2000 <= code <= 0x200a
    ||| code == 0x2028
    ||| code == 0x2029
    ||| code == 0x202f
    ||| code == 0x205f
    ||| code == 0x3000
}

/// Whether a text holds nothing but white space.
pub open spec fn is_blank(text: Seq<char>) -> bool {
    forall|i: int| 0 <= i < text.len() ==> is_white_space(#[trigger] text[i])
}

/// Whether `inner` is what is left of `text` between `start` and `end` once the white space
/// at both ends is taken off.
pub open spec fn is_trimmed(text: Seq<char>, inner: Seq<char>, start: int, end: int) -> bool {
    &&& 0 <= start <= end <= text.len()
    &&& inner == text.subrange(start, end)
    &&& is_blank(text.subrange(0, start))
    &&& is_blank(text.subrange(end, text.len() as int))
    &&& inner.len() > 0 ==> !is_white_space(inner.first()) && !is_white_space(inner.last())
}

/// `str::trim` returns the slice that is left without the leading and the trailing white space,
/// white space being what Unicode calls `White_Space`.
pub assume_specification[ str::trim ](text: &str) -> (inner: &str)
    ensures
        exists|start: int, end: int| #[trigger] is_trimmed(text@, inner@, start, end),
;

/// The text that follows from joining two texts.
pub fn join(first: &str, second: &str) -> (joined: String)
    ensures
        joined@ == first@ + second@,
{
    let mut joined: String = String::from(first);
    joined.append(second);
    joined
}

/// The decimal digits in ascending order.
pub open spec fn digits() -> Seq<char> {
    "0123456789"@
}

/// A number in decimal notation, without leading zeros.
pub open spec fn decimal(n: nat) -> Seq<char>
    decreases n,
{
    if n < 10 {
        seq![digits()[n as int]]
    } else {
        decimal(n / 10).push(digits()[(n % 10) as int])
    }
}

fn digit_text(n: u64) -> (text: &'static str)
    requires
        n < 10,
    ensures
        text@ == seq![digits()[n as int]],
{
    proof {
        reveal_strlit("0123456789");
        reveal_strlit("0");
        reveal_strlit("1");
        reveal_strlit("2");
        reveal_strlit("3");
        reveal_strlit("4");
        reveal_strlit("5");
        reveal_strlit("6");
        reveal_strlit("7");
        reveal_strlit("8");
        reveal_strlit("9");
    }
    match n {
        0 => "0",
        1 => "1",
        2 => "2",
        3 => "3",
        4 => "4",
        5 => "5",
        6 => "6",
        7 => "7",
        8 => "8",
        _ => "9",
    }
}

/// Writes a number in decimal notation.
pub fn decimal_text(n: u64) -> (text: String)
    ensures
        text@ == decimal(n as nat),
    decreases n,
{
    if n < 10 {
        String::from(digit_text(n))
    } else {
        let mut text: String = decimal_text(n / 10);
        text.append(digit_text(n % 10));
        text
    }
}

/// The last `width` digits of a number, written with the given symbols for zero, one and so on.
pub open spec fn notation(n: nat, symbols: Seq<char>, width: nat) -> Seq<char>
    decreases width,
{
    if width == 0 {
        Seq::empty()
    } else {
        notation(n / symbols.len(), symbols, (width - 1) as nat).push(
            symbols[(n % symbols.len()) as int],
        )
    }
}

/// The last `width` decimal digits of a number, with leading zeros.
pub open spec fn padded(n: nat, width: nat) -> Seq<char> {
    notation(n, digits(), width)
}

} // verus!
