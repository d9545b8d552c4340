//! How deep the brackets of a JSON text are nested.
use vstd::prelude::*;

verus! {

/// How deep a JSON text may be nested to be read past the limit of `serde_json`, which is 127
/// levels.
///
/// Reading a text takes stack in proportion to its nesting.
pub const NESTING_LIMIT: u64 = 256;

/// What is known of a JSON text once its first characters have been looked at.
pub struct Scan {
    /// Whether the next character belongs to a string.
    pub in_string: bool,
    /// Whether the next character stands behind a backslash in a string.
    pub escaped: bool,
    /// How many brackets are open.
    pub depth: nat,
    /// How many brackets were open at most.
    pub deepest: nat,
}

/// What is known of a text after one more character. Brackets in strings do not count.
pub open spec fn scan_on(scan: Scan, c: char) -> Scan {
    if scan.in_string {
        Scan {
            in_string: scan.escaped || c != '"',
            escaped: !scan.escaped && c == '\\',
            ..scan
        }
    } else if c == '"' {
        Scan { in_string: true, ..scan }
    } else if c == '[' || c == '{' {
        let depth = scan.depth + 1;
        Scan {
            depth,
            deepest: if depth > scan.deepest {
                depth
            } else {
                scan.deepest
            },
            ..scan
        }
    } else if (c == ']' || c == '}') && scan.depth > 0 {
        Scan { depth: (scan.depth - 1) as nat, ..scan }
    } else {
        scan
    }
}

/// What is known of a text once all its characters have been looked at.
pub open spec fn scanned(text: Seq<char>) -> Scan
    decreases text.len(),
{
    if text.len() == 0 {
        Scan { in_string: false, escaped: false, depth: 0, deepest: 0 }
    } else {
        scan_on(scanned(text.drop_last()), text.last())
    }
}

/// The greatest number of brackets that are open at one place in a text. Brackets in strings do not
/// count.
pub open spec fn nesting(text: Seq<char>) -> nat {
    scanned(text).deepest
}

proof fn lemma_nesting_of_prefix(text: Seq<char>, n: int)
    requires
        0 <= n <= text.len(),
    ensures
        nesting(text.take(n)) <= nesting(text),
    decreases text.len(),
{
    if n == text.len() {
        assert(text.take(n) =~= text);
    } else {
        assert(text.drop_last().take(n) =~= text.take(n));
        lemma_nesting_of_prefix(text.drop_last(), n);
    }
}

/// Whether a text closes no bracket that it did not open.
pub open spec fn closes_its_own(text: Seq<char>) -> bool {
    forall|n: int|
        0 <= n < text.len() && (text[n] == ']' || text[n] == '}') && !(#[trigger] scanned(
            text.take(n),
        )).in_string ==> scanned(text.take(n)).depth > 0
}

/// Whether a text closes all brackets and strings that it opens, and no others: it is a JSON value,
/// or several in a row.
pub open spec fn is_complete(text: Seq<char>) -> bool {
    closes_its_own(text) && scanned(text).depth == 0 && !scanned(text).in_string
}

proof fn lemma_scan_is_sound(text: Seq<char>)
    ensures
        scanned(text).escaped ==> scanned(text).in_string,
        scanned(text).depth <= scanned(text).deepest,
    decreases text.len(),
{
    if text.len() > 0 {
        lemma_scan_is_sound(text.drop_last());
    }
}

proof fn lemma_scan_behind(before: Seq<char>, text: Seq<char>)
    requires
        !scanned(before).in_string,
        closes_its_own(text),
    ensures
        ({
            let (a, t, both) = (scanned(before), scanned(text), scanned(before + text));
            &&& both.in_string == t.in_string
            &&& both.escaped == t.escaped
            &&& both.depth == a.depth + t.depth
            &&& both.deepest == if a.depth + t.deepest > a.deepest {
                (a.depth + t.deepest) as nat
            } else {
                a.deepest
            }
        }),
    decreases text.len(),
{
    lemma_scan_is_sound(before);
    if text.len() == 0 {
        assert(before + text =~= before);
    } else {
        let head = text.drop_last();
        assert((before + text).drop_last() =~= before + head);
        assert(text.take(text.len() - 1) =~= head);
        assert(scanned(text.take(text.len() - 1)) == scanned(head));
        assert forall|n: int|
            0 <= n < head.len() && (head[n] == ']' || head[n] == '}') && !(#[trigger] scanned(
                head.take(n),
            )).in_string implies scanned(head.take(n)).depth > 0 by {
            assert(head.take(n) =~= text.take(n));
        }
        lemma_scan_behind(before, head);
    }
}

/// Brackets around a text add one to its nesting.
pub proof fn law_brackets_nest(text: Seq<char>, open: char, close: char)
    requires
        is_complete(text),
        (open == '[' && close == ']') || (open == '{' && close == '}'),
    ensures
        nesting(seq![open] + text + seq![close]) == nesting(text) + 1,
        is_complete(seq![open] + text + seq![close]),
{
    let (first, inner) = (seq![open], seq![open] + text);
    assert(first.drop_last() =~= Seq::empty());
    assert(scanned(first) == scan_on(scanned(Seq::empty()), open));
    lemma_scan_behind(first, text);
    let whole = inner + seq![close];
    assert(whole.drop_last() =~= inner);
    assert(scanned(whole) == scan_on(scanned(inner), close));
    assert forall|n: int|
        0 <= n < whole.len() && (whole[n] == ']' || whole[n] == '}') && !(#[trigger] scanned(
            whole.take(n),
        )).in_string implies scanned(whole.take(n)).depth > 0 by {
        if n == inner.len() {
            assert(whole.take(n) =~= inner);
        } else {
            assert(n > 0);
            let part = text.take(n - 1);
            assert(whole.take(n) =~= first + part);
            assert forall|m: int|
                0 <= m < part.len() && (part[m] == ']' || part[m] == '}') && !(
                #[trigger] scanned(part.take(m))).in_string implies scanned(part.take(m)).depth
                > 0 by {
                assert(part.take(m) =~= text.take(m));
            }
            lemma_scan_behind(first, part);
        }
    }
}

/// A text behind another one is nested on its own: together they are nested as deep as the deeper
/// one.
pub proof fn law_texts_in_a_row_nest_apart(first: Seq<char>, second: Seq<char>)
    requires
        is_complete(first),
        is_complete(second),
    ensures
        nesting(first + second) == if nesting(first) > nesting(second) {
            nesting(first)
        } else {
            nesting(second)
        },
        scanned(first + second).depth == 0,
        !scanned(first + second).in_string,
{
    lemma_scan_behind(first, second);
}

/// A text without brackets and quotation marks is not nested.
pub proof fn law_plain_text_is_not_nested(text: Seq<char>)
    requires
        forall|i: int|
            0 <= i < text.len() ==> {
                let c = #[trigger] text[i];
                c != '"' && c != '[' && c != '{' && c != ']' && c != '}'
            },
    ensures
        nesting(text) == 0,
        is_complete(text),
    decreases text.len(),
{
    if text.len() > 0 {
        let head = text.drop_last();
        assert forall|i: int| 0 <= i < head.len() implies {
            let c = #[trigger] head[i];
            c != '"' && c != '[' && c != '{' && c != ']' && c != '}'
        } by {
            assert(head[i] == text[i]);
        }
        law_plain_text_is_not_nested(head);
    }
}

proof fn lemma_inside_string(text: Seq<char>)
    requires
        forall|i: int|
            0 <= i < text.len() ==> (#[trigger] text[i]) != '"' && text[i] != '\\',
    ensures
        scanned(seq!['"'] + text) == (Scan {
            in_string: true,
            escaped: false,
            depth: 0,
            deepest: 0,
        }),
    decreases text.len(),
{
    let whole = seq!['"'] + text;
    if text.len() == 0 {
        assert(whole.drop_last() =~= Seq::empty());
        assert(scanned(whole) == scan_on(scanned(Seq::empty()), '"'));
    } else {
        let head = text.drop_last();
        assert forall|i: int| 0 <= i < head.len() implies (#[trigger] head[i]) != '"' && head[i]
            != '\\' by {
            assert(head[i] == text[i]);
        }
        lemma_inside_string(head);
        assert(whole.drop_last() =~= seq!['"'] + head);
        assert(text.last() == text[text.len() - 1]);
        assert(scanned(whole) == scan_on(scanned(seq!['"'] + head), text.last()));
    }
}

/// Brackets in a string do not count.
pub proof fn law_strings_are_not_nested(text: Seq<char>)
    requires
        forall|i: int|
            0 <= i < text.len() ==> (#[trigger] text[i]) != '"' && text[i] != '\\',
    ensures
        nesting(seq!['"'] + text + seq!['"']) == 0,
        scanned(seq!['"'] + text + seq!['"']).depth == 0,
        !scanned(seq!['"'] + text + seq!['"']).in_string,
{
    lemma_inside_string(text);
    let whole = seq!['"'] + text + seq!['"'];
    assert(whole.drop_last() =~= seq!['"'] + text);
}

/// A character behind a backslash stays in its string, whatever character it is.
pub proof fn law_escaped_characters_stay_in_their_string(before: Seq<char>, c: char)
    requires
        scanned(before).in_string,
        !scanned(before).escaped,
    ensures
        scanned(before.push('\\').push(c)) == scanned(before),
{
    let slash = before.push('\\');
    assert(slash.drop_last() =~= before);
    assert(scanned(slash) == scan_on(scanned(before), '\\'));
    assert(slash.push(c).drop_last() =~= slash);
    assert(scanned(slash.push(c)) == scan_on(scanned(slash), c));
}

/// A text is read past the limit of `serde_json` exactly if it is nested at most 256 levels deep.
pub proof fn law_texts_within_the_limit(text: &str, within: bool)
    requires
        call_ensures(is_within_limit, (text,), within),
    ensures
        within <==> nesting(text@) <= 256,
{
}

/// Whether a text is nested no deeper than the limit.
pub fn is_within_limit(text: &str) -> (within: bool)
    ensures
        within <==> nesting(text@) <= NESTING_LIMIT,
{
    let mut in_string: bool = false;
    let mut escaped: bool = false;
    let mut depth: u64 = 0;
    assert(text@.take(0) =~= Seq::empty());
    for c in iter: text.chars()
        invariant
            iter.seq() == text@,
            scanned(text@.take(iter.index() as int)).in_string == in_string,
            scanned(text@.take(iter.index() as int)).escaped == escaped,
            scanned(text@.take(iter.index() as int)).depth == depth,
            depth <= scanned(text@.take(iter.index() as int)).deepest <= NESTING_LIMIT,
    {
        let ghost n = iter.index() as int;
        proof {
            assert(text@.take(n + 1).drop_last() =~= text@.take(n));
            assert(text@.take(n + 1).last() == c);
        }
        if in_string {
            in_string = escaped || c != '"';
            escaped = !escaped && c == '\\';
        } else if c == '"' {
            in_string = true;
        } else if c == '[' || c == '{' {
            if depth == NESTING_LIMIT {
                proof {
                    lemma_nesting_of_prefix(text@, n + 1);
                }
                return false;
            }
            depth = depth + 1;
        } else if (c == ']' || c == '}') && depth > 0 {
            depth = depth - 1;
        }
    }
    assert(text@.take(text@.len() as int) =~= text@);
    true
}

} // verus!
