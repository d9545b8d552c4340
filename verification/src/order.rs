//! The order of texts, character by character, in which SQLite sorts `TEXT` columns, and the
//! notations that keep the order of numbers.
use vstd::arithmetic::power::pow;
use vstd::prelude::*;

use crate::text::{digits, notation, padded};

verus! {

/// Whether `a` and `b` agree on their first `k` characters, and `a` ends there or goes on with
/// the lesser character.
pub open spec fn parts_at(a: Seq<char>, b: Seq<char>, k: int) -> bool {
    &&& 0 <= k <= a.len()
    &&& k < b.len()
    &&& a.subrange(0, k) == b.subrange(0, k)
    &&& k < a.len() ==> a[k] < b[k]
}

/// Whether `a` comes before `b` when texts are sorted by their characters.
pub open spec fn precedes(a: Seq<char>, b: Seq<char>) -> bool {
    exists|k: int| #[trigger] parts_at(a, b, k)
}

proof fn lemma_parts_agree(a: Seq<char>, b: Seq<char>, k: int, i: int)
    requires
        parts_at(a, b, k),
        0 <= i < k,
    ensures
        a[i] == b[i],
{
    assert(a.subrange(0, k)[i] == b.subrange(0, k)[i]);
}

/// No text comes before itself, and of two texts at most one comes before the other.
pub proof fn lemma_precedes_asymmetric(a: Seq<char>, b: Seq<char>)
    ensures
        precedes(a, b) ==> !precedes(b, a),
        precedes(a, b) ==> a != b,
{
    if precedes(a, b) {
        let k = choose|k: int| #[trigger] parts_at(a, b, k);
        if precedes(b, a) {
            let j = choose|j: int| #[trigger] parts_at(b, a, j);
            if j < k {
                lemma_parts_agree(a, b, k, j);
            } else if k < j {
                lemma_parts_agree(b, a, j, k);
            }
        }
    }
}

/// Coming before is transitive.
pub proof fn lemma_precedes_transitive(a: Seq<char>, b: Seq<char>, c: Seq<char>)
    requires
        precedes(a, b),
        precedes(b, c),
    ensures
        precedes(a, c),
{
    let k = choose|k: int| #[trigger] parts_at(a, b, k);
    let j = choose|j: int| #[trigger] parts_at(b, c, j);
    let m = if k < j { k } else { j };
    assert forall|i: int| 0 <= i < m implies a[i] == c[i] by {
        lemma_parts_agree(a, b, k, i);
        lemma_parts_agree(b, c, j, i);
    }
    assert(a.subrange(0, m) =~= c.subrange(0, m));
    if k < j {
        lemma_parts_agree(b, c, j, k);
    } else if j < k {
        lemma_parts_agree(a, b, k, j);
    }
    assert(parts_at(a, c, m));
}

/// Of two different texts, one comes before the other.
pub proof fn lemma_precedes_total(a: Seq<char>, b: Seq<char>)
    ensures
        a == b || precedes(a, b) || precedes(b, a),
{
    assert(a.subrange(0, 0) =~= b.subrange(0, 0));
    lemma_first_difference(a, b, 0);
}

proof fn lemma_first_difference(a: Seq<char>, b: Seq<char>, from: int)
    requires
        0 <= from <= a.len(),
        from <= b.len(),
        a.subrange(0, from) == b.subrange(0, from),
    ensures
        a == b || precedes(a, b) || precedes(b, a),
    decreases a.len() - from,
{
    if from == a.len() && from == b.len() {
        assert(a =~= a.subrange(0, from));
        assert(b =~= b.subrange(0, from));
    } else if from == a.len() || (from < b.len() && a[from] < b[from]) {
        assert(parts_at(a, b, from));
    } else if from == b.len() || b[from] < a[from] {
        assert(parts_at(b, a, from));
    } else {
        assert(a.subrange(0, from + 1) =~= a.subrange(0, from).push(a[from]));
        assert(b.subrange(0, from + 1) =~= b.subrange(0, from).push(b[from]));
        lemma_first_difference(a, b, from + 1);
    }
}

/// Texts that start with parts of one length are sorted by those parts first.
pub proof fn lemma_precedes_parts(a: Seq<char>, b: Seq<char>, c: Seq<char>, d: Seq<char>)
    requires
        a.len() == b.len(),
    ensures
        precedes(a + c, b + d) <==> precedes(a, b) || (a == b && precedes(c, d)),
        a + c == b + d <==> a == b && c == d,
{
    assert((a + c).subrange(0, a.len() as int) =~= a);
    assert((b + d).subrange(0, a.len() as int) =~= b);
    assert((a + c).subrange(a.len() as int, (a + c).len() as int) =~= c);
    assert((b + d).subrange(a.len() as int, (b + d).len() as int) =~= d);
    if precedes(a, b) {
        let k = choose|k: int| #[trigger] parts_at(a, b, k);
        assert((a + c).subrange(0, k) =~= a.subrange(0, k));
        assert((b + d).subrange(0, k) =~= b.subrange(0, k));
        assert(parts_at(a + c, b + d, k));
    }
    if a == b && precedes(c, d) {
        let k = choose|k: int| #[trigger] parts_at(c, d, k);
        assert((a + c).subrange(0, a.len() + k) =~= a + c.subrange(0, k));
        assert((b + d).subrange(0, a.len() + k) =~= b + d.subrange(0, k));
        assert(parts_at(a + c, b + d, a.len() + k));
    }
    if precedes(a + c, b + d) {
        let k = choose|k: int| #[trigger] parts_at(a + c, b + d, k);
        if k < a.len() {
            assert((a + c).subrange(0, k) =~= a.subrange(0, k));
            assert((b + d).subrange(0, k) =~= b.subrange(0, k));
            assert(parts_at(a, b, k));
        } else {
            assert forall|i: int| 0 <= i < a.len() implies a[i] == b[i] by {
                lemma_parts_agree(a + c, b + d, k, i);
            }
            assert(a =~= b);
            let j = k - a.len();
            assert forall|i: int| 0 <= i < j implies c[i] == d[i] by {
                lemma_parts_agree(a + c, b + d, k, a.len() + i);
            }
            assert(c.subrange(0, j) =~= d.subrange(0, j));
            assert(parts_at(c, d, j));
        }
    }
}

/// Texts of one character are sorted by that character.
pub proof fn lemma_precedes_single(x: char, y: char)
    ensures
        precedes(seq![x], seq![y]) <==> x < y,
        seq![x] == seq![y] <==> x == y,
{
    assert(seq![x][0] == x);
    assert(seq![y][0] == y);
    if x < y {
        assert(seq![x].subrange(0, 0) =~= seq![y].subrange(0, 0));
        assert(parts_at(seq![x], seq![y], 0));
    }
    if precedes(seq![x], seq![y]) {
        let k = choose|k: int| #[trigger] parts_at(seq![x], seq![y], k);
    }
}

/// Whether the symbols stand in ascending order.
pub open spec fn ascending(symbols: Seq<char>) -> bool {
    forall|i: int, j: int| 0 <= i < j < symbols.len() ==> symbols[i] < symbols[j]
}

/// A notation of `width` symbols has `width` characters.
pub proof fn lemma_notation_len(n: nat, symbols: Seq<char>, width: nat)
    requires
        symbols.len() > 0,
    ensures
        notation(n, symbols, width).len() == width,
    decreases width,
{
    if width > 0 {
        lemma_notation_len(n / symbols.len(), symbols, (width - 1) as nat);
    }
}

/// Numbers that fit a width are sorted by their notations, if the symbols ascend.
pub proof fn lemma_notation_order(n: nat, m: nat, symbols: Seq<char>, width: nat)
    requires
        symbols.len() >= 2,
        ascending(symbols),
        n < pow(symbols.len() as int, width),
        m < pow(symbols.len() as int, width),
    ensures
        precedes(notation(n, symbols, width), notation(m, symbols, width)) <==> n < m,
        notation(n, symbols, width) == notation(m, symbols, width) <==> n == m,
    decreases width,
{
    let base = symbols.len();
    vstd::arithmetic::power::lemma_pow0(base as int);
    if width == 0 {
        assert(n == 0 && m == 0);
        let empty = Seq::<char>::empty();
        if precedes(empty, empty) {
            let k = choose|k: int| #[trigger] parts_at(empty, empty, k);
        }
    } else {
        let w = (width - 1) as nat;
        let (n1, n0) = (n / base, n % base);
        let (m1, m0) = (m / base, m % base);
        assert(pow(base as int, width) == base * pow(base as int, w)) by {
            reveal(pow);
        }
        let p = pow(base as int, w);
        vstd::arithmetic::div_mod::lemma_fundamental_div_mod(n as int, base as int);
        vstd::arithmetic::div_mod::lemma_fundamental_div_mod(m as int, base as int);
        assert(n1 < p) by (nonlinear_arith)
            requires
                n == base * n1 + n0,
                n < base * p,
                n0 >= 0,
                base >= 2,
        ;
        assert(m1 < p) by (nonlinear_arith)
            requires
                m == base * m1 + m0,
                m < base * p,
                m0 >= 0,
                base >= 2,
        ;
        lemma_notation_order(n1, m1, symbols, w);
        lemma_notation_len(n1, symbols, w);
        lemma_notation_len(m1, symbols, w);
        let (a, b) = (notation(n1, symbols, w), notation(m1, symbols, w));
        let (x, y) = (symbols[n0 as int], symbols[m0 as int]);
        lemma_precedes_parts(a, b, seq![x], seq![y]);
        lemma_precedes_single(x, y);
        assert(a.push(x) =~= a + seq![x]);
        assert(b.push(y) =~= b + seq![y]);
        assert(x < y <==> n0 < m0);
        assert(x == y <==> n0 == m0);
        assert(n < m <==> n1 < m1 || (n1 == m1 && n0 < m0)) by (nonlinear_arith)
            requires
                n == base * n1 + n0,
                m == base * m1 + m0,
                0 <= n0 < base,
                0 <= m0 < base,
                base >= 2,
        ;
    }
}

/// Decimal numbers of one width are sorted by their digits.
pub proof fn lemma_padded_order(n: nat, m: nat, width: nat)
    requires
        n < pow(10, width),
        m < pow(10, width),
    ensures
        precedes(padded(n, width), padded(m, width)) <==> n < m,
        padded(n, width) == padded(m, width) <==> n == m,
        padded(n, width).len() == width,
        padded(m, width).len() == width,
{
    reveal_strlit("0123456789");
    assert(digits().len() == 10);
    assert(ascending(digits()));
    lemma_notation_order(n, m, digits(), width);
    lemma_notation_len(n, digits(), width);
    lemma_notation_len(m, digits(), width);
}

} // verus!
