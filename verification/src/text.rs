//! Character-level string helpers: equality, decimal rendering and the
//! collapsing of doubled slashes that request URLs go through.

use vstd::prelude::*;

verus! {

broadcast use vstd::string::group_string_axioms;

/// Whether two strings hold the same characters.
pub fn same_text(a: &str, b: &str) -> (res: bool)
    ensures
        res == (a@ == b@),
{
    a.to_owned() == b.to_owned()
}

/// Appends one character.
///
/// Trusted: calls std's `String::push`, documented to append the given
/// character to the end of the string.
#[verifier::external_body]
pub(crate) fn push_char(s: &mut String, c: char)
    ensures
        final(s)@ == old(s)@.push(c),
{
    s.push(c)
}

/// The character of a decimal digit.
pub open spec fn digit_char(d: int) -> char {
    if d == 0 {
        '0'
    } else if d == 1 {
        '1'
    } else if d == 2 {
        '2'
    } else if d == 3 {
        '3'
    } else if d == 4 {
        '4'
    } else if d == 5 {
        '5'
    } else if d == 6 {
        '6'
    } else if d == 7 {
        '7'
    } else if d == 8 {
        '8'
    } else {
        '9'
    }
}

/// The decimal rendering of `n`, as `{}` formats an unsigned integer.
pub open spec fn decimal(n: nat) -> Seq<char>
    decreases n,
{
    if n < 10 {
        seq![digit_char(n as int)]
    } else {
        decimal(n / 10).push(digit_char((n % 10) as int))
    }
}

fn digit(d: usize) -> (c: char)
    requires
        d < 10,
    ensures
        c == digit_char(d as int),
{
    if d == 0 {
        '0'
    } else if d == 1 {
        '1'
    } else if d == 2 {
        '2'
    } else if d == 3 {
        '3'
    } else if d == 4 {
        '4'
    } else if d == 5 {
        '5'
    } else if d == 6 {
        '6'
    } else if d == 7 {
        '7'
    } else if d == 8 {
        '8'
    } else {
        '9'
    }
}

/// Appends the decimal rendering of `n` to `s`.
pub fn push_decimal(s: &mut String, n: usize)
    ensures
        final(s)@ == old(s)@ + decimal(n as nat),
        decimal_value(final(s)@.skip(old(s)@.len() as int)) == n,
    decreases n,
{
    if n >= 10 {
        push_decimal(s, n / 10);
    }
    push_char(s, digit(n % 10));
    proof {
        decimal_is_base_ten(n as nat);
        assert(s@.skip(old(s)@.len() as int) =~= decimal(n as nat));
    }
}

/// The number that a string of decimal digits denotes, most significant
/// digit first.
pub open spec fn decimal_value(s: Seq<char>) -> int
    decreases s.len(),
{
    if s.len() == 0 {
        0
    } else {
        decimal_value(s.drop_last()) * 10 + (s.last() as int - '0' as int)
    }
}

/// A character among `0` to `9`.
pub open spec fn is_decimal_digit(c: char) -> bool {
    '0' as int <= c as int <= '9' as int
}

/// `decimal(n)` is the usual base-10 rendering of `n`: digits `0` to `9`
/// that read back as `n`, with no leading zero except for `0` itself.
pub proof fn decimal_is_base_ten(n: nat)
    ensures
        decimal(n).len() >= 1,
        forall|i: int| 0 <= i < decimal(n).len() ==> is_decimal_digit(#[trigger] decimal(n)[i]),
        decimal_value(decimal(n)) == n,
        decimal(n)[0] == '0' ==> n == 0,
    decreases n,
{
    if n < 10 {
        let s = decimal(n);
        assert(s.drop_last() =~= Seq::<char>::empty());
        assert(digit_char(n as int) as int == '0' as int + n);
        assert(decimal_value(Seq::<char>::empty()) == 0);
        assert(s.last() == digit_char(n as int));
    } else {
        let q = (n / 10) as nat;
        let r = n % 10;
        decimal_is_base_ten(q);
        let s = decimal(n);
        assert(s.drop_last() =~= decimal(q));
        assert(digit_char(r as int) as int == '0' as int + r);
        assert(s[0] == decimal(q)[0]);
        assert forall|i: int| 0 <= i < s.len() implies is_decimal_digit(#[trigger] s[i]) by {
            if i < s.len() - 1 {
                assert(s[i] == decimal(q)[i]);
            }
        }
        assert(s.last() == digit_char(r as int));
        assert(n == q * 10 + r);
        assert(decimal_value(s) == decimal_value(decimal(q)) * 10 + r);
    }
}

/// The decimal rendering of a number is never empty.
pub proof fn lemma_decimal_nonempty(n: nat)
    ensures
        decimal(n).len() >= 1,
    decreases n,
{
    if n >= 10 {
        lemma_decimal_nonempty(n / 10);
    }
}

/// Distinct numbers have distinct decimal renderings.
pub proof fn lemma_decimal_injective(n: nat, m: nat)
    requires
        decimal(n) == decimal(m),
    ensures
        n == m,
    decreases n,
{
    if n < 10 && m < 10 {
        assert(decimal(n)[0] == digit_char(n as int));
        assert(decimal(m)[0] == digit_char(m as int));
    } else if n < 10 {
        lemma_decimal_nonempty(m / 10);
        assert(decimal(m).len() >= 2);
    } else if m < 10 {
        lemma_decimal_nonempty(n / 10);
        assert(decimal(n).len() >= 2);
    } else {
        let dn = decimal(n / 10);
        let dm = decimal(m / 10);
        assert(decimal(n).last() == digit_char((n % 10) as int));
        assert(decimal(m).last() == digit_char((m % 10) as int));
        assert(dn =~= decimal(n).drop_last());
        assert(dm =~= decimal(m).drop_last());
        lemma_decimal_injective(n / 10, m / 10);
        assert(n % 10 == m % 10);
    }
}

/// `s` with every pair of consecutive slashes, taken left to right without
/// overlap, replaced by one slash: what `s.replace("//", "/")` returns.
pub open spec fn collapse_slashes(s: Seq<char>) -> Seq<char>
    decreases s.len(),
{
    if s.len() == 0 {
        seq![]
    } else if s.len() >= 2 && s[0] == '/' && s[1] == '/' {
        seq!['/'] + collapse_slashes(s.skip(2))
    } else {
        seq![s[0]] + collapse_slashes(s.skip(1))
    }
}

/// Collapsing replaces pairs of slashes left to right without overlap, as
/// `str::replace("//", "/")` does: a leading pair becomes one slash and the
/// rest is collapsed on its own; a lone leading slash, or any other leading
/// character, is kept.
pub proof fn collapse_slashes_replaces_pairs(t: Seq<char>, c: char)
    ensures
        collapse_slashes(Seq::<char>::empty()) == Seq::<char>::empty(),
        collapse_slashes(seq!['/', '/'] + t) == seq!['/'] + collapse_slashes(t),
        (t.len() == 0 || t[0] != '/') ==> collapse_slashes(seq!['/'] + t) == seq!['/']
            + collapse_slashes(t),
        c != '/' ==> collapse_slashes(seq![c] + t) == seq![c] + collapse_slashes(t),
{
    assert((seq!['/', '/'] + t).skip(2) =~= t);
    assert((seq!['/'] + t).skip(1) =~= t);
    assert((seq![c] + t).skip(1) =~= t);
}

/// Collapsing distributes over a split point that does not follow a slash.
pub proof fn lemma_collapse_concat(a: Seq<char>, t: Seq<char>)
    requires
        a.len() == 0 || a.last() != '/',
    ensures
        collapse_slashes(a + t) == collapse_slashes(a) + collapse_slashes(t),
    decreases a.len(),
{
    if a.len() == 0 {
        assert(a + t =~= t);
        assert(collapse_slashes(a) + collapse_slashes(t) =~= collapse_slashes(t));
    } else if a.len() >= 2 && a[0] == '/' && a[1] == '/' {
        assert((a + t).skip(2) =~= a.skip(2) + t);
        lemma_collapse_concat(a.skip(2), t);
        assert(seq!['/'] + (collapse_slashes(a.skip(2)) + collapse_slashes(t)) =~= (seq!['/']
            + collapse_slashes(a.skip(2))) + collapse_slashes(t));
    } else {
        assert((a + t).skip(1) =~= a.skip(1) + t);
        lemma_collapse_concat(a.skip(1), t);
        assert(seq![a[0]] + (collapse_slashes(a.skip(1)) + collapse_slashes(t)) =~= (seq![a[0]]
            + collapse_slashes(a.skip(1))) + collapse_slashes(t));
    }
}

/// What remains to be produced for the suffix `rest` when the output so far
/// ends in a slash that the next character may pair with (`open`).
spec fn collapse_rest(rest: Seq<char>, open: bool) -> Seq<char> {
    if open && rest.len() >= 1 && rest[0] == '/' {
        collapse_slashes(rest.skip(1))
    } else {
        collapse_slashes(rest)
    }
}

/// Replaces each pair of consecutive slashes by one, left to right.
pub fn collapse_double_slashes(s: &str) -> (res: String)
    ensures
        res@ == collapse_slashes(s@),
{
    let mut out = String::new();
    let mut open = false;
    let ghost whole = s@;
    assert(whole.skip(0) =~= whole);
    assert(out@ + collapse_slashes(whole) =~= collapse_slashes(whole));
    for c in it: s.chars()
        invariant
            it.seq() == whole,
            out@ + collapse_rest(whole.skip(it.index() as int), open) == collapse_slashes(whole),
    {
        let ghost i = it.index() as int;
        let ghost rest = whole.skip(i);
        assert(rest[0] == c);
        assert(rest.skip(1) =~= whole.skip(i + 1));
        if c == '/' && open {
            open = false;
        } else if c == '/' {
            push_char(&mut out, c);
            open = true;
            assert(rest.len() >= 2 && rest[1] == '/' ==> rest.skip(2) =~= rest.skip(1).skip(1));
        } else {
            push_char(&mut out, c);
            open = false;
        }
    }
    assert(whole.skip(whole.len() as int) =~= Seq::<char>::empty());
    out
}

} // verus!
