//! Small string-building helpers shared by the code generators.

use vstd::prelude::*;

verus! {

/// Appends one character to a string (`String::push`).
#[verifier::external_body]
pub(crate) fn push_char(s: &mut String, c: char)
    ensures
        final(s)@ == old(s)@.push(c),
{
    s.push(c);
}

/// Appends a string slice to a string.
pub fn push_str(s: &mut String, t: &str)
    ensures
        final(s)@ == old(s)@ + t@,
{
    s.append(t);
}

/// A new string holding the characters of `t`.
pub fn owned(t: &str) -> (res: String)
    ensures
        res@ == t@,
{
    t.to_owned()
}

/// Character-wise equality of two string slices.
pub fn str_eq(a: &str, b: &str) -> (res: bool)
    ensures
        res == (a@ == b@),
{
    let n = a.unicode_len();
    let m = b.unicode_len();
    if n != m {
        return false;
    }
    let mut i: usize = 0;
    while i < n
        invariant
            n == a@.len(),
            m == b@.len(),
            n == m,
            i <= n,
            forall|j: int| 0 <= j < i ==> a@[j] == b@[j],
        decreases n - i,
    {
        if a.get_char(i) != b.get_char(i) {
            return false;
        }
        i = i + 1;
    }
    assert(a@ =~= b@);
    true
}

/// The digit character for a value below 16 (lower-case letters above 9).
pub open spec fn digit_char(d: nat) -> char {
    if d < 10 {
        (('0' as nat) + d) as char
    } else {
        (('a' as nat) + d - 10) as char
    }
}

/// The digits of `n` written in `base`, most significant first, without
/// leading zeros (zero itself is one digit).
pub open spec fn digits(n: nat, base: nat) -> Seq<char>
    decreases n,
{
    if base < 2 || base > 16 {
        Seq::empty()
    } else if n < base {
        seq![digit_char(n)]
    } else {
        proof {
            lemma_div_shrinks(n, base);
        }
        digits(n / base, base).push(digit_char(n % base))
    }
}

pub proof fn lemma_div_shrinks(n: nat, base: nat)
    requires
        2 <= base,
        base <= n,
    ensures
        n / base < n,
{
    assert(n / base < n) by (nonlinear_arith)
        requires
            2 <= base,
            base <= n,
    ;
}

pub(crate) fn exec_digit_char(d: u64) -> (c: char)
    requires
        d < 16,
    ensures
        c == digit_char(d as nat),
{
    if d < 10 {
        ((48u8 + d as u8) as char)
    } else {
        ((97u8 + (d - 10) as u8) as char)
    }
}

/// Appends the digits of `n` in `base` to `s`.
pub fn push_digits(s: &mut String, n: u64, base: u64)
    requires
        2 <= base <= 16,
    ensures
        final(s)@ == old(s)@ + digits(n as nat, base as nat),
    decreases n,
{
    if n >= base {
        proof {
            lemma_div_shrinks(n as nat, base as nat);
        }
        push_digits(s, n / base, base);
    }
    push_char(s, exec_digit_char(n % base));
    if n < base {
        assert(n % base == n) by (nonlinear_arith)
            requires
                n < base,
        ;
    }
    assert(s@ =~= old(s)@ + digits(n as nat, base as nat));
}

/// The value whose bits an `i64` shares: the number itself when it is not
/// negative, else the number plus 2^64 (two's complement).
pub open spec fn twos_complement(i: int) -> nat {
    if i < 0 {
        (i + 0x1_0000_0000_0000_0000) as nat
    } else {
        i as nat
    }
}

/// An `i64` written in decimal, with a leading `-` when negative.
pub open spec fn decimal_i64(i: int) -> Seq<char> {
    if i < 0 {
        seq!['-'] + digits((-i) as nat, 10)
    } else {
        digits(i as nat, 10)
    }
}

/// The unsigned value whose bits the `i64` shares.
pub fn i64_bits(i: i64) -> (res: u64)
    ensures
        res as nat == twos_complement(i as int),
{
    if i >= 0 {
        i as u64
    } else {
        ((i + 1 + i64::MAX) as u64) + 0x8000_0000_0000_0000u64
    }
}

/// Appends an `i64` in decimal, with a leading `-` when negative.
pub fn push_i64_decimal(s: &mut String, i: i64)
    ensures
        final(s)@ == old(s)@ + decimal_i64(i as int),
{
    if i < 0 {
        push_char(s, '-');
        let m: u64 = ((-(i + 1)) as u64) + 1;
        push_digits(s, m, 10);
        assert(s@ =~= old(s)@ + decimal_i64(i as int));
    } else {
        push_digits(s, i as u64, 10);
    }
}

/// Lexicographic order of strings, by the code points of their characters:
/// the order of `str`'s `Ord`, since UTF-8 keeps code point order.
pub open spec fn lex_le(a: Seq<char>, b: Seq<char>) -> bool
    decreases a.len(),
{
    if a.len() == 0 {
        true
    } else if b.len() == 0 {
        false
    } else if a[0] != b[0] {
        (a[0] as int) < (b[0] as int)
    } else {
        lex_le(a.drop_first(), b.drop_first())
    }
}

/// Any two strings are ordered, one way or the other.
pub proof fn lemma_lex_total(a: Seq<char>, b: Seq<char>)
    ensures
        lex_le(a, b) || lex_le(b, a),
    decreases a.len(),
{
    if a.len() > 0 && b.len() > 0 {
        if a[0] == b[0] {
            lemma_lex_total(a.drop_first(), b.drop_first());
        } else {
            assert(a[0] as int != b[0] as int);
        }
    }
}

/// The order is transitive.
pub proof fn lemma_lex_transitive(a: Seq<char>, b: Seq<char>, c: Seq<char>)
    requires
        lex_le(a, b),
        lex_le(b, c),
    ensures
        lex_le(a, c),
    decreases a.len(),
{
    if a.len() > 0 && b.len() > 0 && c.len() > 0 && a[0] == b[0] && b[0] == c[0] {
        lemma_lex_transitive(a.drop_first(), b.drop_first(), c.drop_first());
    }
}

/// Whether the first string comes no later than the second, lexicographically.
pub fn str_le(a: &str, b: &str) -> (res: bool)
    ensures
        res == lex_le(a@, b@),
{
    let n = a.unicode_len();
    let m = b.unicode_len();
    let mut i: usize = 0;
    assert(a@.skip(0) =~= a@);
    assert(b@.skip(0) =~= b@);
    while i < n && i < m
        invariant
            n == a@.len(),
            m == b@.len(),
            i <= n,
            i <= m,
            lex_le(a@, b@) == lex_le(a@.skip(i as int), b@.skip(i as int)),
        decreases n - i,
    {
        let x = a.get_char(i);
        let y = b.get_char(i);
        proof {
            assert(a@.skip(i as int)[0] == x);
            assert(b@.skip(i as int)[0] == y);
            assert(a@.skip(i as int).drop_first() =~= a@.skip(i + 1));
            assert(b@.skip(i as int).drop_first() =~= b@.skip(i + 1));
        }
        if x != y {
            return x < y;
        }
        i = i + 1;
    }
    assert(a@.skip(i as int).len() == n - i);
    assert(b@.skip(i as int).len() == m - i);
    i == n
}

} // verus!
