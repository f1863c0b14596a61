//! Decimal numerals, as they appear in socket addresses and messages.
use vstd::prelude::*;
use vstd::string::*;

verus! {

/// The character of the digit `d`.
pub open spec fn digit_char(d: nat) -> char {
    (48 + d) as char
}

/// The decimal numeral of `n`, most significant digit first, without leading zeros.
pub open spec fn decimal(n: nat) -> Seq<char>
    decreases n,
{
    if n < 10 {
        seq![digit_char(n)]
    } else {
        decimal(n / 10).push(digit_char(n % 10))
    }
}

/// The decimal numeral of `i`, with a minus sign where `i` is negative.
pub open spec fn signed_decimal(i: int) -> Seq<char> {
    if i < 0 {
        seq!['-'] + decimal((-i) as nat)
    } else {
        decimal(i as nat)
    }
}

/// The number that a sequence of digits stands for, in base ten.
pub open spec fn decimal_value(s: Seq<char>) -> nat
    decreases s.len(),
{
    if s.len() == 0 {
        0
    } else {
        decimal_value(s.drop_last()) * 10 + (s.last() as nat - 48) as nat
    }
}

fn digit_str(d: u64) -> (s: &'static str)
    requires
        d < 10,
    ensures
        s@ == seq![digit_char(d as nat)],
{
    proof {
        reveal_strlit("0");
        reveal_strlit("1");
        reveal_strlit("2");
        reveal_strlit("3");
        reveal_strlit("4");
        reveal_strlit("5");
        reveal_strlit("6");
        reveal_strlit("7");
        reveal_strlit("8");
        reveal_strlit("9");
    }
    let s = match d {
        0 => "0",
        1 => "1",
        2 => "2",
        3 => "3",
        4 => "4",
        5 => "5",
        6 => "6",
        7 => "7",
        8 => "8",
        _ => "9",
    };
    assert(s@ =~= seq![digit_char(d as nat)]);
    s
}

/// Appends the decimal numeral of `n`.
pub fn push_decimal(out: &mut String, n: u64)
    ensures
        final(out)@ == old(out)@ + decimal(n as nat),
    decreases n,
{
    if n >= 10 {
        push_decimal(out, n / 10);
    }
    out.append(digit_str(n % 10));
    assert(out@ =~= old(out)@ + decimal(n as nat));
}

/// Appends the decimal numeral of `i`, with a minus sign where it is negative.
pub fn push_signed_decimal(out: &mut String, i: i64)
    ensures
        final(out)@ == old(out)@ + signed_decimal(i as int),
{
    if i < 0 {
        proof {
            reveal_strlit("-");
        }
        out.append("-");
        let magnitude: u64 = (-(i + 1)) as u64 + 1;
        push_decimal(out, magnitude);
        assert(out@ =~= old(out)@ + signed_decimal(i as int));
    } else {
        push_decimal(out, i as u64);
    }
}

/// The decimal numeral of `n` as a text of its own.
pub fn decimal_text(n: u64) -> (text: String)
    ensures
        text@ == decimal(n as nat),
{
    let mut text = String::new();
    push_decimal(&mut text, n);
    assert(text@ =~= decimal(n as nat));
    text
}

/// A decimal numeral is never empty and holds digits only, so it holds no NUL and no colon.
pub proof fn decimal_holds_digits(n: nat)
    ensures
        decimal(n).len() > 0,
        forall|i: int| 0 <= i < decimal(n).len() ==> '0' <= #[trigger] decimal(n)[i] <= '9',
    decreases n,
{
    if n >= 10 {
        decimal_holds_digits(n / 10);
    }
}

/// A numeral of several digits does not begin with a zero.
pub proof fn decimal_has_no_leading_zero(n: nat)
    ensures
        decimal(n).len() > 1 ==> decimal(n)[0] != '0',
        n > 0 ==> decimal(n)[0] != '0',
    decreases n,
{
    if n >= 10 {
        decimal_has_no_leading_zero(n / 10);
        decimal_holds_digits(n / 10);
        assert(decimal(n)[0] == decimal(n / 10)[0]);
    }
}

/// Decimal notation is positional: a number below ten is written as the one digit that comes
/// that many places after zero, and one more digit at the end makes ten times the number, and
/// the digit.
pub proof fn decimal_is_positional(n: nat, d: nat)
    requires
        d < 10,
    ensures
        decimal(d).len() == 1,
        decimal(d)[0] as int == '0' as int + d,
        n > 0 ==> decimal(n * 10 + d) == decimal(n) + decimal(d),
{
    if n > 0 {
        assert((n * 10 + d) / 10 == n && (n * 10 + d) % 10 == d);
        assert(decimal(n * 10 + d) =~= decimal(n) + decimal(d));
    }
}

/// Digits are read by their place: none stand for zero, and one more digit at the end makes ten
/// times the number, and the digit.
pub proof fn digits_are_read_by_place(s: Seq<char>, digit: char)
    requires
        '0' <= digit <= '9',
    ensures
        decimal_value(Seq::empty()) == 0,
        decimal_value(s.push(digit)) == decimal_value(s) * 10 + (digit as int - '0' as int),
{
    assert(s.push(digit).drop_last() =~= s);
}

/// Whether `s` is how the natural number `n` is written: digits only, no zero in front of other
/// digits, standing for `n`.
pub open spec fn is_numeral_of(s: Seq<char>, n: nat) -> bool {
    &&& s.len() > 0
    &&& forall|i: int| 0 <= i < s.len() ==> '0' <= #[trigger] s[i] <= '9'
    &&& s.len() > 1 ==> s[0] != '0'
    &&& decimal_value(s) == n
}

/// Whether `s` is how the integer `i` is written: a minus sign in front where it is negative,
/// then the numeral of its magnitude.
pub open spec fn is_signed_numeral_of(s: Seq<char>, i: int) -> bool {
    if i < 0 {
        s.len() > 0 && s[0] == '-' && is_numeral_of(s.skip(1), (-i) as nat)
    } else {
        is_numeral_of(s, i as nat)
    }
}

/// A number is written as its numeral, and numerals of different numbers differ.
pub proof fn decimal_is_a_numeral(n: nat, m: nat)
    ensures
        is_numeral_of(decimal(n), n),
        n != m ==> decimal(n) != decimal(m),
{
    decimal_holds_digits(n);
    decimal_has_no_leading_zero(n);
    decimal_reads_back(n);
    decimal_reads_back(m);
}

/// An integer is written as its signed numeral, and those of different integers differ.
pub proof fn signed_decimal_is_a_signed_numeral(i: int, j: int)
    ensures
        is_signed_numeral_of(signed_decimal(i), i),
        i != j ==> signed_decimal(i) != signed_decimal(j),
{
    let m: nat = (if i < 0 { -i } else { i }) as nat;
    let n: nat = (if j < 0 { -j } else { j }) as nat;
    decimal_is_a_numeral(m, n);
    decimal_is_a_numeral(n, m);
    if i < 0 {
        assert(signed_decimal(i).skip(1) =~= decimal(m));
    }
    if j < 0 {
        assert(signed_decimal(j).skip(1) =~= decimal(n));
    }
}

/// Reading a decimal numeral gives back the number it was made from.
pub proof fn decimal_reads_back(n: nat)
    ensures
        decimal_value(decimal(n)) == n,
    decreases n,
{
    reveal_with_fuel(decimal_value, 2);
    if n < 10 {
        assert(seq![digit_char(n)].drop_last() =~= Seq::<char>::empty());
    } else {
        decimal_reads_back(n / 10);
        assert(decimal(n).drop_last() =~= decimal(n / 10));
    }
}

} // verus!
