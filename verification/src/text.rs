//! Textual forms: what a value looks like once it is written out as text.

use vstd::prelude::*;
use vstd::string::*;

verus! {

/// The character that writes the decimal digit `d`.
pub open spec fn digit_char(d: nat) -> char
    recommends
        d < 10,
{
    if d == 0 {
        '0'
    } else if d == 1 {
        '1'
    } else if d == 2 {
        '2'
    } else if d == 3 {
        '3'
    } else if d == 4 {
        '4'
    } else if d == 5 {
        '5'
    } else if d == 6 {
        '6'
    } else if d == 7 {
        '7'
    } else if d == 8 {
        '8'
    } else {
        '9'
    }
}

/// The decimal numeral of `n`: most significant digit first, and no leading
/// zero except for the numeral of zero itself.
pub open spec fn decimal(n: nat) -> Seq<char>
    decreases n,
{
    if n < 10 {
        seq![digit_char(n)]
    } else {
        decimal(n / 10).push(digit_char(n % 10))
    }
}

/// The decimal numeral of an integer: a minus sign before the numeral of the
/// magnitude when the integer is negative.
pub open spec fn signed_decimal(i: int) -> Seq<char> {
    if i < 0 {
        seq!['-'] + decimal((-i) as nat)
    } else {
        decimal(i as nat)
    }
}

/// The digit that the character `c` writes; zero for a character that writes
/// none.
pub open spec fn digit_value(c: char) -> nat {
    if c == '1' {
        1
    } else if c == '2' {
        2
    } else if c == '3' {
        3
    } else if c == '4' {
        4
    } else if c == '5' {
        5
    } else if c == '6' {
        6
    } else if c == '7' {
        7
    } else if c == '8' {
        8
    } else if c == '9' {
        9
    } else {
        0
    }
}

/// The number that a numeral writes, read digit by digit.
pub open spec fn numeral_value(s: Seq<char>) -> nat
    decreases s.len(),
{
    if s.len() == 0 {
        0
    } else {
        10 * numeral_value(s.drop_last()) + digit_value(s.last())
    }
}

/// `c` is one of the ten digits.
pub open spec fn is_digit(c: char) -> bool {
    digit_char(digit_value(c)) == c
}

/// The shape of a decimal numeral: it is never empty, it is made of digits
/// alone, and only the numeral of zero starts with a zero.
pub proof fn lemma_decimal_shape(n: nat)
    ensures
        decimal(n).len() >= 1,
        forall|i: int| 0 <= i < decimal(n).len() ==> is_digit(#[trigger] decimal(n)[i]),
        decimal(n)[0] == '0' <==> n == 0,
    decreases n,
{
    if n >= 10 {
        lemma_decimal_shape(n / 10);
    }
}

/// Reading the decimal numeral of a number gives the number back.
pub proof fn lemma_decimal_reads_back(n: nat)
    ensures
        numeral_value(decimal(n)) == n,
    decreases n,
{
    let s = decimal(n);
    if n < 10 {
        assert(s.drop_last() =~= Seq::<char>::empty());
        assert(numeral_value(s.drop_last()) == 0);
        assert(digit_value(s.last()) == n);
    } else {
        lemma_decimal_reads_back(n / 10);
        assert(s.drop_last() =~= decimal(n / 10));
        assert(digit_value(s.last()) == n % 10);
    }
}

/// Two numbers with the same decimal numeral are the same number.
pub proof fn lemma_decimal_injective(a: nat, b: nat)
    requires
        decimal(a) == decimal(b),
    ensures
        a == b,
{
    lemma_decimal_reads_back(a);
    lemma_decimal_reads_back(b);
}

/// Two integers with the same decimal numeral are the same integer.
pub proof fn lemma_signed_decimal_injective(i: int, j: int)
    requires
        signed_decimal(i) == signed_decimal(j),
    ensures
        i == j,
{
    let a = if i < 0 { (-i) as nat } else { i as nat };
    let b = if j < 0 { (-j) as nat } else { j as nat };
    lemma_decimal_shape(a);
    lemma_decimal_shape(b);
    assert(is_digit(decimal(a)[0]) && is_digit(decimal(b)[0]));
    assert((i < 0) == (signed_decimal(i)[0] == '-'));
    assert((j < 0) == (signed_decimal(j)[0] == '-'));
    if i < 0 {
        assert(decimal(a) =~= signed_decimal(i).subrange(1, signed_decimal(i).len() as int));
        assert(decimal(b) =~= signed_decimal(j).subrange(1, signed_decimal(j).len() as int));
    }
    lemma_decimal_injective(a, b);
}

fn digit_str(d: u8) -> (s: &'static str)
    requires
        d < 10,
    ensures
        s@ == seq![digit_char(d as nat)],
{
    proof {
        reveal_strlit("0");
        reveal_strlit("1");
        reveal_strlit("2");
        reveal_strlit("3");
        reveal_strlit("4");
        reveal_strlit("5");
        reveal_strlit("6");
        reveal_strlit("7");
        reveal_strlit("8");
        reveal_strlit("9");
    }
    match d {
        0 => "0",
        1 => "1",
        2 => "2",
        3 => "3",
        4 => "4",
        5 => "5",
        6 => "6",
        7 => "7",
        8 => "8",
        _ => "9",
    }
}

/// Writes `n` in decimal.
pub fn unsigned_to_text(n: u128) -> (s: String)
    ensures
        s@ == decimal(n as nat),
    decreases n,
{
    if n < 10 {
        digit_str(n as u8).to_owned()
    } else {
        let mut s = unsigned_to_text(n / 10);
        s.append(digit_str((n % 10) as u8));
        s
    }
}

/// Writes `i` in decimal, with a minus sign when it is negative.
pub fn signed_to_text(i: i128) -> (s: String)
    ensures
        s@ == signed_decimal(i as int),
{
    if i < 0 {
        // `-i` does not fit in `i128` for the least value, so take the
        // magnitude one step away from it.
        let magnitude: u128 = (-(i + 1)) as u128 + 1;
        let digits = unsigned_to_text(magnitude);
        proof {
            reveal_strlit("-");
            assert("-"@ =~= seq!['-']);
        }
        "-".to_owned().concat(digits.as_str())
    } else {
        unsigned_to_text(i as u128)
    }
}

/// A value that has a textual form.
///
/// The form is fixed by the value alone: `text` says what it is, and `to_text`
/// writes it out.
pub trait Textual {
    /// The textual form of the value.
    spec fn text(&self) -> Seq<char>;

    /// Writes the value out as text.
    fn to_text(&self) -> (s: String)
        ensures
            s@ == self.text(),
    ;
}

/// Text is its own textual form.
impl Textual for str {
    open spec fn text(&self) -> Seq<char> {
        self@
    }

    fn to_text(&self) -> (s: String) {
        self.to_owned()
    }
}

/// Text is its own textual form.
impl Textual for String {
    open spec fn text(&self) -> Seq<char> {
        self@
    }

    fn to_text(&self) -> (s: String) {
        self.clone()
    }
}

/// A reference has the textual form of what it refers to.
impl<T: Textual + ?Sized> Textual for &T {
    open spec fn text(&self) -> Seq<char> {
        (**self).text()
    }

    fn to_text(&self) -> (s: String) {
        (**self).to_text()
    }
}

/// A truth value is written `true` or `false`.
impl Textual for bool {
    open spec fn text(&self) -> Seq<char> {
        if *self {
            "true"@
        } else {
            "false"@
        }
    }

    fn to_text(&self) -> (s: String) {
        if *self {
            "true".to_owned()
        } else {
            "false".to_owned()
        }
    }
}

/// An unsigned integer is written in decimal.
impl Textual for u8 {
    open spec fn text(&self) -> Seq<char> {
        decimal(*self as nat)
    }

    fn to_text(&self) -> (s: String) {
        unsigned_to_text(*self as u128)
    }
}

/// An unsigned integer is written in decimal.
impl Textual for u16 {
    open spec fn text(&self) -> Seq<char> {
        decimal(*self as nat)
    }

    fn to_text(&self) -> (s: String) {
        unsigned_to_text(*self as u128)
    }
}

/// An unsigned integer is written in decimal.
impl Textual for u32 {
    open spec fn text(&self) -> Seq<char> {
        decimal(*self as nat)
    }

    fn to_text(&self) -> (s: String) {
        unsigned_to_text(*self as u128)
    }
}

/// An unsigned integer is written in decimal.
impl Textual for u64 {
    open spec fn text(&self) -> Seq<char> {
        decimal(*self as nat)
    }

    fn to_text(&self) -> (s: String) {
        unsigned_to_text(*self as u128)
    }
}

/// An unsigned integer is written in decimal.
impl Textual for u128 {
    open spec fn text(&self) -> Seq<char> {
        decimal(*self as nat)
    }

    fn to_text(&self) -> (s: String) {
        unsigned_to_text(*self as u128)
    }
}

/// An unsigned integer is written in decimal.
impl Textual for usize {
    open spec fn text(&self) -> Seq<char> {
        decimal(*self as nat)
    }

    fn to_text(&self) -> (s: String) {
        unsigned_to_text(*self as u128)
    }
}

/// A signed integer is written in decimal, with a minus sign when negative.
impl Textual for i8 {
    open spec fn text(&self) -> Seq<char> {
        signed_decimal(*self as int)
    }

    fn to_text(&self) -> (s: String) {
        signed_to_text(*self as i128)
    }
}

/// A signed integer is written in decimal, with a minus sign when negative.
impl Textual for i16 {
    open spec fn text(&self) -> Seq<char> {
        signed_decimal(*self as int)
    }

    fn to_text(&self) -> (s: String) {
        signed_to_text(*self as i128)
    }
}

/// A signed integer is written in decimal, with a minus sign when negative.
impl Textual for i32 {
    open spec fn text(&self) -> Seq<char> {
        signed_decimal(*self as int)
    }

    fn to_text(&self) -> (s: String) {
        signed_to_text(*self as i128)
    }
}

/// A signed integer is written in decimal, with a minus sign when negative.
impl Textual for i64 {
    open spec fn text(&self) -> Seq<char> {
        signed_decimal(*self as int)
    }

    fn to_text(&self) -> (s: String) {
        signed_to_text(*self as i128)
    }
}

/// A signed integer is written in decimal, with a minus sign when negative.
impl Textual for i128 {
    open spec fn text(&self) -> Seq<char> {
        signed_decimal(*self as int)
    }

    fn to_text(&self) -> (s: String) {
        signed_to_text(*self as i128)
    }
}

/// A signed integer is written in decimal, with a minus sign when negative.
impl Textual for isize {
    open spec fn text(&self) -> Seq<char> {
        signed_decimal(*self as int)
    }

    fn to_text(&self) -> (s: String) {
        signed_to_text(*self as i128)
    }
}

} // verus!
