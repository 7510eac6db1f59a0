//! Non-negative decimal readings, kept exact as a numerator over a
//! denominator.
//!
//! A reading is written as decimal digits with at most one point among them:
//! `15916.4`, `80`, `.5` and `7.` are numerals, while the empty text, a lone
//! point, a sign or an exponent are not. A numeral has at most
//! [`MAX_DIGITS`] digits, so that sums and products of readings fit the
//! machine integers that hold them.

use vstd::prelude::*;
use crate::text::{piece_end, lemma_piece_end};

verus! {

/// The point that separates the integer digits of a numeral from its
/// fraction digits.
pub const POINT: u8 = 0x2e;

/// The most digits a numeral may have.
pub const MAX_DIGITS: usize = 18;

/// Ten to the power [`MAX_DIGITS`]: every reading has a numerator below it
/// and a denominator of at most it.
pub const READING_LIMIT: u128 = 1_000_000_000_000_000_000;

/// A non-negative rational number, `numerator / denominator`. It is kept as
/// written: `800 / 1024` is not reduced to `25 / 32`.
#[derive(Clone, Copy, Debug, PartialEq, Eq)]
pub struct Quantity {
    pub numerator: u128,
    pub denominator: u128,
}

/// `b` is a decimal digit.
pub open spec fn is_digit(b: u8) -> bool {
    0x30 <= b && b <= 0x39
}

/// Every byte of `s` is a decimal digit.
pub open spec fn all_digits(s: Seq<u8>) -> bool {
    forall|i: int| 0 <= i < s.len() ==> is_digit(#[trigger] s[i])
}

/// The number that the decimal digits `s` write; zero for no digits.
pub open spec fn digits_value(s: Seq<u8>) -> nat
    decreases s.len(),
{
    if s.len() == 0 {
        0
    } else {
        digits_value(s.drop_last()) * 10 + (s.last() - 0x30) as nat
    }
}

/// Ten to the power `n`.
pub open spec fn pow10(n: nat) -> nat
    decreases n,
{
    if n == 0 {
        1
    } else {
        10 * pow10((n - 1) as nat)
    }
}

/// The digits of `s` before its first point; all of `s` when it has none.
pub open spec fn integer_digits(s: Seq<u8>) -> Seq<u8> {
    s.take(piece_end(s, POINT, 0))
}

/// The bytes of `s` after its first point; none when it has no point.
pub open spec fn fraction_digits(s: Seq<u8>) -> Seq<u8> {
    if piece_end(s, POINT, 0) < s.len() {
        s.skip(piece_end(s, POINT, 0) + 1)
    } else {
        Seq::empty()
    }
}

/// `s` is a numeral: digits with at most one point among them, at least one
/// digit and at most [`MAX_DIGITS`].
pub open spec fn is_numeral(s: Seq<u8>) -> bool {
    &&& all_digits(integer_digits(s))
    &&& all_digits(fraction_digits(s))
    &&& 1 <= integer_digits(s).len() + fraction_digits(s).len() <= MAX_DIGITS
}

/// The reading that the numeral `s` writes: its digits read as one integer,
/// over ten to the number of fraction digits.
pub open spec fn numeral_value(s: Seq<u8>) -> Quantity {
    Quantity {
        numerator: digits_value(integer_digits(s) + fraction_digits(s)) as u128,
        denominator: pow10(fraction_digits(s).len()) as u128,
    }
}

/// What a field that should hold a numeral is read as: its value, or nothing
/// when it is no numeral.
pub open spec fn reading_of(s: Seq<u8>) -> Option<Quantity> {
    if is_numeral(s) {
        Some(numeral_value(s))
    } else {
        None
    }
}

impl Quantity {
    /// The denominator is not zero.
    pub open spec fn wf(self) -> bool {
        self.denominator > 0
    }

    /// The quantity is within the range of what a numeral can write.
    pub open spec fn is_reading(self) -> bool {
        &&& self.numerator < READING_LIMIT
        &&& 0 < self.denominator <= READING_LIMIT
    }

    /// Zero, written as nought over one.
    pub open spec fn spec_zero() -> Quantity {
        Quantity { numerator: 0, denominator: 1 }
    }

    /// `self` divided by `divisor`.
    pub open spec fn spec_divided_by(self, divisor: u32) -> Quantity {
        Quantity {
            numerator: self.numerator,
            denominator: (self.denominator * divisor) as u128,
        }
    }

    /// `self` as a percentage of `whole`, and zero where `whole` is zero.
    pub open spec fn spec_percent_of(self, whole: Quantity) -> Quantity {
        if whole.numerator > 0 {
            Quantity {
                numerator: (self.numerator * whole.denominator * 100) as u128,
                denominator: (self.denominator * whole.numerator) as u128,
            }
        } else {
            Quantity::spec_zero()
        }
    }

    /// Zero.
    pub fn zero() -> (q: Quantity)
        ensures
            q == Quantity::spec_zero(),
            q.is_reading(),
    {
        Quantity { numerator: 0, denominator: 1 }
    }

    /// `self` divided by `divisor`.
    pub fn divided_by(&self, divisor: u32) -> (q: Quantity)
        requires
            self.is_reading(),
            divisor > 0,
        ensures
            q == self.spec_divided_by(divisor),
            q.wf(),
            q.numerator == self.numerator,
            q.denominator == self.denominator * divisor,
    {
        assert(self.denominator * divisor <= READING_LIMIT * 0x1_0000_0000) by (nonlinear_arith)
            requires
                self.denominator <= READING_LIMIT,
                divisor < 0x1_0000_0000,
        ;
        assert(self.denominator * divisor > 0) by (nonlinear_arith)
            requires
                self.denominator > 0,
                divisor > 0,
        ;
        Quantity { numerator: self.numerator, denominator: self.denominator * (divisor as u128) }
    }

    /// `self` as a percentage of `whole`: a hundred times `self` over
    /// `whole`, and zero where `whole` is zero.
    pub fn percent_of(&self, whole: &Quantity) -> (q: Quantity)
        requires
            self.is_reading(),
            whole.is_reading(),
        ensures
            q == self.spec_percent_of(*whole),
            q.wf(),
            whole.numerator > 0 ==> q.numerator == self.numerator * whole.denominator * 100
                && q.denominator == self.denominator * whole.numerator,
            whole.numerator == 0 ==> q == Quantity::spec_zero(),
    {
        if whole.numerator > 0 {
            assert(self.numerator * whole.denominator <= READING_LIMIT * READING_LIMIT)
                by (nonlinear_arith)
                requires
                    self.numerator < READING_LIMIT,
                    whole.denominator <= READING_LIMIT,
            ;
            assert(self.denominator * whole.numerator <= READING_LIMIT * READING_LIMIT)
                by (nonlinear_arith)
                requires
                    self.denominator <= READING_LIMIT,
                    whole.numerator < READING_LIMIT,
            ;
            assert(self.denominator * whole.numerator > 0) by (nonlinear_arith)
                requires
                    self.denominator > 0,
                    whole.numerator > 0,
            ;
            Quantity {
                numerator: self.numerator * whole.denominator * 100,
                denominator: self.denominator * whole.numerator,
            }
        } else {
            Quantity { numerator: 0, denominator: 1 }
        }
    }
}

/// Appending one digit multiplies the value by ten and adds the digit.
pub proof fn lemma_digits_value_push(s: Seq<u8>, d: u8)
    requires
        is_digit(d),
    ensures
        digits_value(s.push(d)) == digits_value(s) * 10 + (d - 0x30),
{
    assert(s.push(d).drop_last() =~= s);
}

/// Powers of ten grow with the exponent, and the largest that a numeral
/// reaches is [`READING_LIMIT`].
pub proof fn lemma_pow10_bound(n: nat)
    requires
        n <= MAX_DIGITS,
    ensures
        0 < pow10(n) <= READING_LIMIT,
        pow10(MAX_DIGITS as nat) == READING_LIMIT,
    decreases MAX_DIGITS - n,
{
    if n < MAX_DIGITS {
        lemma_pow10_bound(n + 1);
    } else {
        reveal_with_fuel(pow10, 19);
    }
}

/// Whether `b` is a decimal digit.
pub fn is_digit_byte(b: u8) -> (digit: bool)
    ensures
        digit == is_digit(b),
{
    0x30 <= b && b <= 0x39
}

/// Reads `data` as a numeral.
///
/// Returns the reading when `data` is a numeral and `None` when it is not.
pub fn parse_numeral(data: &[u8]) -> (reading: Option<Quantity>)
    ensures
        reading == reading_of(data@),
        reading is Some <==> is_numeral(data@),
        reading is Some ==> reading->0.is_reading(),
{
    let len: usize = data.len();
    let ghost s = data@;
    let mut numerator: u128 = 0;
    let mut denominator: u128 = 1;
    let mut digits: usize = 0;
    let mut seen_point: bool = false;
    let ghost mut point: int = 0;
    let mut i: usize = 0;
    proof {
        lemma_piece_end(s, POINT, 0);
        lemma_pow10_bound(0);
        assert(s.take(0) =~= Seq::<u8>::empty());
    }
    while i < len
        invariant
            s == data@,
            len == s.len(),
            i <= len,
            digits <= MAX_DIGITS,
            !seen_point ==> {
                &&& digits == i
                &&& all_digits(s.take(i as int))
                &&& numerator == digits_value(s.take(i as int))
                &&& denominator == 1
            },
            seen_point ==> {
                &&& 0 <= point < i
                &&& point == piece_end(s, POINT, 0)
                &&& digits == i - 1
                &&& all_digits(s.take(point))
                &&& all_digits(s.subrange(point + 1, i as int))
                &&& numerator == digits_value(s.take(point) + s.subrange(point + 1, i as int))
                &&& denominator == pow10((i - point - 1) as nat)
            },
            numerator < pow10(digits as nat),
            0 < denominator <= READING_LIMIT,
        decreases len - i,
    {
        let b: u8 = data[i];
        proof {
            lemma_piece_end(s, POINT, 0);
        }
        if b == POINT {
            if seen_point {
                proof {
                    assert(fraction_digits(s)[i - point - 1] == s[i as int]);
                    assert(!is_digit(fraction_digits(s)[i - point - 1]));
                }
                return None;
            }
            proof {
                point = i as int;
                let end = piece_end(s, POINT, 0);
                if end < point {
                    assert(s.take(i as int)[end] == s[end]);
                    assert(is_digit(s.take(i as int)[end]));
                }
                assert(s.subrange(point + 1, i + 1) =~= Seq::<u8>::empty());
                assert(s.take(point) + s.subrange(point + 1, i + 1) =~= s.take(i as int));
            }
            seen_point = true;
        } else if is_digit_byte(b) {
            if digits == MAX_DIGITS {
                proof {
                    if seen_point {
                        assert(integer_digits(s).len() + fraction_digits(s).len() == len - 1);
                    } else {
                        let end = piece_end(s, POINT, 0);
                        if end < i {
                            assert(s.take(i as int)[end] == s[end]);
                            assert(is_digit(s.take(i as int)[end]));
                        }
                        assert(end > i);
                    }
                }
                return None;
            }
            proof {
                lemma_pow10_bound(digits as nat);
                lemma_pow10_bound((digits + 1) as nat);
                if seen_point {
                    let before = s.take(point) + s.subrange(point + 1, i as int);
                    assert(before.push(b) =~= s.take(point) + s.subrange(point + 1, i + 1));
                    lemma_digits_value_push(before, b);
                    lemma_pow10_bound((i - point - 1) as nat);
                    lemma_pow10_bound((i - point) as nat);
                    let fraction = s.subrange(point + 1, i + 1);
                    assert forall|k: int| 0 <= k < fraction.len() implies is_digit(
                        #[trigger] fraction[k],
                    ) by {
                        if k < i - point - 1 {
                            assert(s.subrange(point + 1, i as int)[k] == s[point + 1 + k]);
                        }
                    }
                } else {
                    assert(s.take(i as int).push(b) =~= s.take(i + 1));
                    lemma_digits_value_push(s.take(i as int), b);
                    assert forall|k: int| 0 <= k < s.take(i + 1).len() implies is_digit(
                        #[trigger] s.take(i + 1)[k],
                    ) by {
                        if k < i {
                            assert(s.take(i as int)[k] == s[k]);
                        }
                    }
                }
                assert(numerator * 10 + (b - 0x30) < pow10((digits + 1) as nat));
            }
            numerator = numerator * 10 + ((b - 0x30) as u128);
            if seen_point {
                denominator = denominator * 10;
            }
            digits += 1;
        } else {
            proof {
                if seen_point {
                    assert(fraction_digits(s)[i - point - 1] == s[i as int]);
                } else {
                    let end = piece_end(s, POINT, 0);
                    if end < i {
                        assert(s.take(i as int)[end] == s[end]);
                        assert(is_digit(s.take(i as int)[end]));
                    }
                    assert(end > i);
                    assert(integer_digits(s)[i as int] == s[i as int]);
                }
            }
            return None;
        }
        i += 1;
    }
    proof {
        lemma_piece_end(s, POINT, 0);
        lemma_pow10_bound(digits as nat);
        if seen_point {
            assert(s.subrange(point + 1, len as int) =~= fraction_digits(s));
        } else {
            let end = piece_end(s, POINT, 0);
            if end < len {
                assert(s.take(len as int)[end] == s[end]);
                assert(is_digit(s.take(len as int)[end]));
            }
            assert(s.take(len as int) =~= s);
            assert(integer_digits(s) =~= s);
            assert(integer_digits(s) + fraction_digits(s) =~= s);
        }
    }
    if digits == 0 {
        return None;
    }
    Some(Quantity { numerator, denominator })
}

} // verus!
