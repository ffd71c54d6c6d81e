use crate::error::TxError;
use crate::wire::be_value;
use vstd::prelude::*;

verus! {

/// 10 to the power `n`.
pub open spec fn pow10(n: nat) -> nat
    decreases n,
{
    if n == 0 {
        1
    } else {
        10 * pow10((n - 1) as nat)
    }
}

/// A power of ten is positive.
pub proof fn lemma_pow10_positive(n: nat)
    ensures
        pow10(n) > 0,
    decreases n,
{
    if n > 0 {
        lemma_pow10_positive((n - 1) as nat);
    }
}

/// Exponents add where powers multiply.
pub proof fn lemma_pow10_adds(a: nat, b: nat)
    ensures
        pow10(a + b) == pow10(a) * pow10(b),
    decreases a,
{
    if a > 0 {
        lemma_pow10_adds((a - 1) as nat, b);
        let rest = pow10((a - 1) as nat);
        let other = pow10(b);
        assert(pow10(a + b) == 10 * pow10((a + b - 1) as nat));
        assert(10 * (rest * other) == (10 * rest) * other) by (nonlinear_arith);
    } else {
        assert(pow10(a) * pow10(b) == pow10(b)) by (nonlinear_arith)
            requires
                pow10(a) == 1,
        ;
    }
}

/// A higher power of ten is no smaller.
pub proof fn lemma_pow10_monotone(a: nat, b: nat)
    requires
        a <= b,
    ensures
        pow10(a) <= pow10(b),
{
    lemma_pow10_adds(a, (b - a) as nat);
    lemma_pow10_positive(a);
    lemma_pow10_positive((b - a) as nat);
    let low = pow10(a);
    let factor = pow10((b - a) as nat);
    assert(low <= low * factor) by (nonlinear_arith)
        requires
            low > 0,
            factor >= 1,
    ;
}

/// A number whose last decimal digit is not zero, followed by `done`
/// zeros, is no multiple of a higher power of ten.
pub proof fn lemma_fraction_remains(digits: nat, done: nat, scale: nat)
    requires
        digits % 10 != 0,
        done < scale,
    ensures
        (digits * pow10(done)) % pow10(scale) != 0,
{
    let low = pow10(done);
    let rest = pow10((scale - done - 1) as nat);
    let high = pow10(scale);
    lemma_pow10_positive(done);
    lemma_pow10_positive(scale);
    lemma_pow10_adds(done, (scale - done) as nat);
    assert(pow10((scale - done) as nat) == 10 * rest);
    assert(high == low * (10 * rest));
    let whole = digits * low;
    if whole % high == 0 {
        let times = whole / high;
        assert(whole == high * times) by (nonlinear_arith)
            requires
                high > 0,
                whole % high == 0,
                times == whole / high,
        ;
        assert(digits == 10 * (rest * times)) by (nonlinear_arith)
            requires
                digits * low == (low * (10 * rest)) * times,
                low > 0,
        ;
        assert(digits % 10 == 0) by (nonlinear_arith)
            requires
                digits == 10 * (rest * times),
        ;
    }
}

/// A number followed by `scale` zeros is a multiple of that power of ten,
/// and dividing gives the number back.
pub proof fn lemma_whole_multiple(digits: nat, scale: nat)
    ensures
        (digits * pow10(scale)) % pow10(scale) == 0,
        (digits * pow10(scale)) / pow10(scale) == digits,
{
    lemma_pow10_positive(scale);
    let high = pow10(scale);
    assert((digits * high) % high == 0 && (digits * high) / high == digits) by (nonlinear_arith)
        requires
            high > 0,
    ;
}

/// A prefix of a digit string spells no more than the whole string.
pub proof fn lemma_be_value_prefix(bytes: Seq<u8>, upto: int)
    requires
        0 <= upto <= bytes.len(),
    ensures
        be_value(bytes.subrange(0, upto)) <= be_value(bytes),
    decreases bytes.len(),
{
    if upto == bytes.len() {
        assert(bytes.subrange(0, upto) =~= bytes);
    } else {
        lemma_be_value_prefix(bytes.drop_last(), upto);
        assert(bytes.drop_last().subrange(0, upto) =~= bytes.subrange(0, upto));
    }
}

/// One more digit: the value so far moves up one place.
pub proof fn lemma_be_value_step(bytes: Seq<u8>, upto: int)
    requires
        0 <= upto < bytes.len(),
    ensures
        be_value(bytes.subrange(0, upto + 1)) == be_value(bytes.subrange(0, upto)) * 256
            + bytes[upto] as nat,
{
    let longer = bytes.subrange(0, upto + 1);
    assert(longer.drop_last() =~= bytes.subrange(0, upto));
    assert(longer.last() == bytes[upto]);
}

/// Whether the digits spell zero.
fn is_zero(digits: &[u8]) -> (zero: bool)
    ensures
        zero == (be_value(digits@) == 0),
{
    let mut i: usize = 0;
    while i < digits.len()
        invariant
            i <= digits.len(),
            be_value(digits@.subrange(0, i as int)) == 0,
        decreases digits.len() - i,
    {
        proof {
            lemma_be_value_step(digits@, i as int);
        }
        if digits[i] != 0 {
            proof {
                lemma_be_value_prefix(digits@, i + 1);
            }
            return false;
        }
        i = i + 1;
    }
    assert(digits@.subrange(0, digits.len() as int) =~= digits@);
    true
}

/// The number that the digits spell, where it fits in 128 bits.
fn small_value(digits: &[u8]) -> (value: Option<u128>)
    ensures
        match value {
            Some(v) => v == be_value(digits@),
            None => be_value(digits@) > u128::MAX,
        },
{
    let mut acc: u128 = 0;
    let mut i: usize = 0;
    while i < digits.len()
        invariant
            i <= digits.len(),
            acc == be_value(digits@.subrange(0, i as int)),
        decreases digits.len() - i,
    {
        proof {
            lemma_be_value_step(digits@, i as int);
            lemma_be_value_prefix(digits@, i + 1);
        }
        if acc > u128::MAX / 256 {
            return None;
        }
        acc = acc * 256 + digits[i] as u128;
        i = i + 1;
    }
    assert(digits@.subrange(0, digits.len() as int) =~= digits@);
    Some(acc)
}

/// Long division of the digits by ten: the quotient's digits and the
/// remainder.
fn divide_by_ten(digits: &[u8]) -> (out: (Vec<u8>, u8))
    ensures
        be_value(out.0@) * 10 + out.1 == be_value(digits@),
        out.1 < 10,
{
    let mut quotient: Vec<u8> = Vec::new();
    let mut carry: u8 = 0;
    let mut i: usize = 0;
    while i < digits.len()
        invariant
            i <= digits.len(),
            carry < 10,
            be_value(quotient@) * 10 + carry == be_value(digits@.subrange(0, i as int)),
        decreases digits.len() - i,
    {
        let current: u16 = carry as u16 * 256 + digits[i] as u16;
        let ghost before = quotient@;
        quotient.push((current / 10) as u8);
        proof {
            lemma_be_value_step(digits@, i as int);
            assert(quotient@.drop_last() =~= before);
        }
        carry = (current % 10) as u8;
        i = i + 1;
    }
    assert(digits@.subrange(0, digits.len() as int) =~= digits@);
    (quotient, carry)
}

/// An amount as an arbitrary-precision decimal: the unscaled digits, a
/// base-256 number with the most significant byte first, divided by ten to
/// the power `scale`, and negated where `negative` is set.
#[derive(Clone, Debug, PartialEq, Eq)]
pub struct Amount {
    pub negative: bool,
    pub magnitude: Vec<u8>,
    pub scale: i64,
}

impl Amount {
    /// The unscaled digits as a number.
    pub open spec fn unscaled(&self) -> nat {
        be_value(self.magnitude@)
    }

    /// The integer that the amount equals, where it equals one that is not
    /// negative.
    pub open spec fn integer_value(&self) -> Option<nat> {
        let digits = self.unscaled();
        if digits == 0 {
            Some(0)
        } else if self.negative {
            None
        } else if self.scale <= 0 {
            Some(digits * pow10((-self.scale) as nat))
        } else if digits % pow10(self.scale as nat) == 0 {
            Some(digits / pow10(self.scale as nat))
        } else {
            None
        }
    }

    /// The amount as a withdrawal encodes it: an unsigned integer of 128
    /// bits. An amount with a fractional part, a negative one and one that
    /// needs more bits are out of range.
    pub open spec fn withdrawal_amount(&self) -> Result<u128, TxError> {
        match self.integer_value() {
            Some(value) => if value <= u128::MAX {
                Ok(value as u128)
            } else {
                Err(TxError::AmountOutOfRange)
            },
            None => Err(TxError::AmountOutOfRange),
        }
    }

    /// The amount as the unsigned integer that a withdrawal encodes, or
    /// `AmountOutOfRange`. Nothing is rounded or cut.
    pub fn to_integer(&self) -> (converted: Result<u128, TxError>)
        ensures
            converted == self.withdrawal_amount(),
    {
        if is_zero(self.magnitude.as_slice()) {
            return Ok(0);
        }
        if self.negative {
            return Err(TxError::AmountOutOfRange);
        }
        let ghost unscaled = self.unscaled();
        if self.scale <= 0 {
            let ghost zeros = (-self.scale) as nat;
            let mut value: u128 = match small_value(self.magnitude.as_slice()) {
                Some(value) => value,
                None => {
                    proof {
                        lemma_pow10_positive(zeros);
                        let factor = pow10(zeros);
                        assert(unscaled <= unscaled * factor) by (nonlinear_arith)
                            requires
                                factor >= 1,
                        ;
                    }
                    return Err(TxError::AmountOutOfRange);
                },
            };
            let mut left: i64 = self.scale;
            proof {
                assert(unscaled * pow10(0) == unscaled) by (nonlinear_arith)
                    requires
                        pow10(0) == 1,
                ;
            }
            while left < 0
                invariant
                    self.scale <= left <= 0,
                    zeros == -self.scale,
                    value == unscaled * pow10((left - self.scale) as nat),
                    unscaled == self.unscaled(),
                    unscaled > 0,
                    !self.negative,
                decreases -left,
            {
                let ghost added = (left - self.scale) as nat;
                proof {
                    assert(pow10(added + 1) == 10 * pow10(added));
                    assert(unscaled * (10 * pow10(added)) == (unscaled * pow10(added)) * 10)
                        by (nonlinear_arith);
                }
                match value.checked_mul(10) {
                    Some(next) => {
                        value = next;
                    },
                    None => {
                        proof {
                            lemma_pow10_monotone(added + 1, zeros);
                            let reached = pow10(added + 1);
                            let all = pow10(zeros);
                            assert(unscaled * reached <= unscaled * all) by (nonlinear_arith)
                                requires
                                    reached <= all,
                            ;
                        }
                        return Err(TxError::AmountOutOfRange);
                    },
                }
                left = left + 1;
            }
            Ok(value)
        } else {
            let ghost places = self.scale as nat;
            let mut digits: Vec<u8> = self.magnitude.clone();
            assert(digits@ == self.magnitude@);
            let mut done: i64 = 0;
            proof {
                assert(unscaled * pow10(0) == unscaled) by (nonlinear_arith)
                    requires
                        pow10(0) == 1,
                ;
            }
            while done < self.scale
                invariant
                    0 <= done <= self.scale,
                    places == self.scale,
                    be_value(digits@) * pow10(done as nat) == unscaled,
                    unscaled == self.unscaled(),
                    unscaled > 0,
                    !self.negative,
                decreases self.scale - done,
            {
                let ghost current = be_value(digits@);
                let (quotient, remainder) = divide_by_ten(digits.as_slice());
                if remainder != 0 {
                    proof {
                        assert(current % 10 == remainder as nat) by (nonlinear_arith)
                            requires
                                current == be_value(quotient@) * 10 + remainder as nat,
                                remainder < 10,
                        ;
                        lemma_fraction_remains(current, done as nat, places);
                    }
                    return Err(TxError::AmountOutOfRange);
                }
                proof {
                    let shorter = be_value(quotient@);
                    let low = pow10(done as nat);
                    assert(pow10((done + 1) as nat) == 10 * low);
                    assert(shorter * (10 * low) == (shorter * 10) * low) by (nonlinear_arith);
                }
                digits = quotient;
                done = done + 1;
            }
            proof {
                lemma_whole_multiple(be_value(digits@), places);
            }
            match small_value(digits.as_slice()) {
                Some(value) => Ok(value),
                None => Err(TxError::AmountOutOfRange),
            }
        }
    }
}

} // verus!
