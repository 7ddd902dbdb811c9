use radix_common::math::CheckedDiv;
use radix_common::math::CheckedMul;
use vstd::prelude::*;

verus! {

/// Number of attos (the smallest subunit) in one whole unit.
pub const ATTOS_PER_UNIT: i128 = 1_000_000_000_000_000_000;

/// Integer division that truncates toward zero, as fixed-width signed
/// division does.
pub open spec fn trunc_div(x: int, y: int) -> int
    recommends
        y != 0,
{
    if x >= 0 {
        if y > 0 {
            x / y
        } else {
            -(x / (-y))
        }
    } else {
        if y > 0 {
            -((-x) / y)
        } else {
            (-x) / (-y)
        }
    }
}

/// Whether `x` can be held in the attos of a `Decimal`.
pub open spec fn fits(x: int) -> bool {
    i128::MIN <= x <= i128::MAX
}

/// The checked fixed-point product of two amounts given in attos.
pub open spec fn mul_attos(a: int, b: int) -> Option<i128> {
    let q = trunc_div(a * b, ATTOS_PER_UNIT as int);
    if fits(q) {
        Some(q as i128)
    } else {
        None
    }
}

/// The checked fixed-point quotient of two amounts given in attos.
pub open spec fn div_attos(a: int, b: int) -> Option<i128> {
    if b == 0 {
        None
    } else {
        let q = trunc_div(a * ATTOS_PER_UNIT, b);
        if fits(q) {
            Some(q as i128)
        } else {
            None
        }
    }
}

/// A signed fixed-point amount with eighteen decimal places, held as a count
/// of attos.
#[derive(Clone, Copy, Debug, PartialEq, Eq, Structural)]
pub struct Decimal {
    pub attos: i128,
}

/// Relies on radix_common's `CheckedMul` for `Decimal`: the product of the
/// attos is divided by 10^18 with truncation toward zero in I256, and is
/// `None` where it leaves I192 (here: where it leaves `i128`).
#[verifier::external_body]
fn radix_checked_mul(a: i128, b: i128) -> (r: Option<i128>)
    ensures
        r == mul_attos(a as int, b as int),
{
    let x = radix_common::math::Decimal::from_attos(a.into());
    let y = radix_common::math::Decimal::from_attos(b.into());
    x.checked_mul(y).and_then(|d| i128::try_from(d.attos()).ok())
}

/// Relies on radix_common's `CheckedDiv` for `Decimal`: `None` for a zero
/// divisor, else the attos times 10^18 divided by the divisor's attos with
/// truncation toward zero in I256, and `None` where that leaves I192 (here:
/// where it leaves `i128`).
#[verifier::external_body]
fn radix_checked_div(a: i128, b: i128) -> (r: Option<i128>)
    ensures
        r == div_attos(a as int, b as int),
{
    let x = radix_common::math::Decimal::from_attos(a.into());
    let y = radix_common::math::Decimal::from_attos(b.into());
    x.checked_div(y).and_then(|d| i128::try_from(d.attos()).ok())
}

impl Decimal {
    pub open spec fn value(self) -> int {
        self.attos as int
    }

    pub fn zero() -> (r: Decimal)
        ensures
            r.value() == 0,
    {
        Decimal { attos: 0 }
    }

    pub fn from_attos(attos: i128) -> (r: Decimal)
        ensures
            r.attos == attos,
    {
        Decimal { attos }
    }

    /// A whole number of units.
    pub fn from_units(units: i64) -> (r: Decimal)
        ensures
            r.value() == units * ATTOS_PER_UNIT,
    {
        proof {
            let u = units as int;
            assert(-10_000_000_000_000_000_000_000_000_000_000_000_000 <= u * 1_000_000_000_000_000_000
                <= 10_000_000_000_000_000_000_000_000_000_000_000_000) by (nonlinear_arith)
                requires
                    -9_223_372_036_854_775_808 <= u <= 9_223_372_036_854_775_807,
            ;
        }
        Decimal { attos: units as i128 * ATTOS_PER_UNIT }
    }

    pub fn checked_add(self, other: Decimal) -> (r: Option<Decimal>)
        ensures
            fits(self.value() + other.value()) ==> r == Some(
                Decimal { attos: (self.value() + other.value()) as i128 },
            ),
            !fits(self.value() + other.value()) ==> r is None,
    {
        match self.attos.checked_add(other.attos) {
            Some(a) => Some(Decimal { attos: a }),
            None => None,
        }
    }

    pub fn checked_sub(self, other: Decimal) -> (r: Option<Decimal>)
        ensures
            fits(self.value() - other.value()) ==> r == Some(
                Decimal { attos: (self.value() - other.value()) as i128 },
            ),
            !fits(self.value() - other.value()) ==> r is None,
    {
        match self.attos.checked_sub(other.attos) {
            Some(a) => Some(Decimal { attos: a }),
            None => None,
        }
    }

    pub fn checked_mul(self, other: Decimal) -> (r: Option<Decimal>)
        ensures
            r == (match mul_attos(self.value(), other.value()) {
                Some(a) => Some(Decimal { attos: a }),
                None => None,
            }),
    {
        match radix_checked_mul(self.attos, other.attos) {
            Some(a) => Some(Decimal { attos: a }),
            None => None,
        }
    }

    pub fn checked_div(self, other: Decimal) -> (r: Option<Decimal>)
        ensures
            r == (match div_attos(self.value(), other.value()) {
                Some(a) => Some(Decimal { attos: a }),
                None => None,
            }),
    {
        match radix_checked_div(self.attos, other.attos) {
            Some(a) => Some(Decimal { attos: a }),
            None => None,
        }
    }

    pub fn is_at_least(self, other: Decimal) -> (r: bool)
        ensures
            r == (self.value() >= other.value()),
    {
        self.attos >= other.attos
    }

    pub fn min(self, other: Decimal) -> (r: Decimal)
        ensures
            r.value() == if self.value() <= other.value() {
                self.value()
            } else {
                other.value()
            },
    {
        if self.attos <= other.attos {
            self
        } else {
            other
        }
    }

    pub fn max(self, other: Decimal) -> (r: Decimal)
        ensures
            r.value() == if self.value() >= other.value() {
                self.value()
            } else {
                other.value()
            },
    {
        if self.attos >= other.attos {
            self
        } else {
            other
        }
    }
}

} // verus!
