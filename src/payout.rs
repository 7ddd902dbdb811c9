use crate::decimal::{fits, trunc_div, Decimal, ATTOS_PER_UNIT};
use crate::price::{Price, ResourceAddress};
use vstd::prelude::*;

verus! {

/// Why a payout could not be computed.
#[derive(Clone, Copy, Debug, PartialEq, Eq, Structural)]
pub enum PayoutError {
    /// A checked decimal operation overflowed or divided by zero.
    ArithmeticFailure,
    /// The oracle price does not quote the user resource.
    AssetMismatch,
    /// Closing the position returned no amount of a resource of the pair.
    MissingReturnedAmount,
}

/// What the holder of a position is given on closing it.
#[derive(Clone, Copy, Debug, PartialEq, Eq, Structural)]
pub struct Payout {
    /// The amount of the protocol's reserve resource.
    pub reserve_payout: Decimal,
    /// The amount of the user resource, fees included.
    pub user_payout: Decimal,
    /// The part of the user resource fees that is honoured.
    pub realized_fee: Decimal,
}

/// The decimal with `x` attos.
pub open spec fn dec(x: int) -> Decimal {
    Decimal { attos: x as i128 }
}

pub open spec fn min_int(a: int, b: int) -> int {
    if a <= b {
        a
    } else {
        b
    }
}

/// The payout owed for a closed position.
///
/// Where the user resource returned covers the contribution, no reserve is
/// paid, and the user gets the contribution plus fees, capped by what was
/// returned. Else the shortfall is bought back in the reserve resource at the
/// oracle price, capped by the reserve returned; the user gets what was
/// returned and no fees.
pub open spec fn payout_spec(
    contributed: Decimal,
    returned_user: Decimal,
    returned_reserve: Decimal,
    fee: Decimal,
    user_resource: ResourceAddress,
    oracle_price: Price,
) -> Result<Payout, PayoutError> {
    let c = contributed.value();
    let ru = returned_user.value();
    if ru >= c {
        if fits(c + fee.value()) {
            Ok(
                Payout {
                    reserve_payout: dec(0),
                    user_payout: dec(min_int(ru, c + fee.value())),
                    realized_fee: fee,
                },
            )
        } else {
            Err(PayoutError::ArithmeticFailure)
        }
    } else if !fits(c - ru) {
        Err(PayoutError::ArithmeticFailure)
    } else if !oracle_price.quotes(user_resource) {
        Err(PayoutError::AssetMismatch)
    } else {
        match oracle_price.exchange_spec(user_resource, dec(c - ru)) {
            Some((_, required)) => Ok(
                Payout {
                    reserve_payout: dec(min_int(required.value(), returned_reserve.value())),
                    user_payout: returned_user,
                    realized_fee: dec(0),
                },
            ),
            None => Err(PayoutError::ArithmeticFailure),
        }
    }
}

/// Computes what the holder of a position is given on closing it, from the
/// amount of the user resource contributed, the amounts of the user and
/// reserve resources returned by the close, the user resource fees accrued,
/// and the oracle price between the user resource and the reserve resource.
pub fn compute_payout(
    contributed_user_amount: Decimal,
    returned_user_amount: Decimal,
    returned_reserve_amount: Decimal,
    accrued_user_fee: Decimal,
    user_resource_address: ResourceAddress,
    oracle_price: &Price,
) -> (r: Result<Payout, PayoutError>)
    ensures
        r == payout_spec(
            contributed_user_amount,
            returned_user_amount,
            returned_reserve_amount,
            accrued_user_fee,
            user_resource_address,
            *oracle_price,
        ),
        returned_user_amount.value() >= contributed_user_amount.value() ==> (r matches Ok(p) ==> (
        p.reserve_payout.value() == 0 && p.realized_fee == accrued_user_fee
            && p.user_payout.value() == min_int(
            returned_user_amount.value(),
            contributed_user_amount.value() + accrued_user_fee.value(),
        ))),
        returned_user_amount.value() < contributed_user_amount.value() ==> (r matches Ok(p) ==> (
        p.user_payout == returned_user_amount && p.realized_fee.value() == 0 && (
        oracle_price.exchange_spec(
            user_resource_address,
            dec(contributed_user_amount.value() - returned_user_amount.value()),
        ) matches Some((_, required)) && p.reserve_payout.value() == min_int(
            returned_reserve_amount.value(),
            required.value(),
        )))),
{
    if returned_user_amount.is_at_least(contributed_user_amount) {
        match contributed_user_amount.checked_add(accrued_user_fee) {
            Some(cap) => Ok(
                Payout {
                    reserve_payout: Decimal::zero(),
                    user_payout: returned_user_amount.min(cap),
                    realized_fee: accrued_user_fee,
                },
            ),
            None => Err(PayoutError::ArithmeticFailure),
        }
    } else {
        let shortfall = match contributed_user_amount.checked_sub(returned_user_amount) {
            Some(s) => s,
            None => {
                return Err(PayoutError::ArithmeticFailure);
            },
        };
        if user_resource_address != oracle_price.base && user_resource_address
            != oracle_price.quote {
            return Err(PayoutError::AssetMismatch);
        }
        match oracle_price.exchange(user_resource_address, shortfall) {
            Some((_, required)) => Ok(
                Payout {
                    reserve_payout: required.min(returned_reserve_amount),
                    user_payout: returned_user_amount,
                    realized_fee: Decimal::zero(),
                },
            ),
            None => Err(PayoutError::ArithmeticFailure),
        }
    }
}

/// For non-negative amounts, fees and price, a payout that is owed gives
/// neither a negative amount nor more of a resource than the close returned.
pub proof fn lemma_payout_bounded(
    contributed: Decimal,
    returned_user: Decimal,
    returned_reserve: Decimal,
    fee: Decimal,
    user_resource: ResourceAddress,
    oracle_price: Price,
)
    requires
        contributed.value() >= 0,
        returned_user.value() >= 0,
        returned_reserve.value() >= 0,
        fee.value() >= 0,
        oracle_price.price.value() >= 0,
    ensures
        payout_spec(contributed, returned_user, returned_reserve, fee, user_resource, oracle_price) matches Ok(p)
            ==> 0 <= p.reserve_payout.value() <= returned_reserve.value()
                && 0 <= p.user_payout.value() <= returned_user.value(),
{
    let c = contributed.value();
    let ru = returned_user.value();
    let e = ATTOS_PER_UNIT as int;
    let pr = oracle_price.price.value();
    if ru < c && fits(c - ru) && oracle_price.quotes(user_resource) {
        let s = c - ru;
        assert(dec(s).value() == s);
        if user_resource == oracle_price.base {
            assert(pr * s >= 0) by (nonlinear_arith)
                requires
                    pr >= 0,
                    s >= 0,
            ;
            assert(trunc_div(pr * s, e) == (pr * s) / e);
            assert((pr * s) / e >= 0) by (nonlinear_arith)
                requires
                    pr * s >= 0,
                    e > 0,
            ;
        } else if pr != 0 {
            assert(s * e >= 0) by (nonlinear_arith)
                requires
                    s >= 0,
                    e > 0,
            ;
            assert(trunc_div(s * e, pr) == (s * e) / pr);
            assert((s * e) / pr >= 0) by (nonlinear_arith)
                requires
                    s * e >= 0,
                    pr > 0,
            ;
        }
    }
}

} // verus!
