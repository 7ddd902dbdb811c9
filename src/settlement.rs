use crate::decimal::Decimal;
use crate::payout::{compute_payout, payout_spec, Payout, PayoutError};
use crate::price::{Price, ResourceAddress};
use vstd::prelude::*;

verus! {

/// The address of a component, by the thirty bytes of its node id read
/// big-endian: `high` holds the first sixteen, `low` the last fourteen.
#[derive(Clone, Copy, Debug, PartialEq, Eq, Structural)]
pub struct ComponentAddress {
    pub high: u128,
    pub low: u128,
}

/// How volatile the user resource of a position is taken to be.
#[derive(Clone, Copy, Debug, PartialEq, Eq, Structural)]
pub enum Volatility {
    Volatile,
    NonVolatile,
}

/// The record of a liquidity position as it was opened; `T` is the data that
/// only the exchange adapter of the pool reads.
#[derive(Clone, Debug)]
pub struct LiquidityReceipt<T> {
    pub name: String,
    pub lockup_period: String,
    pub pool_address: ComponentAddress,
    pub user_resource_address: ResourceAddress,
    pub user_contribution_amount: Decimal,
    pub user_resource_volatility_classification: Volatility,
    pub protocol_contribution_amount: Decimal,
    /// Seconds since the Unix epoch.
    pub maturity_date: i64,
    pub adapter_specific_information: T,
}

/// What an adapter reports on closing a position: the fees accrued per
/// resource, in the order reported.
#[derive(Clone, Debug)]
pub struct CloseLiquidityPositionOutput {
    pub fees: Vec<(ResourceAddress, Decimal)>,
}

/// The amount recorded last for a resource in a list of entries, as a map
/// built from the list in order would hold it.
pub open spec fn last_amount(entries: Seq<(ResourceAddress, Decimal)>, resource: ResourceAddress) -> Option<
    Decimal,
>
    decreases entries.len(),
{
    if entries.len() == 0 {
        None
    } else if entries.last().0 == resource {
        Some(entries.last().1)
    } else {
        last_amount(entries.drop_last(), resource)
    }
}

/// A fee as the payout reads it: a missing or negative fee counts as zero.
pub open spec fn clamped_fee(entries: Seq<(ResourceAddress, Decimal)>, resource: ResourceAddress) -> Decimal {
    match last_amount(entries, resource) {
        Some(d) if d.value() > 0 => d,
        _ => Decimal { attos: 0 },
    }
}

/// Looks up the amount recorded last for `resource`.
pub fn amount_of(entries: &Vec<(ResourceAddress, Decimal)>, resource: ResourceAddress) -> (r: Option<
    Decimal,
>)
    ensures
        r == last_amount(entries@, resource),
{
    let mut i: usize = entries.len();
    proof {
        assert(entries@.subrange(0, i as int) =~= entries@);
    }
    while i > 0
        invariant
            i <= entries.len(),
            last_amount(entries@, resource) == last_amount(entries@.subrange(0, i as int), resource),
        decreases i,
    {
        let entry = entries[i - 1];
        proof {
            let prefix = entries@.subrange(0, i as int);
            assert(prefix.drop_last() =~= entries@.subrange(0, i - 1));
        }
        if entry.0 == resource {
            return Some(entry.1);
        }
        i = i - 1;
    }
    None
}

/// The user resource fee reported for `resource`, with a missing or negative
/// one taken as zero.
pub fn fee_for(fees: &Vec<(ResourceAddress, Decimal)>, resource: ResourceAddress) -> (r: Decimal)
    ensures
        r == clamped_fee(fees@, resource),
        r.value() >= 0,
{
    match amount_of(fees, resource) {
        Some(d) => d.max(Decimal::zero()),
        None => Decimal::zero(),
    }
}

/// The payout for a position from its receipt, the amounts put on the
/// worktop by closing it, the adapter's report and the oracle price between
/// the user resource and the reserve resource.
pub open spec fn settle_spec<T>(
    receipt: LiquidityReceipt<T>,
    returned: Seq<(ResourceAddress, Decimal)>,
    fees: Seq<(ResourceAddress, Decimal)>,
    oracle_price: Price,
    reserve_resource: ResourceAddress,
) -> Result<Payout, PayoutError> {
    match (
        last_amount(returned, receipt.user_resource_address),
        last_amount(returned, reserve_resource),
    ) {
        (Some(returned_user), Some(returned_reserve)) => payout_spec(
            receipt.user_contribution_amount,
            returned_user,
            returned_reserve,
            clamped_fee(fees, receipt.user_resource_address),
            receipt.user_resource_address,
            oracle_price,
        ),
        _ => Err(PayoutError::MissingReturnedAmount),
    }
}

/// Settles a closed position: finds the returned amounts of the user and
/// reserve resources, takes the user resource fee from the adapter's report,
/// and computes the payout.
pub fn settle<T>(
    receipt: &LiquidityReceipt<T>,
    returned: &Vec<(ResourceAddress, Decimal)>,
    output: &CloseLiquidityPositionOutput,
    oracle_price: &Price,
    reserve_resource: ResourceAddress,
) -> (r: Result<Payout, PayoutError>)
    ensures
        r == settle_spec(*receipt, returned@, output.fees@, *oracle_price, reserve_resource),
{
    let returned_user = match amount_of(returned, receipt.user_resource_address) {
        Some(d) => d,
        None => {
            return Err(PayoutError::MissingReturnedAmount);
        },
    };
    let returned_reserve = match amount_of(returned, reserve_resource) {
        Some(d) => d,
        None => {
            return Err(PayoutError::MissingReturnedAmount);
        },
    };
    let fee = fee_for(&output.fees, receipt.user_resource_address);
    compute_payout(
        receipt.user_contribution_amount,
        returned_user,
        returned_reserve,
        fee,
        receipt.user_resource_address,
        oracle_price,
    )
}

} // verus!
