use crate::decimal::{div_attos, mul_attos, Decimal, ATTOS_PER_UNIT};
use vstd::prelude::*;

verus! {

/// The address of a resource, by the thirty bytes of its node id read
/// big-endian: `high` holds the first sixteen, `low` the last fourteen.
#[derive(Clone, Copy, Debug, PartialEq, Eq, Structural)]
pub struct ResourceAddress {
    pub high: u128,
    pub low: u128,
}

/// An exchange rate between two resources: `price` units of `quote` buy one
/// unit of `base`.
#[derive(Clone, Copy, Debug, PartialEq, Eq, Structural)]
pub struct Price {
    pub base: ResourceAddress,
    pub quote: ResourceAddress,
    pub price: Decimal,
}

/// Wraps a converted amount of attos as a decimal of the other resource.
pub open spec fn tagged(other: ResourceAddress, attos: Option<i128>) -> Option<(ResourceAddress, Decimal)> {
    match attos {
        Some(a) => Some((other, Decimal { attos: a })),
        None => None,
    }
}

impl Price {
    /// Whether the resource is one side of the pair.
    pub open spec fn quotes(self, resource_address: ResourceAddress) -> bool {
        resource_address == self.base || resource_address == self.quote
    }

    /// The amount of the other resource that `amount` of `resource_address` is
    /// worth: times the price from base to quote, over the price from quote to
    /// base, and nothing for a resource outside the pair or where the checked
    /// arithmetic fails.
    pub open spec fn exchange_spec(self, resource_address: ResourceAddress, amount: Decimal) -> Option<
        (ResourceAddress, Decimal),
    > {
        if resource_address == self.base {
            tagged(self.quote, mul_attos(self.price.value(), amount.value()))
        } else if resource_address == self.quote {
            tagged(self.base, div_attos(amount.value(), self.price.value()))
        } else {
            None
        }
    }

    pub fn exchange(&self, resource_address: ResourceAddress, amount: Decimal) -> (r: Option<
        (ResourceAddress, Decimal),
    >)
        ensures
            r == self.exchange_spec(resource_address, amount),
            !self.quotes(resource_address) ==> r is None,
    {
        if resource_address == self.base {
            match self.price.checked_mul(amount) {
                Some(d) => Some((self.quote, d)),
                None => None,
            }
        } else if resource_address == self.quote {
            match amount.checked_div(self.price) {
                Some(d) => Some((self.base, d)),
                None => None,
            }
        } else {
            None
        }
    }
}

/// Converting a non-negative amount of the base resource into the quote
/// resource and back, at a positive price, gives back the amount up to the
/// rounding of the two truncating steps: never more than the original, and
/// short of it by less than `(10^18 + price) / price` attos.
pub proof fn lemma_exchange_round_trip(p: Price, amount: Decimal)
    requires
        p.base != p.quote,
        p.price.value() > 0,
        amount.value() >= 0,
    ensures
        ({
            let there = p.exchange_spec(p.base, amount);
            there matches Some((q, converted)) ==> ({
                let back = p.exchange_spec(q, converted);
                back matches Some((b, recovered)) ==> b == p.base
                    && recovered.value() <= amount.value()
                    && (amount.value() - recovered.value()) * p.price.value()
                        < ATTOS_PER_UNIT + p.price.value()
            })
        }),
{
    let e = ATTOS_PER_UNIT as int;
    let a = amount.value();
    let pr = p.price.value();
    let there = p.exchange_spec(p.base, amount);
    if let Some((q, converted)) = there {
        assert(q == p.quote);
        let x = converted.value();
        assert(a * pr >= 0) by (nonlinear_arith)
            requires
                a >= 0,
                pr > 0,
        ;
        assert(x == (pr * a) / e);
        assert(pr * a == a * pr) by (nonlinear_arith);
        assert(x * e <= a * pr < x * e + e) by (nonlinear_arith)
            requires
                x == (a * pr) / e,
                e > 0,
                a * pr >= 0,
        ;
        let back = p.exchange_spec(q, converted);
        if let Some((b, recovered)) = back {
            let y = recovered.value();
            assert(x >= 0) by (nonlinear_arith)
                requires
                    x == (a * pr) / e,
                    e > 0,
                    a * pr >= 0,
            ;
            assert(x * e >= 0) by (nonlinear_arith)
                requires
                    x >= 0,
                    e > 0,
            ;
            assert(y == (x * e) / pr);
            assert(y * pr <= x * e < y * pr + pr) by (nonlinear_arith)
                requires
                    y == (x * e) / pr,
                    pr > 0,
                    x * e >= 0,
            ;
            assert(y <= a) by (nonlinear_arith)
                requires
                    y * pr <= a * pr,
                    pr > 0,
            ;
            assert((a - y) * pr == a * pr - y * pr) by (nonlinear_arith);
        }
    }
}

/// Converting a non-negative amount of the quote resource into the base
/// resource and back, at a positive price, gives back the amount up to the
/// rounding of the two truncating steps: never more than the original, and
/// short of it by less than `(10^18 + price) / 10^18` attos.
pub proof fn lemma_exchange_round_trip_from_quote(p: Price, amount: Decimal)
    requires
        p.base != p.quote,
        p.price.value() > 0,
        amount.value() >= 0,
    ensures
        ({
            let there = p.exchange_spec(p.quote, amount);
            there matches Some((b, converted)) ==> ({
                let back = p.exchange_spec(b, converted);
                back matches Some((q, recovered)) ==> q == p.quote
                    && recovered.value() <= amount.value()
                    && (amount.value() - recovered.value()) * ATTOS_PER_UNIT
                        < ATTOS_PER_UNIT + p.price.value()
            })
        }),
{
    let e = ATTOS_PER_UNIT as int;
    let a = amount.value();
    let pr = p.price.value();
    let there = p.exchange_spec(p.quote, amount);
    if let Some((b, converted)) = there {
        assert(b == p.base);
        let x = converted.value();
        assert(a * e >= 0) by (nonlinear_arith)
            requires
                a >= 0,
                e > 0,
        ;
        assert(x == (a * e) / pr);
        assert(x * pr <= a * e < x * pr + pr) by (nonlinear_arith)
            requires
                x == (a * e) / pr,
                pr > 0,
                a * e >= 0,
        ;
        let back = p.exchange_spec(b, converted);
        if let Some((q, recovered)) = back {
            let y = recovered.value();
            assert(x >= 0) by (nonlinear_arith)
                requires
                    x == (a * e) / pr,
                    pr > 0,
                    a * e >= 0,
            ;
            assert(pr * x >= 0) by (nonlinear_arith)
                requires
                    x >= 0,
                    pr > 0,
            ;
            assert(y == (pr * x) / e);
            assert(pr * x == x * pr) by (nonlinear_arith);
            assert(y * e <= x * pr < y * e + e) by (nonlinear_arith)
                requires
                    y == (x * pr) / e,
                    e > 0,
                    x * pr >= 0,
            ;
            assert(y <= a) by (nonlinear_arith)
                requires
                    y * e <= a * e,
                    e > 0,
            ;
            assert((a - y) * e == a * e - y * e) by (nonlinear_arith);
        }
    }
}

} // verus!
