use crate::constants::{PRESALE_PRICE, PRICE_UNIT};
use vstd::prelude::*;

verus! {

/// Lamports owed for buying `amount` token units: only whole price units
/// are charged for.
pub open spec fn purchase_cost(amount: u64) -> int {
    (amount / PRICE_UNIT) as int * PRESALE_PRICE as int
}

/// Lamports paid out for selling `amount` token units: at the presale
/// price, for whole price units only.
pub open spec fn sale_proceeds(amount: u64) -> int {
    (amount / PRICE_UNIT) as int * PRESALE_PRICE as int
}

/// The part of a payment that goes to (or comes from) the presale treasury.
pub open spec fn treasury_share(gross: int) -> int {
    gross * 99 / 100
}

/// The part of a payment that goes to the protocol's fee pool.
pub open spec fn protocol_fee(gross: int) -> int {
    gross / 100
}

/// The treasury's and the fee pool's parts of the price of `amount` units.
pub fn purchase_payments(amount: u64) -> (res: (u64, u64))
    ensures
        res.0 == treasury_share(purchase_cost(amount)),
        res.1 == protocol_fee(purchase_cost(amount)),
        res.0 == (amount / 1_000_000_000) * 220 * 99 / 100,
        res.1 == (amount / 1_000_000_000) * 220 / 100,
{
    let gross = amount / PRICE_UNIT * PRESALE_PRICE;
    (gross * 99 / 100, gross / 100)
}

/// What the seller and the fee pool get for selling `amount` units.
pub fn sale_payouts(amount: u64) -> (res: (u64, u64))
    ensures
        res.0 == treasury_share(sale_proceeds(amount)),
        res.1 == protocol_fee(sale_proceeds(amount)),
        res.0 == (amount / 1_000_000_000) * 220 * 99 / 100,
        res.1 == (amount / 1_000_000_000) * 220 / 100,
{
    let gross = amount / PRICE_UNIT * PRESALE_PRICE;
    (gross * 99 / 100, gross / 100)
}

/// Splitting a payment between the treasury and the fee pool loses at
/// most one lamport to rounding and never creates any; the fee is at most
/// one hundredth of the payment.
pub proof fn lemma_fee_split(gross: int)
    requires
        gross >= 0,
    ensures
        treasury_share(gross) + protocol_fee(gross) <= gross,
        gross - 1 <= treasury_share(gross) + protocol_fee(gross),
        protocol_fee(gross) * 100 <= gross,
        treasury_share(gross) >= 0,
        protocol_fee(gross) >= 0,
{
}

} // verus!
