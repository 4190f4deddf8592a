use vstd::prelude::*;

verus! {

/// Basis points in a whole: a fee of this many bps takes the full amount.
pub const BPS_DENOMINATOR: i128 = 10000;

/// Integer division rounded toward zero, as Rust's `/` on signed integers.
pub open spec fn trunc_div(a: int, d: int) -> int
    recommends
        d > 0,
{
    if a >= 0 {
        a / d
    } else {
        -((-a) / d)
    }
}

/// Whether an integer is representable as an `i128`.
pub open spec fn fits_i128(x: int) -> bool {
    i128::MIN <= x <= i128::MAX
}

/// The fee taken from `amount` at `fee_bps` basis points, rounded toward zero.
pub open spec fn fee_of(amount: int, fee_bps: int) -> int {
    trunc_div(amount * fee_bps, BPS_DENOMINATOR as int)
}

/// What reaches the seller once the fee is taken.
pub open spec fn net_of(amount: int, fee_bps: int) -> int {
    amount - fee_of(amount, fee_bps)
}

/// Whether the fee can be computed in `i128` arithmetic without overflow.
pub open spec fn fee_computable(amount: i128, fee_bps: u32) -> bool {
    fits_i128(amount * fee_bps)
}

proof fn lemma_fee_sign(amount: int, fee_bps: int)
    requires
        fee_bps >= 0,
    ensures
        amount >= 0 ==> amount * fee_bps >= 0,
        amount < 0 ==> amount * fee_bps <= 0,
{
    if amount >= 0 {
        assert(amount * fee_bps >= 0) by (nonlinear_arith)
            requires
                amount >= 0,
                fee_bps >= 0,
        ;
    } else {
        assert(amount * fee_bps <= 0) by (nonlinear_arith)
            requires
                amount < 0,
                fee_bps >= 0,
        ;
    }
}

/// The fee on `amount` at `fee_bps` basis points, or `None` when
/// `amount * fee_bps` overflows `i128`.
pub fn fee_payout(amount: i128, fee_bps: u32) -> (r: Option<i128>)
    ensures
        r is Some <==> fee_computable(amount, fee_bps),
        r is Some ==> r->0 == fee_of(amount as int, fee_bps as int),
{
    match amount.checked_mul(fee_bps as i128) {
        Some(p) => Some(p / BPS_DENOMINATOR),
        None => None,
    }
}

/// The seller's share of `amount` after the fee at `fee_bps` basis points,
/// or `None` when `amount * fee_bps` overflows `i128`.
pub fn net_vendor_payout(amount: i128, fee_bps: u32) -> (r: Option<i128>)
    ensures
        r is Some <==> fee_computable(amount, fee_bps),
        r is Some ==> r->0 == net_of(amount as int, fee_bps as int),
        r is Some ==> r->0 + fee_of(amount as int, fee_bps as int) == amount,
{
    match fee_payout(amount, fee_bps) {
        Some(fee) => {
            proof {
                lemma_fee_sign(amount as int, fee_bps as int);
            }
            Some(amount - fee)
        },
        None => None,
    }
}

} // verus!
