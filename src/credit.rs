//! Formulas over integers: the platform fee of an investment and the carbon
//! credits that a position earns once its project is completed.
use vstd::prelude::*;

verus! {

/// The platform fee on `amount` at `fee_bps` basis points, rounded down.
pub open spec fn fee_of(amount: nat, fee_bps: nat) -> nat {
    amount * fee_bps / 10000
}

/// Credits before any multiplier: the position's amount times the yield per
/// tree, in millionths, rounded down.
pub open spec fn base_credits(amount: nat, co2_per_tree: nat) -> nat {
    amount * co2_per_tree / 1000000
}

/// The health factor: `(4 * health + 480) / 1000`, rounded down. It is a whole
/// number: 0 for every health score below 130, 1 from 130 to 255.
pub open spec fn health_factor(health: nat) -> nat {
    (health * 4 + 480) / 1000
}

/// The credits that a position earns: base credits times the health factor
/// times the bonus multiplier, over 10000, each division rounded down.
pub open spec fn credit_total(amount: nat, co2_per_tree: nat, health: nat, bonus: nat) -> nat {
    base_credits(amount, co2_per_tree) * health_factor(health) * bonus / 10000
}

/// The platform fee on `amount` at `fee_bps` basis points, rounded down; it is
/// never more than the amount.
pub fn platform_fee(amount: u64, fee_bps: u16) -> (r: u64)
    requires
        fee_bps <= 10000,
    ensures
        r == fee_of(amount as nat, fee_bps as nat),
        r <= amount,
{
    proof {
        assert(amount as nat * fee_bps as nat <= amount as nat * 10000) by (nonlinear_arith)
            requires fee_bps <= 10000;
    }
    let product: u128 = amount as u128 * fee_bps as u128;
    let fee: u128 = product / 10000;
    fee as u64
}

/// The credits earned by a position of `amount` in a project with the given
/// yield and health, at multiplier `bonus`; `None` when they exceed `u64`.
pub fn calculate_carbon_credits(amount: u64, co2_per_tree: u64, health: u8, bonus: u16) -> (r:
    Option<u64>)
    ensures
        match r {
            Some(v) => v == credit_total(amount as nat, co2_per_tree as nat, health as nat, bonus as nat),
            None => credit_total(amount as nat, co2_per_tree as nat, health as nat, bonus as nat)
                > u64::MAX,
        },
{
    proof {
        assert(amount as nat * co2_per_tree as nat <= 0xffff_ffff_ffff_ffff * 0xffff_ffff_ffff_ffffnat)
            by (nonlinear_arith);
    }
    let base: u128 = amount as u128 * co2_per_tree as u128 / 1000000;
    let factor: u128 = (health as u128 * 4 + 480) / 1000;
    assert(factor <= 1);
    proof {
        assert(base * factor <= base) by (nonlinear_arith)
            requires factor <= 1;
        assert(base <= 0xffff_ffff_ffff_ffff * 0xffff_ffff_ffff_ffffnat / 1000000);
        assert(base * factor * bonus as nat <= base * 0xffff) by (nonlinear_arith)
            requires base * factor <= base, bonus <= 0xffff;
        assert(base * 0xffff <= u128::MAX) by (nonlinear_arith)
            requires base <= 0xffff_ffff_ffff_ffff * 0xffff_ffff_ffff_ffffnat / 1000000;
    }
    let total: u128 = base * factor * bonus as u128 / 10000;
    if total > u64::MAX as u128 {
        None
    } else {
        Some(total as u64)
    }
}

} // verus!
