//! The platform registry: creation once, administrative switches, and the
//! counters that other operations advance.
use vstd::prelude::*;
use crate::guard::{has_role, Role};
use crate::types::{
    EmergencyPause, EmergencyResume, ErrorCode, OracleUpdated, PlatformInitialized, PlatformState,
    Principal,
};

verus! {

/// Why `initialize_platform` refuses, checked in this order.
pub open spec fn initialize_failure(
    slot: Option<PlatformState>,
    investment_fee_bps: u16,
    min_ai_confidence: u8,
) -> Option<ErrorCode> {
    if slot is Some {
        Some(ErrorCode::AlreadyInitialized)
    } else if investment_fee_bps > 10000 {
        Some(ErrorCode::InvalidFeeBasisPoints)
    } else if min_ai_confidence > 100 {
        Some(ErrorCode::InvalidConfidenceThreshold)
    } else {
        None
    }
}

/// A registry with the given policy, zero counters and no pause.
pub open spec fn new_platform(
    authority: Principal,
    carbon_token_mint: Principal,
    investment_fee_bps: u16,
    ai_oracle_authority: Principal,
    min_ai_confidence: u8,
    min_update_interval: u64,
) -> PlatformState {
    PlatformState {
        authority,
        carbon_token_mint,
        ai_oracle_authority,
        investment_fee_bps,
        min_ai_confidence,
        min_update_interval,
        total_projects: 0,
        total_investments: 0,
        total_carbon_credits: 0,
        total_trees_planted: 0,
        total_co2_offset: 0,
        emergency_pause: false,
    }
}

/// Creates the registry in `slot`, which must still be empty.
pub fn initialize_platform(
    slot: &mut Option<PlatformState>,
    platform_authority: Principal,
    carbon_token_mint: Principal,
    investment_fee_bps: u16,
    ai_oracle_authority: Principal,
    min_ai_confidence: u8,
    min_update_interval: u64,
) -> (r: Result<PlatformInitialized, ErrorCode>)
    ensures
        match r {
            Ok(event) => {
                &&& initialize_failure(*old(slot), investment_fee_bps, min_ai_confidence) is None
                &&& *final(slot) == Some(
                    new_platform(
                        platform_authority,
                        carbon_token_mint,
                        investment_fee_bps,
                        ai_oracle_authority,
                        min_ai_confidence,
                        min_update_interval,
                    ),
                )
                &&& event == (PlatformInitialized {
                    authority: platform_authority,
                    carbon_token_mint,
                    ai_oracle_authority,
                })
            },
            Err(e) => {
                &&& initialize_failure(*old(slot), investment_fee_bps, min_ai_confidence) == Some(e)
                &&& *final(slot) == *old(slot)
            },
        },
        r is Ok ==> final(slot).unwrap().wf(),
        old(slot).is_some() ==> *final(slot) == *old(slot),
{
    if slot.is_some() {
        return Err(ErrorCode::AlreadyInitialized);
    }
    if investment_fee_bps > 10000 {
        return Err(ErrorCode::InvalidFeeBasisPoints);
    }
    if min_ai_confidence > 100 {
        return Err(ErrorCode::InvalidConfidenceThreshold);
    }
    *slot = Some(
        PlatformState {
            authority: platform_authority,
            carbon_token_mint,
            ai_oracle_authority,
            investment_fee_bps,
            min_ai_confidence,
            min_update_interval,
            total_projects: 0,
            total_investments: 0,
            total_carbon_credits: 0,
            total_trees_planted: 0,
            total_co2_offset: 0,
            emergency_pause: false,
        },
    );
    Ok(PlatformInitialized { authority: platform_authority, carbon_token_mint, ai_oracle_authority })
}

/// Stops new projects, investments, progress updates and claims; only the
/// platform authority may do so.
pub fn emergency_pause(platform: &mut PlatformState, caller: &Principal, now: i64) -> (r: Result<
    EmergencyPause,
    ErrorCode,
>)
    ensures
        match r {
            Ok(event) => {
                &&& *caller == old(platform).authority
                &&& *final(platform) == (PlatformState { emergency_pause: true, ..*old(platform) })
                &&& event == (EmergencyPause { timestamp: now })
            },
            Err(e) => {
                &&& *caller != old(platform).authority
                &&& e == ErrorCode::Unauthorized
                &&& *final(platform) == *old(platform)
            },
        },
{
    if !has_role(platform, caller, Role::Authority) {
        return Err(ErrorCode::Unauthorized);
    }
    platform.emergency_pause = true;
    Ok(EmergencyPause { timestamp: now })
}

/// Lifts a pause; only the platform authority may do so.
pub fn emergency_resume(platform: &mut PlatformState, caller: &Principal, now: i64) -> (r: Result<
    EmergencyResume,
    ErrorCode,
>)
    ensures
        match r {
            Ok(event) => {
                &&& *caller == old(platform).authority
                &&& *final(platform) == (PlatformState { emergency_pause: false, ..*old(platform) })
                &&& event == (EmergencyResume { timestamp: now })
            },
            Err(e) => {
                &&& *caller != old(platform).authority
                &&& e == ErrorCode::Unauthorized
                &&& *final(platform) == *old(platform)
            },
        },
{
    if !has_role(platform, caller, Role::Authority) {
        return Err(ErrorCode::Unauthorized);
    }
    platform.emergency_pause = false;
    Ok(EmergencyResume { timestamp: now })
}

/// Replaces the oracle identity; only the platform authority may do so.
pub fn update_ai_oracle(platform: &mut PlatformState, caller: &Principal, new_oracle: Principal) -> (r:
    Result<OracleUpdated, ErrorCode>)
    ensures
        match r {
            Ok(event) => {
                &&& *caller == old(platform).authority
                &&& *final(platform) == (PlatformState {
                    ai_oracle_authority: new_oracle,
                    ..*old(platform)
                })
                &&& event == (OracleUpdated {
                    previous: old(platform).ai_oracle_authority,
                    current: new_oracle,
                })
            },
            Err(e) => {
                &&& *caller != old(platform).authority
                &&& e == ErrorCode::Unauthorized
                &&& *final(platform) == *old(platform)
            },
        },
{
    if !has_role(platform, caller, Role::Authority) {
        return Err(ErrorCode::Unauthorized);
    }
    let previous = platform.ai_oracle_authority;
    platform.ai_oracle_authority = new_oracle;
    Ok(OracleUpdated { previous, current: new_oracle })
}

} // verus!
