//! Admission checks: identities, confidence thresholds, update freshness and
//! evidence digests.
use vstd::prelude::*;
use crate::types::{PlatformState, Principal};

verus! {

/// Whether two identities are the same key.
pub fn same_principal(a: &Principal, b: &Principal) -> (r: bool)
    ensures
        r == (*a == *b),
{
    let mut i: usize = 0;
    while i < 32
        invariant
            0 <= i <= 32,
            forall|j: int| 0 <= j < i ==> a.key@[j] == b.key@[j],
        decreases 32 - i,
    {
        if a.key[i] != b.key[i] {
            return false;
        }
        i = i + 1;
    }
    proof {
        assert(a.key =~= b.key);
    }
    true
}


/// A role that an operation may demand of its caller.
#[derive(Clone, Copy, Debug, PartialEq, Eq, Structural)]
pub enum Role {
    /// The platform authority.
    Authority,
    /// The verification oracle.
    Oracle,
}

/// The identity that holds `role` on the platform.
pub open spec fn role_holder(platform: PlatformState, role: Role) -> Principal {
    match role {
        Role::Authority => platform.authority,
        Role::Oracle => platform.ai_oracle_authority,
    }
}

/// Whether `caller` holds `role` on the platform.
pub fn has_role(platform: &PlatformState, caller: &Principal, role: Role) -> (r: bool)
    ensures
        r == (*caller == role_holder(*platform, role)),
{
    match role {
        Role::Authority => same_principal(caller, &platform.authority),
        Role::Oracle => same_principal(caller, &platform.ai_oracle_authority),
    }
}

/// Whether at least `interval` seconds separate `last` from `now`.
pub open spec fn fresh_enough(now: i64, last: i64, interval: u64) -> bool {
    now as int - last as int >= interval as int
}

/// Whether at least `interval` seconds separate `last` from `now`.
pub fn update_is_fresh(now: i64, last: i64, interval: u64) -> (r: bool)
    ensures
        r == fresh_enough(now, last, interval),
{
    (now as i128) - (last as i128) >= interval as i128
}

/// Length, in characters, of an evidence digest.
pub const EVIDENCE_HASH_LEN: usize = 64;

/// Whether `hash` has the length of an evidence digest.
pub fn is_valid_evidence_hash(hash: &String) -> (r: bool)
    ensures
        r == (hash@.len() == EVIDENCE_HASH_LEN),
{
    hash.as_str().unicode_len() == EVIDENCE_HASH_LEN
}

} // verus!
