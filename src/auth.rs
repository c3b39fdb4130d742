//! The two authorization policies. Both are pure functions of the caller and
//! the state.
use crate::identity::Identity;
use crate::state::{BridgeStateV0, SPENDER_RING_SIZE};
use vstd::prelude::*;

verus! {

/// The caller signed and is the admin.
pub fn admin_policy(state: &BridgeStateV0, caller: &Identity, is_signer: bool) -> (r: bool)
    ensures
        r == (is_signer && caller@ == state@.admin),
{
    is_signer && caller.same(&state.admin)
}

/// The caller signed and holds any slot of the spender ring.
pub fn spender_policy(state: &BridgeStateV0, caller: &Identity, is_signer: bool) -> (r: bool)
    ensures
        r == (is_signer && state@.spenders.contains(caller@)),
{
    if !is_signer {
        return false;
    }
    let mut i: usize = 0;
    let mut found = false;
    while i < SPENDER_RING_SIZE && !found
        invariant
            0 <= i <= SPENDER_RING_SIZE,
            state@.spenders.len() == SPENDER_RING_SIZE,
            found ==> state@.spenders.contains(caller@),
            !found ==> forall|j: int| 0 <= j < i ==> state@.spenders[j] != caller@,
        decreases SPENDER_RING_SIZE - i,
    {
        if state.spenders[i].same(caller) {
            assert(state@.spenders[i as int] == caller@);
            found = true;
        }
        i = i + 1;
    }
    found
}

} // verus!
