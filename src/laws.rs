//! Properties of the bridge that span several instructions or every state.
use crate::custody::spec_system_program_id;
use crate::error::BridgeError;
use crate::processor::{all_positive, spec_initialize, spec_load, spec_transfer_in, AccountModel};
use crate::state::{
    decode_state, decode_transfer_in, lemma_state_decode_encode, lemma_state_encode_decode,
    next_slot, rotated, state_shaped, BridgeStateModel, SPENDER_RING_SIZE,
};
use vstd::prelude::*;

verus! {

/// Initialize refuses a custody account that is already allocated, whatever
/// else the call holds, so it never writes over an existing state.
pub proof fn lemma_initialize_refuses_allocated(program_id: Seq<u8>, a: Seq<AccountModel>)
    requires
        a.len() >= 3,
        a[1].owner != spec_system_program_id() || a[1].data.len() != 0,
    ensures
        spec_initialize(program_id, a) is Err,
{
}

/// After a successful Initialize has allocated the custody account and
/// written the state into it, a second Initialize on that account fails.
pub proof fn lemma_initialize_once(program_id: Seq<u8>, a: Seq<AccountModel>, b: Seq<AccountModel>)
    requires
        spec_initialize(program_id, a) is Ok,
        b.len() >= 3,
        b[1].key == a[1].key,
        b[1].owner == program_id,
        b[1].data == (spec_initialize(program_id, a)->Ok_0).state->0.bytes,
    ensures
        spec_initialize(program_id, b) is Err,
{
    let st = (spec_initialize(program_id, a)->Ok_0).state->0.bytes;
    assert(st.len() > 0);
    lemma_initialize_refuses_allocated(program_id, b);
}

/// The state after rotating in each of `spenders` in turn.
pub open spec fn rotate_all(m: BridgeStateModel, spenders: Seq<Seq<u8>>) -> BridgeStateModel
    decreases spenders.len(),
{
    if spenders.len() == 0 {
        m
    } else {
        rotated(rotate_all(m, spenders.drop_last()), spenders.last())
    }
}

/// One rotation replaces exactly one slot, the one after the cursor, so the
/// other members of the ring keep their authority.
pub proof fn lemma_rotation_replaces_one(m: BridgeStateModel, spender: Seq<u8>)
    requires
        m.spenders.len() == SPENDER_RING_SIZE,
    ensures
        rotated(m, spender).spenders.len() == SPENDER_RING_SIZE,
        rotated(m, spender).spenders[next_slot(m)] == spender,
        forall|j: int|
            0 <= j < SPENDER_RING_SIZE && j != next_slot(m) ==> rotated(m, spender).spenders[j]
                == m.spenders[j],
{
}

proof fn lemma_rotate_all_positions(m: BridgeStateModel, s: Seq<Seq<u8>>)
    requires
        m.spenders.len() == SPENDER_RING_SIZE,
    ensures
        rotate_all(m, s).spenders.len() == SPENDER_RING_SIZE,
        s.len() >= 1 ==> rotate_all(m, s).spender_index < SPENDER_RING_SIZE
            && rotate_all(m, s).spenders[rotate_all(m, s).spender_index as int] == s.last(),
        s.len() >= 2 ==> rotate_all(m, s).spenders[1 - rotate_all(m, s).spender_index] == s[s.len()
            - 2],
    decreases s.len(),
{
    if s.len() > 0 {
        let front = s.drop_last();
        lemma_rotate_all_positions(m, front);
        let p = rotate_all(m, front);
        lemma_rotation_replaces_one(p, s.last());
        if s.len() >= 2 {
            assert(front.last() == s[s.len() - 2]);
        }
    }
}

/// However many rotations run, the ring keeps its size and holds each of the
/// last `SPENDER_RING_SIZE` identities written, so no rotation drops all
/// earlier authority at once.
pub proof fn lemma_ring_keeps_recent(m: BridgeStateModel, spenders: Seq<Seq<u8>>)
    requires
        m.spenders.len() == SPENDER_RING_SIZE,
    ensures
        rotate_all(m, spenders).spenders.len() == SPENDER_RING_SIZE,
        forall|i: int|
            0 <= i < spenders.len() && spenders.len() - SPENDER_RING_SIZE <= i ==> rotate_all(
                m,
                spenders,
            ).spenders.contains(#[trigger] spenders[i]),
{
    lemma_rotate_all_positions(m, spenders);
    let r = rotate_all(m, spenders);
    assert forall|i: int|
        0 <= i < spenders.len() && spenders.len() - SPENDER_RING_SIZE <= i implies r.spenders.contains(
        #[trigger] spenders[i],
    ) by {
        if i == spenders.len() - 1 {
            assert(r.spenders[r.spender_index as int] == spenders[i]);
        } else {
            assert(r.spenders[1 - r.spender_index] == spenders[i]);
        }
    }
}

/// The caller signed and holds a ring slot.
pub open spec fn caller_is_spender(a: Seq<AccountModel>, st: BridgeStateModel) -> bool {
    a[0].is_signer && st.spenders.contains(a[0].key)
}

/// A TransferIn succeeds exactly when the caller is a spender, the nonce is
/// the expected one, the batch is non-empty with every amount positive, and
/// the account list holds two legs per amount. Breaking any one of these
/// alone fails with its own error.
pub proof fn lemma_transfer_in_conditions(
    program_id: Seq<u8>,
    a: Seq<AccountModel>,
    payload: Seq<u8>,
)
    requires
        a.len() >= 3,
        spec_load(program_id, a[2]) is Ok,
        (spec_load(program_id, a[2])->Ok_0).nonce < u64::MAX,
        decode_transfer_in(payload) is Some,
    ensures
        ({
            let st = spec_load(program_id, a[2])->Ok_0;
            let d = decode_transfer_in(payload)->0;
            let who = caller_is_spender(a, st);
            let nonce = d.nonce == st.nonce;
            let amounts = d.amounts.len() > 0 && all_positive(d.amounts);
            let shape = a.len() == 3 + 2 * d.amounts.len();
            let r = spec_transfer_in(program_id, a, payload);
            &&& r is Ok <==> who && nonce && amounts && shape
            &&& !who && nonce && amounts && shape ==> r == Err::<
                crate::processor::EffectsModel,
                BridgeError,
            >(BridgeError::NotAnAdmin)
            &&& who && !nonce && amounts && shape ==> r == Err::<
                crate::processor::EffectsModel,
                BridgeError,
            >(BridgeError::StaleNonce)
            &&& who && nonce && d.amounts.len() == 0 && shape ==> r == Err::<
                crate::processor::EffectsModel,
                BridgeError,
            >(BridgeError::EmptyBatch)
            &&& who && nonce && d.amounts.len() > 0 && !all_positive(d.amounts) && shape ==> r
                == Err::<crate::processor::EffectsModel, BridgeError>(BridgeError::InvalidAmount)
            &&& who && nonce && amounts && !shape ==> r == Err::<
                crate::processor::EffectsModel,
                BridgeError,
            >(BridgeError::AccountShape)
        }),
{
}

/// The same TransferIn, submitted again after the first one was applied to
/// the custody account, fails with `StaleNonce`.
pub proof fn lemma_replay_rejected(
    program_id: Seq<u8>,
    a: Seq<AccountModel>,
    payload: Seq<u8>,
    b: Seq<AccountModel>,
)
    requires
        spec_transfer_in(program_id, a, payload) is Ok,
        b.len() == a.len(),
        b[0] == a[0],
        b[2] == (AccountModel {
            data: (spec_transfer_in(program_id, a, payload)->Ok_0).state->0.bytes,
            ..a[2]
        }),
    ensures
        spec_transfer_in(program_id, b, payload) == Err::<
            crate::processor::EffectsModel,
            BridgeError,
        >(BridgeError::StaleNonce),
{
    let st = spec_load(program_id, a[2])->Ok_0;
    lemma_state_encode_decode(a[2].data);
    let next = BridgeStateModel { nonce: (st.nonce + 1) as u64, ..st };
    assert(state_shaped(next));
    lemma_state_decode_encode(next);
    assert(decode_state(b[2].data) == Some(next));
    assert(spec_load(program_id, b[2]) == Ok::<BridgeStateModel, BridgeError>(next));
}

} // verus!
