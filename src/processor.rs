//! The instruction processor: decodes an instruction, checks the account list
//! and the authorization policy against the stored state, and returns the
//! effects that the host must apply atomically. It makes no call itself, so a
//! failed instruction has no effect at all.
use crate::auth::{admin_policy, spender_policy};
use crate::custody::{custody_address, is_system_program, spec_custody_address, spec_system_program_id};
use crate::error::BridgeError;
use crate::identity::{Identity, IDENTITY_LEN};
use crate::invocation::{token_transfer, token_transfer_view, Invocation, InvocationModel};
use crate::state::{
    decode_add_spender, decode_state, decode_transfer_in, decode_transfer_out, initial_state,
    rotated, state_wire, BridgeInstruction, BridgeStateModel,
    BridgeStateV0, TransferInData, TransferOutData, TransferOutModel, STATE_LEN,
};
use vstd::prelude::*;

verus! {

// ---------------------------------------------------------------------------
// What an instruction sees, and what it asks of the host
// ---------------------------------------------------------------------------

/// An account passed to the instruction, as the host supplies it.
#[derive(Clone, Debug)]
pub struct AccountInput {
    pub key: Identity,
    pub is_signer: bool,
    pub is_writable: bool,
    /// The program that owns the account; the system program while it is unallocated.
    pub owner: Identity,
    pub data: Vec<u8>,
}

pub struct AccountModel {
    pub key: Seq<u8>,
    pub is_signer: bool,
    pub is_writable: bool,
    pub owner: Seq<u8>,
    pub data: Seq<u8>,
}

impl View for AccountInput {
    type V = AccountModel;

    open spec fn view(&self) -> AccountModel {
        AccountModel {
            key: self.key@,
            is_signer: self.is_signer,
            is_writable: self.is_writable,
            owner: self.owner@,
            data: self.data@,
        }
    }
}

pub open spec fn account_models(a: Seq<AccountInput>) -> Seq<AccountModel> {
    a.map_values(|x: AccountInput| x@)
}

/// Creation of the custody account: `space` bytes owned by `owner`, paid by `payer`.
#[derive(Clone, Copy, Debug)]
pub struct Allocation {
    pub payer: Identity,
    pub account: Identity,
    pub space: u64,
    pub owner: Identity,
}

pub struct AllocationModel {
    pub payer: Seq<u8>,
    pub account: Seq<u8>,
    pub space: u64,
    pub owner: Seq<u8>,
}

impl View for Allocation {
    type V = AllocationModel;

    open spec fn view(&self) -> AllocationModel {
        AllocationModel {
            payer: self.payer@,
            account: self.account@,
            space: self.space,
            owner: self.owner@,
        }
    }
}

/// What a successful instruction asks the host to do, in this order: create
/// the custody account, make the token transfers, write the new state into
/// the custody account. Where `custody_bump` is set, the custody account signs
/// the creation and the transfers with the seeds `[custody seed, [bump]]`.
#[derive(Clone, Debug)]
pub struct Effects {
    pub allocate: Option<Allocation>,
    pub transfers: Vec<Invocation>,
    pub custody_bump: Option<u8>,
    /// The deposit to announce to the relayer.
    pub deposit: Option<TransferOutData>,
    /// The new wire form of the bridge state, and the account it goes to.
    pub state: Option<StateWrite>,
}

/// Bytes to store as the whole data of an account.
#[derive(Clone, Debug)]
pub struct StateWrite {
    pub account: Identity,
    pub bytes: Vec<u8>,
}

pub struct StateWriteModel {
    pub account: Seq<u8>,
    pub bytes: Seq<u8>,
}

impl View for StateWrite {
    type V = StateWriteModel;

    open spec fn view(&self) -> StateWriteModel {
        StateWriteModel { account: self.account@, bytes: self.bytes@ }
    }
}

pub struct EffectsModel {
    pub allocate: Option<AllocationModel>,
    pub transfers: Seq<InvocationModel>,
    pub custody_bump: Option<u8>,
    pub deposit: Option<TransferOutModel>,
    pub state: Option<StateWriteModel>,
}

impl View for Effects {
    type V = EffectsModel;

    open spec fn view(&self) -> EffectsModel {
        EffectsModel {
            allocate: match self.allocate {
                Some(a) => Some(a@),
                None => None,
            },
            transfers: self.transfers@.map_values(|t: Invocation| t@),
            custody_bump: self.custody_bump,
            deposit: match self.deposit {
                Some(d) => Some(d@),
                None => None,
            },
            state: match self.state {
                Some(s) => Some(s@),
                None => None,
            },
        }
    }
}

pub open spec fn outcome(r: Result<Effects, BridgeError>) -> Result<EffectsModel, BridgeError> {
    match r {
        Ok(e) => Ok(e@),
        Err(x) => Err(x),
    }
}

// ---------------------------------------------------------------------------
// What each instruction does
// ---------------------------------------------------------------------------

/// Accounts: payer (signer), custody (writable, unallocated), system program.
pub open spec fn spec_initialize(program_id: Seq<u8>, a: Seq<AccountModel>) -> Result<
    EffectsModel,
    BridgeError,
> {
    if a.len() < 3 {
        Err(BridgeError::AccountShape)
    } else if !a[0].is_signer {
        Err(BridgeError::Unauthorized)
    } else if !a[1].is_writable || a[2].key != spec_system_program_id() {
        Err(BridgeError::AccountShape)
    } else if a[1].owner != spec_system_program_id() || a[1].data.len() != 0 {
        Err(BridgeError::InvalidCustodyAccount)
    } else {
        match spec_custody_address(program_id) {
            None => Err(BridgeError::InvalidCustodyAccount),
            Some((address, bump)) => if address != a[1].key {
                Err(BridgeError::InvalidCustodyAccount)
            } else {
                Ok(
                    EffectsModel {
                        allocate: Some(
                            AllocationModel {
                                payer: a[0].key,
                                account: a[1].key,
                                space: STATE_LEN as u64,
                                owner: program_id,
                            },
                        ),
                        transfers: seq![],
                        custody_bump: Some(bump),
                        deposit: None,
                        state: Some(
                            StateWriteModel {
                                account: a[1].key,
                                bytes: state_wire(initial_state(bump, a[0].key)),
                            },
                        ),
                    },
                )
            },
        }
    }
}

/// The stored state of an initialized custody account.
pub open spec fn spec_load(program_id: Seq<u8>, custody: AccountModel) -> Result<
    BridgeStateModel,
    BridgeError,
> {
    if custody.owner != program_id {
        Err(BridgeError::InvalidCustodyAccount)
    } else {
        match decode_state(custody.data) {
            Some(st) => Ok(st),
            None => Err(BridgeError::DecodeError),
        }
    }
}

/// Accounts: depositor (signer), token program, depositor's token account,
/// custody token account, custody.
pub open spec fn spec_transfer_out(
    program_id: Seq<u8>,
    a: Seq<AccountModel>,
    payload: Seq<u8>,
) -> Result<EffectsModel, BridgeError> {
    if a.len() < 5 {
        Err(BridgeError::AccountShape)
    } else if !a[0].is_signer {
        Err(BridgeError::Unauthorized)
    } else {
        match spec_load(program_id, a[4]) {
            Err(e) => Err(e),
            Ok(_) => match decode_transfer_out(payload) {
                None => Err(BridgeError::DecodeError),
                Some(d) => Ok(
                    EffectsModel {
                        allocate: None,
                        transfers: seq![token_transfer_view(a[2].key, a[3].key, a[0].key, d.amount)],
                        custody_bump: None,
                        deposit: Some(d),
                        state: None,
                    },
                ),
            },
        }
    }
}

pub open spec fn all_positive(amounts: Seq<u64>) -> bool {
    forall|i: int| 0 <= i < amounts.len() ==> amounts[i] > 0
}

/// The releases of a batch: leg `i` moves `amounts[i]` from account `3 + 2i`
/// to account `4 + 2i` under the custody account's authority.
pub open spec fn release_legs(a: Seq<AccountModel>, amounts: Seq<u64>) -> Seq<InvocationModel> {
    Seq::new(
        amounts.len(),
        |i: int| token_transfer_view(a[3 + 2 * i].key, a[4 + 2 * i].key, a[2].key, amounts[i]),
    )
}

/// Accounts: spender (signer), token program, custody, then for each amount
/// the custody token account and the destination token account.
pub open spec fn spec_transfer_in(
    program_id: Seq<u8>,
    a: Seq<AccountModel>,
    payload: Seq<u8>,
) -> Result<EffectsModel, BridgeError> {
    if a.len() < 3 {
        Err(BridgeError::AccountShape)
    } else {
        match spec_load(program_id, a[2]) {
            Err(e) => Err(e),
            Ok(st) => if !(a[0].is_signer && st.spenders.contains(a[0].key)) {
                Err(BridgeError::NotAnAdmin)
            } else {
                match decode_transfer_in(payload) {
                    None => Err(BridgeError::DecodeError),
                    Some(d) => if d.nonce != st.nonce || d.nonce == u64::MAX {
                        Err(BridgeError::StaleNonce)
                    } else if d.amounts.len() == 0 {
                        Err(BridgeError::EmptyBatch)
                    } else if !all_positive(d.amounts) {
                        Err(BridgeError::InvalidAmount)
                    } else if a.len() != 3 + 2 * d.amounts.len() {
                        Err(BridgeError::AccountShape)
                    } else {
                        Ok(
                            EffectsModel {
                                allocate: None,
                                transfers: release_legs(a, d.amounts),
                                custody_bump: Some(st.bump),
                                deposit: None,
                                state: Some(
                                    StateWriteModel {
                                        account: a[2].key,
                                        bytes: state_wire(
                                            BridgeStateModel { nonce: (st.nonce + 1) as u64, ..st },
                                        ),
                                    },
                                ),
                            },
                        )
                    },
                }
            },
        }
    }
}

/// Accounts: admin (signer), custody (writable).
pub open spec fn spec_add_spender(
    program_id: Seq<u8>,
    a: Seq<AccountModel>,
    payload: Seq<u8>,
) -> Result<EffectsModel, BridgeError> {
    if a.len() < 2 {
        Err(BridgeError::AccountShape)
    } else if !a[1].is_writable {
        Err(BridgeError::AccountShape)
    } else {
        match spec_load(program_id, a[1]) {
            Err(e) => Err(e),
            Ok(st) => if !(a[0].is_signer && a[0].key == st.admin) {
                Err(BridgeError::NotAnAdmin)
            } else {
                match decode_add_spender(payload) {
                    None => Err(BridgeError::DecodeError),
                    Some(spender) => Ok(
                        EffectsModel {
                            allocate: None,
                            transfers: seq![],
                            custody_bump: None,
                            deposit: None,
                            state: Some(
                                StateWriteModel {
                                    account: a[1].key,
                                    bytes: state_wire(rotated(st, spender)),
                                },
                            ),
                        },
                    ),
                }
            },
        }
    }
}

/// The whole instruction: an opcode byte, then that instruction's payload.
pub open spec fn spec_process(program_id: Seq<u8>, a: Seq<AccountModel>, data: Seq<u8>) -> Result<
    EffectsModel,
    BridgeError,
> {
    if data.len() == 0 {
        Err(BridgeError::DecodeError)
    } else {
        match BridgeInstruction::spec_from_opcode(data[0]) {
            None => Err(BridgeError::InvalidInstruction),
            Some(BridgeInstruction::Initialize) => if data.len() != 1 {
                Err(BridgeError::DecodeError)
            } else {
                spec_initialize(program_id, a)
            },
            Some(BridgeInstruction::TransferOut) => spec_transfer_out(program_id, a, data.skip(1)),
            Some(BridgeInstruction::TransferIn) => spec_transfer_in(program_id, a, data.skip(1)),
            Some(BridgeInstruction::AddSpender) => spec_add_spender(program_id, a, data.skip(1)),
            Some(BridgeInstruction::RemoveSpender) => Err(BridgeError::NotImplemented),
            Some(BridgeInstruction::ChangeAdmin) => Err(BridgeError::NotImplemented),
        }
    }
}

// ---------------------------------------------------------------------------
// The processor
// ---------------------------------------------------------------------------

/// Whether every amount of a batch is positive.
pub fn amounts_positive(amounts: &Vec<u64>) -> (r: bool)
    ensures
        r == all_positive(amounts@),
{
    let mut i: usize = 0;
    while i < amounts.len()
        invariant
            0 <= i <= amounts@.len(),
            forall|j: int| 0 <= j < i ==> amounts@[j] > 0,
        decreases amounts@.len() - i,
    {
        if amounts[i] == 0 {
            assert(amounts@[i as int] == 0);
            return false;
        }
        i = i + 1;
    }
    true
}

pub struct Processor {}

impl Processor {
    pub fn process_instruction(
        program_id: &Identity,
        accounts: &[AccountInput],
        instruction_data: &[u8],
    ) -> (r: Result<Effects, BridgeError>)
        ensures
            outcome(r) == spec_process(program_id@, account_models(accounts@), instruction_data@),
    {
        if instruction_data.len() == 0 {
            return Err(BridgeError::DecodeError);
        }
        let instruction = match BridgeInstruction::from_opcode(instruction_data[0]) {
            Some(i) => i,
            None => return Err(BridgeError::InvalidInstruction),
        };
        match instruction {
            BridgeInstruction::Initialize => {
                if instruction_data.len() != 1 {
                    return Err(BridgeError::DecodeError);
                }
                Processor::initialize(program_id, accounts)
            },
            BridgeInstruction::TransferOut => Processor::transfer_out(
                program_id,
                accounts,
                instruction_data,
            ),
            BridgeInstruction::TransferIn => Processor::transfer_in(
                program_id,
                accounts,
                instruction_data,
            ),
            BridgeInstruction::AddSpender => Processor::add_spender(
                program_id,
                accounts,
                instruction_data,
            ),
            BridgeInstruction::RemoveSpender => Err(BridgeError::NotImplemented),
            BridgeInstruction::ChangeAdmin => Err(BridgeError::NotImplemented),
        }
    }

    fn initialize(program_id: &Identity, accounts: &[AccountInput]) -> (r: Result<
        Effects,
        BridgeError,
    >)
        ensures
            outcome(r) == spec_initialize(program_id@, account_models(accounts@)),
    {
        if accounts.len() < 3 {
            return Err(BridgeError::AccountShape);
        }
        let payer = &accounts[0];
        let custody = &accounts[1];
        let system = &accounts[2];
        if !payer.is_signer {
            return Err(BridgeError::Unauthorized);
        }
        if !custody.is_writable || !is_system_program(&system.key) {
            return Err(BridgeError::AccountShape);
        }
        if !is_system_program(&custody.owner) || custody.data.len() != 0 {
            return Err(BridgeError::InvalidCustodyAccount);
        }
        let (address, bump) = match custody_address(program_id) {
            Some(x) => x,
            None => return Err(BridgeError::InvalidCustodyAccount),
        };
        if !address.same(&custody.key) {
            return Err(BridgeError::InvalidCustodyAccount);
        }
        let state = BridgeStateV0::new(bump, payer.key);
        let bytes = match state.try_to_vec() {
            Ok(b) => b,
            Err(e) => return Err(e),
        };
        let allocation = Allocation {
            payer: payer.key,
            account: custody.key,
            space: STATE_LEN as u64,
            owner: *program_id,
        };
        let r = Effects {
            allocate: Some(allocation),
            transfers: Vec::new(),
            custody_bump: Some(bump),
            deposit: None,
            state: Some(StateWrite { account: custody.key, bytes }),
        };
        assert(r@.transfers =~= seq![]);
        Ok(r)
    }

    /// Loads the state stored in an initialized custody account.
    fn load(program_id: &Identity, custody: &AccountInput) -> (r: Result<BridgeStateV0, BridgeError>)
        ensures
            match spec_load(program_id@, custody@) {
                Ok(st) => r matches Ok(s) && s@ == st,
                Err(e) => r == Err::<BridgeStateV0, BridgeError>(e),
            },
    {
        if !custody.owner.same(program_id) {
            return Err(BridgeError::InvalidCustodyAccount);
        }
        BridgeStateV0::try_from_slice(custody.data.as_slice())
    }

    fn transfer_out(program_id: &Identity, accounts: &[AccountInput], data: &[u8]) -> (r: Result<
        Effects,
        BridgeError,
    >)
        requires
            data@.len() >= 1,
        ensures
            outcome(r) == spec_transfer_out(program_id@, account_models(accounts@), data@.skip(1)),
    {
        if accounts.len() < 5 {
            return Err(BridgeError::AccountShape);
        }
        let depositor = &accounts[0];
        if !depositor.is_signer {
            return Err(BridgeError::Unauthorized);
        }
        match Processor::load(program_id, &accounts[4]) {
            Ok(_) => {},
            Err(e) => return Err(e),
        }
        let payload = match TransferOutData::read(data, 1) {
            Some((d, n)) => {
                if n != data.len() {
                    return Err(BridgeError::DecodeError);
                }
                d
            },
            None => return Err(BridgeError::DecodeError),
        };
        let lock = match token_transfer(
            &accounts[2].key,
            &accounts[3].key,
            &depositor.key,
            payload.amount,
        ) {
            Some(inv) => inv,
            None => return Err(BridgeError::AccountShape),
        };
        let mut transfers: Vec<Invocation> = Vec::new();
        transfers.push(lock);
        let r = Effects {
            allocate: None,
            transfers,
            custody_bump: None,
            deposit: Some(payload),
            state: None,
        };
        assert(r@.transfers =~= seq![
            token_transfer_view(accounts@[2]@.key, accounts@[3]@.key, accounts@[0]@.key, payload.amount),
        ]);
        Ok(r)
    }

    fn transfer_in(program_id: &Identity, accounts: &[AccountInput], data: &[u8]) -> (r: Result<
        Effects,
        BridgeError,
    >)
        requires
            data@.len() >= 1,
        ensures
            outcome(r) == spec_transfer_in(program_id@, account_models(accounts@), data@.skip(1)),
    {
        let ghost a = account_models(accounts@);
        if accounts.len() < 3 {
            return Err(BridgeError::AccountShape);
        }
        let custody = &accounts[2];
        let state = match Processor::load(program_id, custody) {
            Ok(st) => st,
            Err(e) => return Err(e),
        };
        if !spender_policy(&state, &accounts[0].key, accounts[0].is_signer) {
            return Err(BridgeError::NotAnAdmin);
        }
        let payload = match TransferInData::read(data, 1) {
            Some((d, n)) => {
                if n != data.len() {
                    return Err(BridgeError::DecodeError);
                }
                d
            },
            None => return Err(BridgeError::DecodeError),
        };
        if payload.nonce != state.nonce || payload.nonce == u64::MAX {
            return Err(BridgeError::StaleNonce);
        }
        let k = payload.amounts.len();
        if k == 0 {
            return Err(BridgeError::EmptyBatch);
        }
        if !amounts_positive(&payload.amounts) {
            return Err(BridgeError::InvalidAmount);
        }
        let legs = accounts.len() - 3;
        if legs % 2 != 0 || legs / 2 != k {
            return Err(BridgeError::AccountShape);
        }
        let mut transfers: Vec<Invocation> = Vec::new();
        let mut i: usize = 0;
        while i < k
            invariant
                k == payload.amounts@.len(),
                accounts.len() == 3 + 2 * k,
                a == account_models(accounts@),
                custody == &accounts@[2],
                0 <= i <= k,
                transfers@.map_values(|t: Invocation| t@) == release_legs(a, payload.amounts@).take(
                    i as int,
                ),
            decreases k - i,
        {
            let leg = match token_transfer(
                &accounts[3 + 2 * i].key,
                &accounts[4 + 2 * i].key,
                &custody.key,
                payload.amounts[i],
            ) {
                Some(inv) => inv,
                None => return Err(BridgeError::AccountShape),
            };
            assert(leg@ == release_legs(a, payload.amounts@)[i as int]);
            let ghost prev = transfers@;
            transfers.push(leg);
            assert(transfers@.map_values(|t: Invocation| t@) =~= prev.map_values(
                |t: Invocation| t@,
            ).push(leg@));
            i = i + 1;
            assert(transfers@.map_values(|t: Invocation| t@) =~= release_legs(
                a,
                payload.amounts@,
            ).take(i as int));
        }
        assert(release_legs(a, payload.amounts@).take(k as int) =~= release_legs(
            a,
            payload.amounts@,
        ));
        let next = BridgeStateV0 { nonce: state.nonce + 1, ..state };
        let bytes = match next.try_to_vec() {
            Ok(b) => b,
            Err(e) => return Err(e),
        };
        Ok(
            Effects {
                allocate: None,
                transfers,
                custody_bump: Some(state.bump),
                deposit: None,
                state: Some(StateWrite { account: custody.key, bytes }),
            },
        )
    }

    fn add_spender(program_id: &Identity, accounts: &[AccountInput], data: &[u8]) -> (r: Result<
        Effects,
        BridgeError,
    >)
        requires
            data@.len() >= 1,
        ensures
            outcome(r) == spec_add_spender(program_id@, account_models(accounts@), data@.skip(1)),
    {
        if accounts.len() < 2 {
            return Err(BridgeError::AccountShape);
        }
        let admin = &accounts[0];
        let custody = &accounts[1];
        if !custody.is_writable {
            return Err(BridgeError::AccountShape);
        }
        let mut state = match Processor::load(program_id, custody) {
            Ok(st) => st,
            Err(e) => return Err(e),
        };
        if !admin_policy(&state, &admin.key, admin.is_signer) {
            return Err(BridgeError::NotAnAdmin);
        }
        if data.len() != 1 + IDENTITY_LEN {
            return Err(BridgeError::DecodeError);
        }
        let spender = Identity::from_slice_at(data, 1);
        assert(data@.subrange(1, 33) =~= data@.skip(1));
        state.add_spender(spender);
        let bytes = match state.try_to_vec() {
            Ok(b) => b,
            Err(e) => return Err(e),
        };
        let r = Effects {
            allocate: None,
            transfers: Vec::new(),
            custody_bump: None,
            deposit: None,
            state: Some(StateWrite { account: custody.key, bytes }),
        };
        assert(r@.transfers =~= seq![]);
        Ok(r)
    }
}

} // verus!
