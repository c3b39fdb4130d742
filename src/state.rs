//! Instruction opcodes, instruction payloads and the persisted bridge state,
//! each with its wire form.
use crate::codec::{
    lemma_take_string_parts, lemma_take_string_wire, lemma_take_u64_list_parts,
    lemma_take_u64_list_wire, lemma_take_u64_parts, lemma_take_u64_wire, lemma_u64_le_bytes,
    lemma_u64_le_value, le_u64, u64_of_le, read_string, read_u64, read_u64_list, string_fits, string_fits_wire,
    string_wire, take_string, take_u64, take_u64_list, u64_list_wire, write_string,
    write_u64, write_u64_list, write_u8,
};
use crate::error::BridgeError;
use crate::identity::{Identity, IDENTITY_LEN};
use vstd::prelude::*;

verus! {

// ---------------------------------------------------------------------------
// Opcodes
// ---------------------------------------------------------------------------

/// The instruction named by the first byte of the instruction data.
#[derive(Clone, Copy, Debug, PartialEq, Eq, Structural)]
pub enum BridgeInstruction {
    Initialize,
    TransferOut,
    TransferIn,
    AddSpender,
    RemoveSpender,
    ChangeAdmin,
}

impl BridgeInstruction {
    pub open spec fn spec_opcode(self) -> u8 {
        match self {
            BridgeInstruction::Initialize => 0,
            BridgeInstruction::TransferOut => 1,
            BridgeInstruction::TransferIn => 2,
            BridgeInstruction::AddSpender => 3,
            BridgeInstruction::RemoveSpender => 4,
            BridgeInstruction::ChangeAdmin => 5,
        }
    }

    pub open spec fn spec_from_opcode(b: u8) -> Option<BridgeInstruction> {
        if b == 0 {
            Some(BridgeInstruction::Initialize)
        } else if b == 1 {
            Some(BridgeInstruction::TransferOut)
        } else if b == 2 {
            Some(BridgeInstruction::TransferIn)
        } else if b == 3 {
            Some(BridgeInstruction::AddSpender)
        } else if b == 4 {
            Some(BridgeInstruction::RemoveSpender)
        } else if b == 5 {
            Some(BridgeInstruction::ChangeAdmin)
        } else {
            None
        }
    }

    pub fn opcode(&self) -> (r: u8)
        ensures
            r == self.spec_opcode(),
    {
        match self {
            BridgeInstruction::Initialize => 0,
            BridgeInstruction::TransferOut => 1,
            BridgeInstruction::TransferIn => 2,
            BridgeInstruction::AddSpender => 3,
            BridgeInstruction::RemoveSpender => 4,
            BridgeInstruction::ChangeAdmin => 5,
        }
    }

    pub fn from_opcode(b: u8) -> (r: Option<BridgeInstruction>)
        ensures
            r == Self::spec_from_opcode(b),
    {
        if b == 0 {
            Some(BridgeInstruction::Initialize)
        } else if b == 1 {
            Some(BridgeInstruction::TransferOut)
        } else if b == 2 {
            Some(BridgeInstruction::TransferIn)
        } else if b == 3 {
            Some(BridgeInstruction::AddSpender)
        } else if b == 4 {
            Some(BridgeInstruction::RemoveSpender)
        } else if b == 5 {
            Some(BridgeInstruction::ChangeAdmin)
        } else {
            None
        }
    }

    /// The one-byte wire form.
    pub fn try_to_vec(&self) -> (r: Result<Vec<u8>, BridgeError>)
        ensures
            r matches Ok(v) && v@ == seq![self.spec_opcode()],
    {
        let mut out: Vec<u8> = Vec::new();
        write_u8(&mut out, self.opcode());
        assert(out@ =~= seq![self.spec_opcode()]);
        Ok(out)
    }

    /// Reads an opcode that must be the whole of `data`.
    pub fn try_from_slice(data: &[u8]) -> (r: Result<BridgeInstruction, BridgeError>)
        ensures
            data@.len() != 1 ==> r == Err::<BridgeInstruction, BridgeError>(BridgeError::DecodeError),
            data@.len() == 1 ==> r == match Self::spec_from_opcode(data@[0]) {
                Some(i) => Ok(i),
                None => Err(BridgeError::InvalidInstruction),
            },
    {
        if data.len() != 1 {
            return Err(BridgeError::DecodeError);
        }
        match Self::from_opcode(data[0]) {
            Some(i) => Ok(i),
            None => Err(BridgeError::InvalidInstruction),
        }
    }
}

// ---------------------------------------------------------------------------
// TransferOut payload
// ---------------------------------------------------------------------------

/// A deposit: `amount` units locked here for `recipient` on chain `chain_id`.
#[derive(Clone, Debug, PartialEq, Eq)]
pub struct TransferOutData {
    pub amount: u64,
    pub token_address: String,
    pub chain_id: u64,
    pub recipient: String,
}

pub struct TransferOutModel {
    pub amount: u64,
    pub token_address: Seq<char>,
    pub chain_id: u64,
    pub recipient: Seq<char>,
}

impl View for TransferOutData {
    type V = TransferOutModel;

    open spec fn view(&self) -> TransferOutModel {
        TransferOutModel {
            amount: self.amount,
            token_address: self.token_address@,
            chain_id: self.chain_id,
            recipient: self.recipient@,
        }
    }
}

pub open spec fn transfer_out_fits(m: TransferOutModel) -> bool {
    string_fits(m.token_address) && string_fits(m.recipient)
}

pub open spec fn transfer_out_wire(m: TransferOutModel) -> Seq<u8> {
    le_u64(m.amount) + string_wire(m.token_address) + le_u64(m.chain_id) + string_wire(
        m.recipient,
    )
}

pub open spec fn take_transfer_out(b: Seq<u8>) -> Option<(TransferOutModel, Seq<u8>)> {
    match take_u64(b) {
        None => None,
        Some((amount, r1)) => match take_string(r1) {
            None => None,
            Some((token_address, r2)) => match take_u64(r2) {
                None => None,
                Some((chain_id, r3)) => match take_string(r3) {
                    None => None,
                    Some((recipient, r4)) => Some(
                        (TransferOutModel { amount, token_address, chain_id, recipient }, r4),
                    ),
                },
            },
        },
    }
}

/// The payload that the whole of `b` encodes, if any.
pub open spec fn decode_transfer_out(b: Seq<u8>) -> Option<TransferOutModel> {
    match take_transfer_out(b) {
        Some((m, rest)) => if rest.len() == 0 {
            Some(m)
        } else {
            None
        },
        None => None,
    }
}

impl TransferOutData {
    pub fn try_to_vec(&self) -> (r: Result<Vec<u8>, BridgeError>)
        ensures
            r is Ok <==> transfer_out_fits(self@),
            r matches Ok(v) ==> v@ == transfer_out_wire(self@),
            r matches Err(e) ==> e == BridgeError::DecodeError,
    {
        if !string_fits_wire(&self.token_address) || !string_fits_wire(&self.recipient) {
            return Err(BridgeError::DecodeError);
        }
        let mut out: Vec<u8> = Vec::new();
        write_u64(&mut out, self.amount);
        write_string(&mut out, &self.token_address);
        write_u64(&mut out, self.chain_id);
        write_string(&mut out, &self.recipient);
        assert(out@ =~= transfer_out_wire(self@));
        Ok(out)
    }

    /// Reads the payload at `at`, giving it and the position after it.
    pub fn read(b: &[u8], at: usize) -> (r: Option<(TransferOutData, usize)>)
        requires
            at <= b@.len(),
        ensures
            match take_transfer_out(b@.skip(at as int)) {
                Some((m, rest)) => r is Some && (r->0).0@ == m && (r->0).1 <= b@.len() && b@.skip(
                    (r->0).1 as int,
                ) == rest,
                None => r is None,
            },
    {
        let (amount, at_token) = match read_u64(b, at) {
            Some(x) => x,
            None => return None,
        };
        let (token_address, at_chain) = match read_string(b, at_token) {
            Some(x) => x,
            None => return None,
        };
        let (chain_id, at_recipient) = match read_u64(b, at_chain) {
            Some(x) => x,
            None => return None,
        };
        let (recipient, end) = match read_string(b, at_recipient) {
            Some(x) => x,
            None => return None,
        };
        Some((TransferOutData { amount, token_address, chain_id, recipient }, end))
    }

    /// Reads a payload that must be the whole of `data`.
    pub fn try_from_slice(data: &[u8]) -> (r: Result<TransferOutData, BridgeError>)
        ensures
            r is Ok <==> decode_transfer_out(data@) is Some,
            r matches Ok(d) ==> decode_transfer_out(data@) == Some(d@),
            r matches Err(e) ==> e == BridgeError::DecodeError,
    {
        assert(data@.skip(0) =~= data@);
        match Self::read(data, 0) {
            Some((d, n)) => {
                if n == data.len() {
                    Ok(d)
                } else {
                    Err(BridgeError::DecodeError)
                }
            },
            None => Err(BridgeError::DecodeError),
        }
    }
}

// ---------------------------------------------------------------------------
// TransferIn payload
// ---------------------------------------------------------------------------

/// A withdrawal batch: one release per amount, under replay nonce `nonce`.
#[derive(Clone, Debug, PartialEq, Eq)]
pub struct TransferInData {
    pub nonce: u64,
    pub amounts: Vec<u64>,
}

pub struct TransferInModel {
    pub nonce: u64,
    pub amounts: Seq<u64>,
}

impl View for TransferInData {
    type V = TransferInModel;

    open spec fn view(&self) -> TransferInModel {
        TransferInModel { nonce: self.nonce, amounts: self.amounts@ }
    }
}

pub open spec fn transfer_in_fits(m: TransferInModel) -> bool {
    m.amounts.len() <= u32::MAX
}

pub open spec fn transfer_in_wire(m: TransferInModel) -> Seq<u8> {
    le_u64(m.nonce) + u64_list_wire(m.amounts)
}

pub open spec fn take_transfer_in(b: Seq<u8>) -> Option<(TransferInModel, Seq<u8>)> {
    match take_u64(b) {
        None => None,
        Some((nonce, r1)) => match take_u64_list(r1) {
            None => None,
            Some((amounts, r2)) => Some((TransferInModel { nonce, amounts }, r2)),
        },
    }
}

pub open spec fn decode_transfer_in(b: Seq<u8>) -> Option<TransferInModel> {
    match take_transfer_in(b) {
        Some((m, rest)) => if rest.len() == 0 {
            Some(m)
        } else {
            None
        },
        None => None,
    }
}

impl TransferInData {
    pub fn try_to_vec(&self) -> (r: Result<Vec<u8>, BridgeError>)
        ensures
            r is Ok <==> transfer_in_fits(self@),
            r matches Ok(v) ==> v@ == transfer_in_wire(self@),
            r matches Err(e) ==> e == BridgeError::DecodeError,
    {
        if self.amounts.len() > 0xffff_ffffusize {
            return Err(BridgeError::DecodeError);
        }
        let mut out: Vec<u8> = Vec::new();
        write_u64(&mut out, self.nonce);
        write_u64_list(&mut out, &self.amounts);
        assert(out@ =~= transfer_in_wire(self@));
        Ok(out)
    }

    pub fn read(b: &[u8], at: usize) -> (r: Option<(TransferInData, usize)>)
        requires
            at <= b@.len(),
        ensures
            match take_transfer_in(b@.skip(at as int)) {
                Some((m, rest)) => r is Some && (r->0).0@ == m && (r->0).1 <= b@.len() && b@.skip(
                    (r->0).1 as int,
                ) == rest,
                None => r is None,
            },
    {
        let (nonce, at_amounts) = match read_u64(b, at) {
            Some(x) => x,
            None => return None,
        };
        let (amounts, end) = match read_u64_list(b, at_amounts) {
            Some(x) => x,
            None => return None,
        };
        Some((TransferInData { nonce, amounts }, end))
    }

    pub fn try_from_slice(data: &[u8]) -> (r: Result<TransferInData, BridgeError>)
        ensures
            r is Ok <==> decode_transfer_in(data@) is Some,
            r matches Ok(d) ==> decode_transfer_in(data@) == Some(d@),
            r matches Err(e) ==> e == BridgeError::DecodeError,
    {
        assert(data@.skip(0) =~= data@);
        match Self::read(data, 0) {
            Some((d, n)) => {
                if n == data.len() {
                    Ok(d)
                } else {
                    Err(BridgeError::DecodeError)
                }
            },
            None => Err(BridgeError::DecodeError),
        }
    }
}

/// A whole TransferIn instruction: its opcode followed by its payload.
#[derive(Clone, Debug, PartialEq, Eq)]
pub struct TransferInIx {
    pub bridge_ix: BridgeInstruction,
    pub transfer_data: TransferInData,
}

impl TransferInIx {
    pub fn from_data(data: TransferInData) -> (r: TransferInIx)
        ensures
            r.bridge_ix == BridgeInstruction::TransferIn,
            r.transfer_data == data,
    {
        TransferInIx { bridge_ix: BridgeInstruction::TransferIn, transfer_data: data }
    }

    /// The instruction data: the opcode byte, then the payload.
    pub fn try_to_vec(&self) -> (r: Result<Vec<u8>, BridgeError>)
        ensures
            r is Ok <==> transfer_in_fits(self.transfer_data@),
            r matches Ok(v) ==> v@ == seq![self.bridge_ix.spec_opcode()] + transfer_in_wire(
                self.transfer_data@,
            ),
            r matches Err(e) ==> e == BridgeError::DecodeError,
    {
        let payload = match self.transfer_data.try_to_vec() {
            Ok(p) => p,
            Err(e) => return Err(e),
        };
        let mut out: Vec<u8> = Vec::new();
        write_u8(&mut out, self.bridge_ix.opcode());
        let mut i: usize = 0;
        while i < payload.len()
            invariant
                0 <= i <= payload@.len(),
                out@ == seq![self.bridge_ix.spec_opcode()] + payload@.take(i as int),
            decreases payload@.len() - i,
        {
            out.push(payload[i]);
            i = i + 1;
            assert(out@ =~= seq![self.bridge_ix.spec_opcode()] + payload@.take(i as int));
        }
        assert(payload@.take(payload@.len() as int) =~= payload@);
        Ok(out)
    }
}

// ---------------------------------------------------------------------------
// AddSpender payload
// ---------------------------------------------------------------------------

/// The identity to rotate into the spender ring.
#[derive(Clone, Copy, Debug)]
pub struct AddSpenderData {
    pub spender: Identity,
}

impl View for AddSpenderData {
    type V = Seq<u8>;

    open spec fn view(&self) -> Seq<u8> {
        self.spender@
    }
}

pub open spec fn add_spender_wire(spender: Seq<u8>) -> Seq<u8> {
    spender
}

pub open spec fn decode_add_spender(b: Seq<u8>) -> Option<Seq<u8>> {
    if b.len() == IDENTITY_LEN {
        Some(b)
    } else {
        None
    }
}

impl AddSpenderData {
    pub fn try_to_vec(&self) -> (r: Result<Vec<u8>, BridgeError>)
        ensures
            r matches Ok(v) && v@ == add_spender_wire(self@),
    {
        let mut out: Vec<u8> = Vec::new();
        let mut i: usize = 0;
        while i < IDENTITY_LEN
            invariant
                0 <= i <= IDENTITY_LEN,
                out@ == self@.take(i as int),
            decreases IDENTITY_LEN - i,
        {
            out.push(self.spender.bytes[i]);
            i = i + 1;
            assert(out@ =~= self@.take(i as int));
        }
        assert(self@.take(32) =~= self@);
        Ok(out)
    }

    pub fn try_from_slice(data: &[u8]) -> (r: Result<AddSpenderData, BridgeError>)
        ensures
            r is Ok <==> decode_add_spender(data@) is Some,
            r matches Ok(d) ==> decode_add_spender(data@) == Some(d@),
            r matches Err(e) ==> e == BridgeError::DecodeError,
    {
        if data.len() != IDENTITY_LEN {
            return Err(BridgeError::DecodeError);
        }
        let spender = Identity::from_slice_at(data, 0);
        assert(data@.subrange(0, 32) =~= data@);
        Ok(AddSpenderData { spender })
    }
}

// ---------------------------------------------------------------------------
// Bridge state
// ---------------------------------------------------------------------------

/// Number of slots in the spender ring.
pub const SPENDER_RING_SIZE: usize = 2;

/// Schema version written by this library.
pub const STATE_VERSION: u8 = 0;

/// Length of the state's wire form: version, bump, admin, the ring, cursor, nonce.
pub const STATE_LEN: usize = 107;

/// The persisted record of one bridge deployment, stored in the custody account.
#[derive(Clone, Copy, Debug)]
pub struct BridgeStateV0 {
    pub version: u8,
    /// Salt that makes the custody address's derivation valid.
    pub bump: u8,
    /// The one identity that may rotate spenders.
    pub admin: Identity,
    /// The identities that may release custody funds.
    pub spenders: [Identity; SPENDER_RING_SIZE],
    /// The ring slot written most recently.
    pub spender_index: u8,
    /// The nonce that the next withdrawal must carry.
    pub nonce: u64,
}

pub struct BridgeStateModel {
    pub version: u8,
    pub bump: u8,
    pub admin: Seq<u8>,
    pub spenders: Seq<Seq<u8>>,
    pub spender_index: u8,
    pub nonce: u64,
}

impl View for BridgeStateV0 {
    type V = BridgeStateModel;

    open spec fn view(&self) -> BridgeStateModel {
        BridgeStateModel {
            version: self.version,
            bump: self.bump,
            admin: self.admin@,
            spenders: self.spenders@.map_values(|i: Identity| i@),
            spender_index: self.spender_index,
            nonce: self.nonce,
        }
    }
}

/// Every identity is 32 bytes and the ring has its fixed number of slots.
pub open spec fn state_shaped(m: BridgeStateModel) -> bool {
    &&& m.admin.len() == IDENTITY_LEN
    &&& m.spenders.len() == SPENDER_RING_SIZE
    &&& forall|i: int| 0 <= i < m.spenders.len() ==> (#[trigger] m.spenders[i]).len() == IDENTITY_LEN
}

/// The state that Initialize writes for admin `admin` and derivation salt `bump`.
pub open spec fn initial_state(bump: u8, admin: Seq<u8>) -> BridgeStateModel {
    BridgeStateModel {
        version: STATE_VERSION,
        bump,
        admin,
        spenders: seq![admin, admin],
        spender_index: 0,
        nonce: 0,
    }
}

/// The ring slot that the next rotation overwrites: the one after the cursor.
pub open spec fn next_slot(m: BridgeStateModel) -> int {
    (m.spender_index + 1) % (SPENDER_RING_SIZE as int)
}

/// The state after `spender` replaces the oldest ring slot.
pub open spec fn rotated(m: BridgeStateModel, spender: Seq<u8>) -> BridgeStateModel {
    BridgeStateModel {
        spenders: m.spenders.update(next_slot(m), spender),
        spender_index: next_slot(m) as u8,
        ..m
    }
}

pub open spec fn state_wire(m: BridgeStateModel) -> Seq<u8> {
    seq![m.version, m.bump] + m.admin + m.spenders[0] + m.spenders[1] + seq![m.spender_index]
        + le_u64(m.nonce)
}

pub open spec fn decode_state(b: Seq<u8>) -> Option<BridgeStateModel> {
    if b.len() == STATE_LEN {
        Some(
            BridgeStateModel {
                version: b[0],
                bump: b[1],
                admin: b.subrange(2, 34),
                spenders: seq![b.subrange(34, 66), b.subrange(66, 98)],
                spender_index: b[98],
                nonce: u64_of_le(b.skip(99)),
            },
        )
    } else {
        None
    }
}

fn write_identity(out: &mut Vec<u8>, id: &Identity)
    ensures
        final(out)@ == old(out)@ + id@,
{
    let mut i: usize = 0;
    while i < IDENTITY_LEN
        invariant
            0 <= i <= IDENTITY_LEN,
            out@ == old(out)@ + id@.take(i as int),
        decreases IDENTITY_LEN - i,
    {
        out.push(id.bytes[i]);
        i = i + 1;
        assert(out@ =~= old(out)@ + id@.take(i as int));
    }
    assert(id@.take(32) =~= id@);
}

impl BridgeStateV0 {
    /// The state of a freshly initialized bridge: both ring slots hold the admin.
    pub fn new(bump: u8, admin: Identity) -> (r: BridgeStateV0)
        ensures
            r@ == initial_state(bump, admin@),
    {
        let r = BridgeStateV0 {
            version: STATE_VERSION,
            bump,
            admin,
            spenders: [admin, admin],
            spender_index: 0,
            nonce: 0,
        };
        assert(r@.spenders =~= seq![admin@, admin@]);
        r
    }

    /// Writes `spender` over the oldest ring slot and moves the cursor to it.
    pub fn add_spender(&mut self, spender: Identity)
        ensures
            final(self)@ == rotated(old(self)@, spender@),
            final(self).bump == old(self).bump,
            final(self).admin == old(self).admin,
            final(self).nonce == old(self).nonce,
    {
        let slot: usize = ((self.spender_index as usize) + 1) % SPENDER_RING_SIZE;
        self.spenders[slot] = spender;
        self.spender_index = slot as u8;
        assert(self@.spenders =~= rotated(old(self)@, spender@).spenders);
    }

    pub fn try_to_vec(&self) -> (r: Result<Vec<u8>, BridgeError>)
        ensures
            r matches Ok(v) && v@ == state_wire(self@),
    {
        let mut out: Vec<u8> = Vec::new();
        write_u8(&mut out, self.version);
        write_u8(&mut out, self.bump);
        write_identity(&mut out, &self.admin);
        write_identity(&mut out, &self.spenders[0]);
        write_identity(&mut out, &self.spenders[1]);
        write_u8(&mut out, self.spender_index);
        write_u64(&mut out, self.nonce);
        assert(out@ =~= state_wire(self@));
        Ok(out)
    }

    /// Reads a state that must be the whole of `data`.
    pub fn try_from_slice(data: &[u8]) -> (r: Result<BridgeStateV0, BridgeError>)
        ensures
            r is Ok <==> decode_state(data@) is Some,
            r matches Ok(st) ==> decode_state(data@) == Some(st@),
            r matches Err(e) ==> e == BridgeError::DecodeError,
    {
        if data.len() != STATE_LEN {
            return Err(BridgeError::DecodeError);
        }
        let admin = Identity::from_slice_at(data, 2);
        let s0 = Identity::from_slice_at(data, 34);
        let s1 = Identity::from_slice_at(data, 66);
        let nonce = match read_u64(data, 99) {
            Some((v, _)) => v,
            None => return Err(BridgeError::DecodeError),
        };
        let st = BridgeStateV0 {
            version: data[0],
            bump: data[1],
            admin,
            spenders: [s0, s1],
            spender_index: data[98],
            nonce,
        };
        assert(st@.spenders =~= seq![data@.subrange(34, 66), data@.subrange(66, 98)]);
        Ok(st)
    }
}

// ---------------------------------------------------------------------------
// Decoding and encoding undo each other
// ---------------------------------------------------------------------------

/// Every opcode byte that names an instruction is that instruction's opcode,
/// and every instruction's opcode names it.
pub proof fn lemma_opcode_round_trip(ix: BridgeInstruction, b: u8)
    ensures
        BridgeInstruction::spec_from_opcode(ix.spec_opcode()) == Some(ix),
        BridgeInstruction::spec_from_opcode(b) matches Some(i) ==> i.spec_opcode() == b,
{
}

/// A TransferOut payload whose strings fit the length prefix decodes from
/// its wire form to itself.
pub proof fn lemma_transfer_out_decode_encode(m: TransferOutModel)
    requires
        transfer_out_fits(m),
    ensures
        decode_transfer_out(transfer_out_wire(m)) == Some(m),
{
    let e = Seq::<u8>::empty();
    let t3 = string_wire(m.recipient);
    let t2 = le_u64(m.chain_id) + t3;
    let t1 = string_wire(m.token_address) + t2;
    let w = transfer_out_wire(m);
    assert(w =~= le_u64(m.amount) + t1);
    lemma_take_u64_wire(m.amount, t1);
    lemma_take_string_wire(m.token_address, t2);
    lemma_take_u64_wire(m.chain_id, t3);
    assert(t3 =~= string_wire(m.recipient) + e);
    lemma_take_string_wire(m.recipient, e);
    assert(take_u64(w) == Some((m.amount, t1)));
    assert(take_string(t1) == Some((m.token_address, t2)));
    assert(take_u64(t2) == Some((m.chain_id, t3)));
    assert(take_string(t3) == Some((m.recipient, e)));
    assert(take_transfer_out(w) == Some((m, e)));
}

/// Bytes that decode as a TransferOut payload are the wire form of what they decode to.
pub proof fn lemma_transfer_out_encode_decode(b: Seq<u8>)
    requires
        decode_transfer_out(b) is Some,
    ensures
        transfer_out_fits(decode_transfer_out(b)->0),
        transfer_out_wire(decode_transfer_out(b)->0) == b,
{
    let (_, r1) = take_u64(b)->0;
    let (_, r2) = take_string(r1)->0;
    let (_, r3) = take_u64(r2)->0;
    lemma_take_u64_parts(b);
    lemma_take_string_parts(r1);
    lemma_take_u64_parts(r2);
    lemma_take_string_parts(r3);
    assert(transfer_out_wire(decode_transfer_out(b)->0) =~= b);
}

/// A TransferIn payload with at most `u32::MAX` amounts decodes from its wire form to itself.
pub proof fn lemma_transfer_in_decode_encode(m: TransferInModel)
    requires
        transfer_in_fits(m),
    ensures
        decode_transfer_in(transfer_in_wire(m)) == Some(m),
{
    let t1 = u64_list_wire(m.amounts);
    lemma_take_u64_wire(m.nonce, t1);
    assert(t1 =~= u64_list_wire(m.amounts) + Seq::<u8>::empty());
    lemma_take_u64_list_wire(m.amounts, Seq::<u8>::empty());
}

/// Bytes that decode as a TransferIn payload are the wire form of what they decode to.
pub proof fn lemma_transfer_in_encode_decode(b: Seq<u8>)
    requires
        decode_transfer_in(b) is Some,
    ensures
        transfer_in_fits(decode_transfer_in(b)->0),
        transfer_in_wire(decode_transfer_in(b)->0) == b,
{
    let (_, r1) = take_u64(b)->0;
    lemma_take_u64_parts(b);
    lemma_take_u64_list_parts(r1);
    assert(transfer_in_wire(decode_transfer_in(b)->0) =~= b);
}

/// An AddSpender payload decodes from its wire form to itself, and bytes that
/// decode as one are its wire form.
pub proof fn lemma_add_spender_round_trip(spender: Seq<u8>, b: Seq<u8>)
    requires
        spender.len() == IDENTITY_LEN,
    ensures
        decode_add_spender(add_spender_wire(spender)) == Some(spender),
        decode_add_spender(b) matches Some(s) ==> add_spender_wire(s) == b,
{
}

/// A state whose identities are 32 bytes decodes from its wire form to itself.
pub proof fn lemma_state_decode_encode(m: BridgeStateModel)
    requires
        state_shaped(m),
    ensures
        decode_state(state_wire(m)) == Some(m),
{
    let b = state_wire(m);
    lemma_u64_le_value(m.nonce);
    assert(b.len() == STATE_LEN);
    assert(b.subrange(2, 34) =~= m.admin);
    assert(b.subrange(34, 66) =~= m.spenders[0]);
    assert(b.subrange(66, 98) =~= m.spenders[1]);
    assert(b.skip(99) =~= le_u64(m.nonce));
    assert(seq![b.subrange(34, 66), b.subrange(66, 98)] =~= m.spenders);
}

/// Bytes that decode as a state are the wire form of what they decode to,
/// and what they decode to has 32-byte identities.
pub proof fn lemma_state_encode_decode(b: Seq<u8>)
    requires
        decode_state(b) is Some,
    ensures
        state_shaped(decode_state(b)->0),
        state_wire(decode_state(b)->0) == b,
{
    lemma_u64_le_bytes(b.skip(99));
    assert(state_wire(decode_state(b)->0) =~= b);
}

} // verus!
