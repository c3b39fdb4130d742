//! Calls into other programs that an instruction asks the host to make.
use crate::codec::le_u64;
use crate::identity::Identity;
use vstd::prelude::*;

verus! {

/// One account of an invocation, with the privileges it is passed with.
#[derive(Clone, Copy, Debug)]
pub struct AccountUse {
    pub key: Identity,
    pub is_signer: bool,
    pub is_writable: bool,
}

pub struct AccountUseModel {
    pub key: Seq<u8>,
    pub is_signer: bool,
    pub is_writable: bool,
}

impl View for AccountUse {
    type V = AccountUseModel;

    open spec fn view(&self) -> AccountUseModel {
        AccountUseModel { key: self.key@, is_signer: self.is_signer, is_writable: self.is_writable }
    }
}

/// An instruction for another program: its identity, its accounts in order and its data.
#[derive(Clone, Debug)]
pub struct Invocation {
    pub program_id: Identity,
    pub accounts: Vec<AccountUse>,
    pub data: Vec<u8>,
}

/// What an invocation passes: its accounts and its data.
pub struct InvocationModel {
    pub accounts: Seq<AccountUseModel>,
    pub data: Seq<u8>,
}

impl View for Invocation {
    type V = InvocationModel;

    open spec fn view(&self) -> InvocationModel {
        InvocationModel {
            accounts: self.accounts@.map_values(|a: AccountUse| a@),
            data: self.data@,
        }
    }
}

/// The token program's transfer of `amount` from `source` to `destination`
/// under `authority`, which signs: tag 3, then the amount.
pub open spec fn token_transfer_view(
    source: Seq<u8>,
    destination: Seq<u8>,
    authority: Seq<u8>,
    amount: u64,
) -> InvocationModel {
    InvocationModel {
        accounts: seq![
            AccountUseModel { key: source, is_signer: false, is_writable: true },
            AccountUseModel { key: destination, is_signer: false, is_writable: true },
            AccountUseModel { key: authority, is_signer: true, is_writable: false },
        ],
        data: seq![3u8] + le_u64(amount),
    }
}

/// Relies on `spl_token::instruction::transfer`: given the token program's own
/// id and no multisig signers it succeeds, with source and destination
/// writable, the authority a read-only signer, and data tag 3 then the amount
/// in little-endian.
#[verifier::external_body]
pub(crate) fn token_transfer(
    source: &Identity,
    destination: &Identity,
    authority: &Identity,
    amount: u64,
) -> (r: Option<Invocation>)
    ensures
        r is Some,
        (r->0)@ == token_transfer_view(source@, destination@, authority@, amount),
{
    let key = |b: [u8; 32]| solana_program::pubkey::Pubkey::new_from_array(b);
    let (s, d, a) = (key(source.bytes), key(destination.bytes), key(authority.bytes));
    let ix = spl_token::instruction::transfer(&spl_token::ID, &s, &d, &a, &[], amount).ok()?;
    let accounts = ix.accounts.iter().map(
        |m| AccountUse { key: Identity { bytes: m.pubkey.to_bytes() }, is_signer: m.is_signer, is_writable: m.is_writable },
    ).collect();
    Some(Invocation { program_id: Identity { bytes: ix.program_id.to_bytes() }, accounts, data: ix.data })
}

} // verus!
