//! Client-side builder for the counter program's instructions.
use crate::error::BridgeError;
use crate::identity::Identity;
use crate::invocation::{AccountUse, AccountUseModel, Invocation, InvocationModel};
use vstd::prelude::*;

verus! {

#[derive(Clone, Copy, Debug, PartialEq, Eq, Structural)]
pub enum CounterInstruction {
    Increment,
    Decrement,
}

impl CounterInstruction {
    /// The one-byte wire form: the variant's index.
    pub open spec fn spec_tag(self) -> u8 {
        match self {
            CounterInstruction::Increment => 0,
            CounterInstruction::Decrement => 1,
        }
    }

    pub fn tag(&self) -> (r: u8)
        ensures
            r == self.spec_tag(),
    {
        match self {
            CounterInstruction::Increment => 0,
            CounterInstruction::Decrement => 1,
        }
    }
}

/// The instruction that sends `instruction` to the counter program, passing
/// the counter and the proxy account, both writable and neither signing.
pub fn increment(
    program_id: Identity,
    counter: Identity,
    proxy: Identity,
    instruction: CounterInstruction,
) -> (r: Result<Invocation, BridgeError>)
    ensures
        r is Ok,
        (r->Ok_0).program_id@ == program_id@,
        (r->Ok_0)@ == (InvocationModel {
            accounts: seq![
                AccountUseModel { key: counter@, is_signer: false, is_writable: true },
                AccountUseModel { key: proxy@, is_signer: false, is_writable: true },
            ],
            data: seq![instruction.spec_tag()],
        }),
{
    let mut accounts: Vec<AccountUse> = Vec::new();
    accounts.push(AccountUse { key: counter, is_signer: false, is_writable: true });
    accounts.push(AccountUse { key: proxy, is_signer: false, is_writable: true });
    let mut data: Vec<u8> = Vec::new();
    data.push(instruction.tag());
    let r = Invocation { program_id, accounts, data };
    assert(r@.accounts =~= seq![
        AccountUseModel { key: counter@, is_signer: false, is_writable: true },
        AccountUseModel { key: proxy@, is_signer: false, is_writable: true },
    ]);
    assert(r@.data =~= seq![instruction.spec_tag()]);
    Ok(r)
}

} // verus!
