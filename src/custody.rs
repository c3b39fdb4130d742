//! The custody address: derived from a fixed seed and the program's identity,
//! so that no private key for it exists and only the program signs for it.
use crate::identity::Identity;
use vstd::prelude::*;

verus! {

/// The domain-separation seed of the custody address, as bytes.
pub open spec fn spec_custody_seed() -> Seq<u8> {
    seq![83u8, 105u8, 115u8, 117u8, 66u8, 114u8, 105u8, 100u8, 103u8, 101u8]
}

/// The seed `SisuBridge` from which the custody address is derived.
pub fn custody_seed() -> (r: [u8; 10])
    ensures
        r@ == spec_custody_seed(),
{
    let r: [u8; 10] = [83, 105, 115, 117, 66, 114, 105, 100, 103, 101];
    assert(r@ =~= spec_custody_seed());
    r
}

/// The derived address and its bump for a seed and a program, or `None` when
/// no bump gives an address off the curve.
pub uninterp spec fn program_address(seed: Seq<u8>, program_id: Seq<u8>) -> Option<(Seq<u8>, u8)>;

/// Relies on `Pubkey::try_find_program_address`: the address and bump it finds
/// for one seed depend on the seed and the program identity alone.
#[verifier::external_body]
fn find_program_address(seed: &[u8], program_id: &Identity) -> (r: Option<(Identity, u8)>)
    ensures
        match program_address(seed@, program_id@) {
            Some((a, b)) => r matches Some((x, y)) && x@ == a && y == b,
            None => r is None,
        },
{
    let program = solana_program::pubkey::Pubkey::new_from_array(program_id.bytes);
    solana_program::pubkey::Pubkey::try_find_program_address(&[seed], &program).map(
        |(k, b)| (Identity { bytes: k.to_bytes() }, b),
    )
}

/// The custody address of `program_id` and its bump.
pub open spec fn spec_custody_address(program_id: Seq<u8>) -> Option<(Seq<u8>, u8)> {
    program_address(spec_custody_seed(), program_id)
}

pub fn custody_address(program_id: &Identity) -> (r: Option<(Identity, u8)>)
    ensures
        match spec_custody_address(program_id@) {
            Some((a, b)) => r matches Some((x, y)) && x@ == a && y == b,
            None => r is None,
        },
{
    let seed = custody_seed();
    find_program_address(seed.as_slice(), program_id)
}

/// The system program's identity: 32 zero bytes.
pub open spec fn spec_system_program_id() -> Seq<u8> {
    Seq::new(32, |i: int| 0u8)
}

/// Relies on `solana_program::system_program::ID`, declared as the base-58
/// string of 32 ones, which is 32 zero bytes.
#[verifier::external_body]
fn system_program_id() -> (r: Identity)
    ensures
        r@ == spec_system_program_id(),
{
    Identity { bytes: solana_program::system_program::ID.to_bytes() }
}

/// Whether `key` is the system program, the owner of every unallocated account.
pub fn is_system_program(key: &Identity) -> (r: bool)
    ensures
        r == (key@ == spec_system_program_id()),
{
    key.same(&system_program_id())
}

} // verus!
