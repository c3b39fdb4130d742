use sisu_bridge::custody::{custody_address, custody_seed};
use sisu_bridge::error::BridgeError;
use sisu_bridge::identity::Identity;
use sisu_bridge::processor::{AccountInput, Effects, Processor};
use sisu_bridge::state::{BridgeStateV0, TransferInData, TransferInIx, TransferOutData, STATE_LEN};

fn program() -> Identity {
    Identity::filled(0xab)
}

fn system() -> Identity {
    Identity::filled(0)
}

fn account(key: Identity, is_signer: bool, is_writable: bool, owner: Identity, data: Vec<u8>) -> AccountInput {
    AccountInput { key, is_signer, is_writable, owner, data }
}

fn plain(key: Identity) -> AccountInput {
    account(key, false, true, Identity::filled(0x70), Vec::new())
}

fn custody_key() -> (Identity, u8) {
    custody_address(&program()).unwrap()
}

fn init_accounts(payer: Identity) -> Vec<AccountInput> {
    let (custody, _) = custody_key();
    vec![
        account(payer, true, true, system(), Vec::new()),
        account(custody, false, true, system(), Vec::new()),
        account(system(), false, false, Identity::filled(0x55), Vec::new()),
    ]
}

/// Runs Initialize with `admin` as payer and returns the custody account as the host leaves it.
fn initialized(admin: Identity) -> AccountInput {
    let effects = Processor::process_instruction(&program(), &init_accounts(admin), &[0]).unwrap();
    let write = effects.state.unwrap();
    account(write.account, false, true, program(), write.bytes)
}

fn apply(custody: &AccountInput, effects: &Effects) -> AccountInput {
    let write = effects.state.as_ref().unwrap();
    assert!(write.account == custody.key);
    account(custody.key, false, true, program(), write.bytes.clone())
}

fn state_of(custody: &AccountInput) -> BridgeStateV0 {
    BridgeStateV0::try_from_slice(&custody.data).unwrap()
}

fn add_spender(admin: Identity, custody: &AccountInput, spender: Identity) -> Result<Effects, BridgeError> {
    let mut data = vec![3u8];
    data.extend_from_slice(&spender.bytes);
    let accounts = vec![account(admin, true, false, system(), Vec::new()), custody.clone()];
    Processor::process_instruction(&program(), &accounts, &data)
}

fn transfer_in_data(nonce: u64, amounts: Vec<u64>) -> Vec<u8> {
    TransferInIx::from_data(TransferInData { nonce, amounts }).try_to_vec().unwrap()
}

fn transfer_in_accounts(caller: Identity, signer: bool, custody: &AccountInput, legs: usize) -> Vec<AccountInput> {
    let mut accounts = vec![
        account(caller, signer, false, system(), Vec::new()),
        account(Identity::filled(0x60), false, false, system(), Vec::new()),
        custody.clone(),
    ];
    for i in 0..legs {
        accounts.push(plain(Identity::filled(0x80 + 2 * i as u8)));
        accounts.push(plain(Identity::filled(0x81 + 2 * i as u8)));
    }
    accounts
}

fn transfer_in(caller: Identity, signer: bool, custody: &AccountInput, nonce: u64, amounts: Vec<u64>, legs: usize) -> Result<Effects, BridgeError> {
    let accounts = transfer_in_accounts(caller, signer, custody, legs);
    Processor::process_instruction(&program(), &accounts, &transfer_in_data(nonce, amounts))
}

fn amount_of(data: &[u8]) -> u64 {
    assert_eq!(data.len(), 9);
    assert_eq!(data[0], 3);
    u64::from_le_bytes(data[1..9].try_into().unwrap())
}

#[test]
fn custody_address_matches_the_ledger_derivation() {
    let pid = solana_program::pubkey::Pubkey::new_from_array(program().bytes);
    let (expected, bump) = solana_program::pubkey::Pubkey::find_program_address(&[b"SisuBridge"], &pid);
    let (key, b) = custody_key();
    assert_eq!(key.bytes, expected.to_bytes());
    assert_eq!(b, bump);
    assert!(key != program());
    assert_eq!(&custody_seed(), b"SisuBridge");
}

#[test]
fn test_initialize() {
    let x = Identity::filled(1);
    let effects = Processor::process_instruction(&program(), &init_accounts(x), &[0]).unwrap();
    let (custody, bump) = custody_key();
    let allocation = effects.allocate.unwrap();
    assert!(allocation.payer == x);
    assert!(allocation.account == custody);
    assert!(allocation.owner == program());
    assert_eq!(allocation.space, STATE_LEN as u64);
    assert_eq!(effects.custody_bump, Some(bump));
    assert!(effects.transfers.is_empty());
    let write = effects.state.unwrap();
    assert!(write.account == custody);
    let st = BridgeStateV0::try_from_slice(&write.bytes).unwrap();
    assert!(st.admin == x);
    assert!(st.spenders[0] == x && st.spenders[1] == x);
    assert_eq!(st.spender_index, 0);
    assert_eq!(st.nonce, 0);
    assert_eq!(st.bump, bump);
    assert_eq!(st.version, 0);
}

#[test]
fn initialize_twice_fails() {
    let x = Identity::filled(1);
    let custody = initialized(x);
    let mut accounts = init_accounts(Identity::filled(2));
    accounts[1] = custody;
    assert_eq!(
        Processor::process_instruction(&program(), &accounts, &[0]).unwrap_err(),
        BridgeError::InvalidCustodyAccount
    );
}

#[test]
fn initialize_checks() {
    let x = Identity::filled(1);
    let mut a = init_accounts(x);
    a[0].is_signer = false;
    assert_eq!(Processor::process_instruction(&program(), &a, &[0]).unwrap_err(), BridgeError::Unauthorized);
    let mut a = init_accounts(x);
    a[1].is_writable = false;
    assert_eq!(Processor::process_instruction(&program(), &a, &[0]).unwrap_err(), BridgeError::AccountShape);
    let mut a = init_accounts(x);
    a[2].key = Identity::filled(3);
    assert_eq!(Processor::process_instruction(&program(), &a, &[0]).unwrap_err(), BridgeError::AccountShape);
    let mut a = init_accounts(x);
    a[1].key = Identity::filled(4);
    assert_eq!(
        Processor::process_instruction(&program(), &a, &[0]).unwrap_err(),
        BridgeError::InvalidCustodyAccount
    );
    let a = init_accounts(x);
    assert_eq!(Processor::process_instruction(&program(), &a[..2], &[0]).unwrap_err(), BridgeError::AccountShape);
    assert_eq!(Processor::process_instruction(&program(), &a, &[0, 0]).unwrap_err(), BridgeError::DecodeError);
}

#[test]
fn dispatch_errors() {
    let a = init_accounts(Identity::filled(1));
    assert_eq!(Processor::process_instruction(&program(), &a, &[]).unwrap_err(), BridgeError::DecodeError);
    assert_eq!(Processor::process_instruction(&program(), &a, &[6]).unwrap_err(), BridgeError::InvalidInstruction);
    assert_eq!(Processor::process_instruction(&program(), &a, &[4]).unwrap_err(), BridgeError::NotImplemented);
    assert_eq!(Processor::process_instruction(&program(), &a, &[5, 1]).unwrap_err(), BridgeError::NotImplemented);
}

#[test]
fn test_transfer_in() {
    let payer = Identity::filled(1);
    let custody = initialized(payer);
    let effects = transfer_in(payer, true, &custody, 0, vec![1000], 1).unwrap();
    assert_eq!(effects.transfers.len(), 1);
    let leg = &effects.transfers[0];
    assert_eq!(amount_of(&leg.data), 1000);
    assert!(leg.accounts[0].key == Identity::filled(0x80) && leg.accounts[0].is_writable);
    assert!(leg.accounts[1].key == Identity::filled(0x81) && leg.accounts[1].is_writable);
    assert!(leg.accounts[2].key == custody.key && leg.accounts[2].is_signer);
    assert_eq!(leg.program_id.bytes, spl_token::ID.to_bytes());
    assert_eq!(effects.custody_bump, Some(custody_key().1));
    assert_eq!(state_of(&apply(&custody, &effects)).nonce, 1);
}

#[test]
fn transfer_in_batch_of_three() {
    let payer = Identity::filled(1);
    let custody = initialized(payer);
    let effects = transfer_in(payer, true, &custody, 0, vec![100, 200, 300], 3).unwrap();
    let amounts: Vec<u64> = effects.transfers.iter().map(|t| amount_of(&t.data)).collect();
    assert_eq!(amounts, vec![100, 200, 300]);
    for (i, t) in effects.transfers.iter().enumerate() {
        assert!(t.accounts[0].key == Identity::filled(0x80 + 2 * i as u8));
        assert!(t.accounts[1].key == Identity::filled(0x81 + 2 * i as u8));
    }
    let total: u64 = amounts.iter().sum();
    assert!(total > 500);
}

#[test]
fn transfer_in_each_condition_alone() {
    let x = Identity::filled(1);
    let custody = initialized(x);
    assert!(transfer_in(x, true, &custody, 0, vec![5, 6], 2).is_ok());
    assert_eq!(transfer_in(Identity::filled(9), true, &custody, 0, vec![5, 6], 2).unwrap_err(), BridgeError::NotAnAdmin);
    assert_eq!(transfer_in(x, false, &custody, 0, vec![5, 6], 2).unwrap_err(), BridgeError::NotAnAdmin);
    assert_eq!(transfer_in(x, true, &custody, 1, vec![5, 6], 2).unwrap_err(), BridgeError::StaleNonce);
    assert_eq!(transfer_in(x, true, &custody, 0, vec![], 0).unwrap_err(), BridgeError::EmptyBatch);
    assert_eq!(transfer_in(x, true, &custody, 0, vec![5, 0], 2).unwrap_err(), BridgeError::InvalidAmount);
    assert_eq!(transfer_in(x, true, &custody, 0, vec![5, 6], 1).unwrap_err(), BridgeError::AccountShape);
    assert_eq!(transfer_in(x, true, &custody, 0, vec![5, 6], 3).unwrap_err(), BridgeError::AccountShape);
    let mut odd = transfer_in_accounts(x, true, &custody, 2);
    odd.push(plain(Identity::filled(0x99)));
    assert_eq!(
        Processor::process_instruction(&program(), &odd, &transfer_in_data(0, vec![5, 6])).unwrap_err(),
        BridgeError::AccountShape
    );
}

#[test]
fn transfer_in_needs_the_programs_custody() {
    let x = Identity::filled(1);
    let mut custody = initialized(x);
    custody.owner = Identity::filled(0x42);
    assert_eq!(transfer_in(x, true, &custody, 0, vec![5], 1).unwrap_err(), BridgeError::InvalidCustodyAccount);
    let mut custody = initialized(x);
    custody.data.pop();
    assert_eq!(transfer_in(x, true, &custody, 0, vec![5], 1).unwrap_err(), BridgeError::DecodeError);
}

#[test]
fn replayed_transfer_in_is_stale() {
    let x = Identity::filled(1);
    let custody = initialized(x);
    let first = transfer_in(x, true, &custody, 0, vec![7], 1).unwrap();
    let after = apply(&custody, &first);
    assert_eq!(transfer_in(x, true, &after, 0, vec![7], 1).unwrap_err(), BridgeError::StaleNonce);
    assert!(transfer_in(x, true, &after, 1, vec![7], 1).is_ok());
}

#[test]
fn rotation_replaces_the_oldest_slot() {
    let (x, y, z) = (Identity::filled(1), Identity::filled(2), Identity::filled(3));
    let custody = initialized(x);
    let once = apply(&custody, &add_spender(x, &custody, y).unwrap());
    let st = state_of(&once);
    assert!(st.spenders[0] == x && st.spenders[1] == y);
    assert_eq!(st.spender_index, 1);
    let twice = apply(&once, &add_spender(x, &once, z).unwrap());
    let st = state_of(&twice);
    assert!(st.spenders[0] == z && st.spenders[1] == y);
    assert_eq!(st.spender_index, 0);
    assert!(st.admin == x);
    assert_eq!(transfer_in(x, true, &twice, 0, vec![1], 1).unwrap_err(), BridgeError::NotAnAdmin);
    assert!(transfer_in(y, true, &twice, 0, vec![1], 1).is_ok());
    assert!(transfer_in(z, true, &twice, 0, vec![1], 1).is_ok());
}

#[test]
fn add_spender_checks() {
    let x = Identity::filled(1);
    let custody = initialized(x);
    assert_eq!(add_spender(Identity::filled(2), &custody, Identity::filled(3)).unwrap_err(), BridgeError::NotAnAdmin);
    let mut readonly = custody.clone();
    readonly.is_writable = false;
    assert_eq!(add_spender(x, &readonly, Identity::filled(3)).unwrap_err(), BridgeError::AccountShape);
    let accounts = vec![account(x, true, false, system(), Vec::new()), custody.clone()];
    assert_eq!(
        Processor::process_instruction(&program(), &accounts, &[3, 1, 2]).unwrap_err(),
        BridgeError::DecodeError
    );
    let unsigned = vec![account(x, false, false, system(), Vec::new()), custody.clone()];
    let mut data = vec![3u8];
    data.extend_from_slice(&[7u8; 32]);
    assert_eq!(Processor::process_instruction(&program(), &unsigned, &data).unwrap_err(), BridgeError::NotAnAdmin);
}

fn transfer_out_accounts(depositor: Identity, signer: bool, custody: &AccountInput) -> Vec<AccountInput> {
    vec![
        account(depositor, signer, false, system(), Vec::new()),
        account(Identity::filled(0x60), false, false, system(), Vec::new()),
        plain(Identity::filled(0x21)),
        plain(Identity::filled(0x22)),
        custody.clone(),
    ]
}

fn transfer_out_data(amount: u64) -> Vec<u8> {
    let payload = TransferOutData {
        amount,
        token_address: "0x1234".to_string(),
        chain_id: 123,
        recipient: "someone".to_string(),
    };
    let mut data = vec![1u8];
    data.extend_from_slice(&payload.try_to_vec().unwrap());
    data
}

#[test]
fn transfer_out_locks_exactly_the_amount() {
    let depositor = Identity::filled(5);
    let custody = initialized(Identity::filled(1));
    let accounts = transfer_out_accounts(depositor, true, &custody);
    let effects = Processor::process_instruction(&program(), &accounts, &transfer_out_data(1000)).unwrap();
    assert_eq!(effects.transfers.len(), 1);
    let lock = &effects.transfers[0];
    assert_eq!(amount_of(&lock.data), 1000);
    assert!(lock.accounts[0].key == Identity::filled(0x21));
    assert!(lock.accounts[1].key == Identity::filled(0x22));
    assert!(lock.accounts[2].key == depositor && lock.accounts[2].is_signer);
    assert!(effects.state.is_none());
    assert!(effects.allocate.is_none());
    assert_eq!(effects.custody_bump, None);
    let deposit = effects.deposit.unwrap();
    assert_eq!(deposit.amount, 1000);
    assert_eq!(deposit.recipient, "someone");
}

#[test]
fn transfer_out_checks() {
    let custody = initialized(Identity::filled(1));
    let unsigned = transfer_out_accounts(Identity::filled(5), false, &custody);
    assert_eq!(
        Processor::process_instruction(&program(), &unsigned, &transfer_out_data(1)).unwrap_err(),
        BridgeError::Unauthorized
    );
    let accounts = transfer_out_accounts(Identity::filled(5), true, &custody);
    let mut data = transfer_out_data(1);
    data.pop();
    assert_eq!(Processor::process_instruction(&program(), &accounts, &data).unwrap_err(), BridgeError::DecodeError);
    assert_eq!(
        Processor::process_instruction(&program(), &accounts[..4], &transfer_out_data(1)).unwrap_err(),
        BridgeError::AccountShape
    );
}
