//! End-to-end scenarios for the ledger protocol, driven through the real
//! address derivation of solana_program.

use sol_bridge::error::BridgeError;
use sol_bridge::model::SignatureAccounts;
use sol_bridge::processor::Processor;
use sol_bridge::state::Record;
use sol_bridge::store::AccountStore;

use solana_program::pubkey::Pubkey;

fn addr(x: u8) -> [u8; 32] {
    [x; 32]
}

fn authority_of(seed: &[u8; 32], program: &[u8; 32]) -> [u8; 32] {
    Pubkey::try_find_program_address(&[seed], &Pubkey::new_from_array(*program))
        .unwrap()
        .0
        .to_bytes()
}

fn derived(base: &[u8; 32], seed: &str, program: &[u8; 32]) -> [u8; 32] {
    Pubkey::create_with_seed(
        &Pubkey::new_from_array(*base),
        seed,
        &Pubkey::new_from_array(*program),
    )
    .unwrap()
    .to_bytes()
}

struct Env {
    store: AccountStore,
    program: [u8; 32],
    bridge: [u8; 32],
    owner: [u8; 32],
    bridge_authority: [u8; 32],
    eth: [u8; 4],
    bsc: [u8; 4],
    eth_chain_account: [u8; 32],
    bsc_chain_account: [u8; 32],
}

/// Initializes a bridge and registers the chains "ETH" and "BSC".
fn setup() -> Env {
    let program = addr(7);
    let bridge = addr(11);
    let owner = addr(13);
    let bridge_authority = authority_of(&bridge, &program);
    let eth = *b"ETH\0";
    let bsc = *b"BSC\0";
    let eth_chain_account = derived(&bridge_authority, "blockchain_ETH", &program);
    let bsc_chain_account = derived(&bridge_authority, "blockchain_BSC", &program);

    let mut store = AccountStore::new();
    Processor::process_init_bridge(&mut store, &bridge, &owner, true, true).unwrap();
    Processor::process_add_blockchain(
        &mut store,
        &program,
        &bridge,
        &eth_chain_account,
        &bridge_authority,
        eth,
        addr(1),
    )
    .unwrap();
    Processor::process_add_blockchain(
        &mut store,
        &program,
        &bridge,
        &bsc_chain_account,
        &bridge_authority,
        bsc,
        addr(1),
    )
    .unwrap();
    Env { store, program, bridge, owner, bridge_authority, eth, bsc, eth_chain_account, bsc_chain_account }
}

fn register_validator(env: &mut Env, index: u64, pub_key: [u8; 32], payer: [u8; 32]) -> [u8; 32] {
    let seed = format!("validator_ETH_{}", index);
    let validator_account = derived(&env.bridge_authority, &seed, &env.program);
    let bridge = env.bridge;
    let eth_chain = env.eth_chain_account;
    let authority = env.bridge_authority;
    let program = env.program;
    let eth = env.eth;
    Processor::process_add_validator(
        &mut env.store,
        &program,
        &bridge,
        &eth_chain,
        &validator_account,
        &payer,
        &authority,
        eth,
        pub_key,
    )
    .unwrap();
    validator_account
}

/// The accounts a first ETH -> BSC transfer attestation needs.
fn transfer_accounts(env: &Env, validator_account: [u8; 32], validator_index: u64, payer: [u8; 32]) -> SignatureAccounts {
    let sender = addr(2);
    let recipient = addr(4);
    let sender_user_authority = authority_of(&sender, &env.program);
    let recipient_user_authority = authority_of(&recipient, &env.program);
    let sender_user = derived(&sender_user_authority, "user_ETH", &env.program);
    let recipient_user = derived(&recipient_user_authority, "user_BSC", &env.program);
    // tx_id = [9; 64]: its first ten bytes render as twenty hex digits
    let lock = derived(
        &env.bridge_authority,
        "lock_ETH_09090909090909090909",
        &env.program,
    );
    let signature = derived(
        &env.bridge_authority,
        &format!("signature_lock_ETH_1_{}", validator_index),
        &env.program,
    );
    let sent_lock = derived(&sender_user_authority, "sent_ETH_0", &env.program);
    let received_lock = derived(&recipient_user_authority, "received_BSC_0", &env.program);
    SignatureAccounts {
        bridge: env.bridge,
        blockchain: env.eth_chain_account,
        validator: validator_account,
        lock,
        signature,
        bridge_authority: env.bridge_authority,
        sender_user,
        sender_user_authority,
        recipient_user,
        recipient_user_authority,
        sent_lock,
        received_lock,
        payer,
        payer_is_signer: true,
    }
}

fn submit(env: &mut Env, accounts: &SignatureAccounts, amount: u64) -> Result<(), BridgeError> {
    let program = env.program;
    Processor::process_add_signature(
        &mut env.store,
        &program,
        accounts,
        [17; 65],
        env.eth,
        addr(1),
        env.eth,
        [9; 64],
        1,
        env.bsc,
        addr(2),
        addr(4),
        amount,
        false,
    )
}

#[test]
fn revert_submission_uses_its_own_addresses() {
    let mut env = setup();
    let payer = addr(20);
    let v0 = register_validator(&mut env, 0, [2; 32], payer);
    let sender = addr(2);
    let recipient = addr(4);
    let sender_user_authority = authority_of(&sender, &env.program);
    let recipient_user_authority = authority_of(&recipient, &env.program);
    let accounts = SignatureAccounts {
        bridge: env.bridge,
        blockchain: env.eth_chain_account,
        validator: v0,
        lock: derived(&env.bridge_authority, "revert_ETH_09090909090909090909", &env.program),
        signature: derived(&env.bridge_authority, "signature_revert_ETH_1_0", &env.program),
        bridge_authority: env.bridge_authority,
        sender_user: derived(&sender_user_authority, "user_ETH", &env.program),
        sender_user_authority,
        recipient_user: derived(&recipient_user_authority, "user_BSC", &env.program),
        recipient_user_authority,
        sent_lock: derived(&sender_user_authority, "sent_ETH_0", &env.program),
        received_lock: derived(&recipient_user_authority, "received_BSC_0", &env.program),
        payer,
        payer_is_signer: true,
    };
    let program = env.program;
    Processor::process_add_signature(
        &mut env.store,
        &program,
        &accounts,
        [17; 65],
        env.eth,
        addr(1),
        env.eth,
        [9; 64],
        1,
        env.bsc,
        sender,
        recipient,
        500,
        true,
    )
    .unwrap();
    match env.store.get(&accounts.lock) {
        Some(Record::Lock(l)) => {
            assert_eq!(l.signatures, 1);
            assert_eq!(l.amount, 500);
        },
        other => panic!("unexpected record {:?}", other),
    }
    // the reversal lock lives apart from the plain lock of the same tx id
    let plain = derived(&env.bridge_authority, "lock_ETH_09090909090909090909", &env.program);
    assert!(env.store.get(&plain).is_none());
}

#[test]
fn self_transfer_counts_both_legs_on_one_user() {
    let mut env = setup();
    let payer = addr(20);
    let v0 = register_validator(&mut env, 0, [2; 32], payer);
    let user = addr(2);
    let user_authority = authority_of(&user, &env.program);
    let user_account = derived(&user_authority, "user_ETH", &env.program);
    // tx_id = [8; 64]
    let accounts = SignatureAccounts {
        bridge: env.bridge,
        blockchain: env.eth_chain_account,
        validator: v0,
        lock: derived(&env.bridge_authority, "lock_ETH_08080808080808080808", &env.program),
        signature: derived(&env.bridge_authority, "signature_lock_ETH_2_0", &env.program),
        bridge_authority: env.bridge_authority,
        sender_user: user_account,
        sender_user_authority: user_authority,
        recipient_user: user_account,
        recipient_user_authority: user_authority,
        sent_lock: derived(&user_authority, "sent_ETH_0", &env.program),
        received_lock: derived(&user_authority, "received_ETH_0", &env.program),
        payer,
        payer_is_signer: true,
    };
    let program = env.program;
    Processor::process_add_signature(
        &mut env.store,
        &program,
        &accounts,
        [17; 65],
        env.eth,
        addr(1),
        env.eth,
        [8; 64],
        2,
        env.eth,
        user,
        user,
        42,
        false,
    )
    .unwrap();
    match env.store.get(&user_account) {
        Some(Record::User(u)) => {
            assert_eq!(u.sent, 1);
            assert_eq!(u.received, 1);
        },
        other => panic!("unexpected record {:?}", other),
    }
}

#[test]
fn validator_counter_cannot_wrap() {
    // a chain record whose counter is saturated refuses the registration
    // instead of wrapping and reusing index zero
    let program = addr(7);
    let bridge = addr(11);
    let bridge_authority = authority_of(&bridge, &program);
    // the empty chain id keeps the derived seed inside the length limit
    // even with a full-width counter
    let chain_account = derived(&bridge_authority, "blockchain_", &program);
    let mut store = AccountStore::new();
    let mut chain = sol_bridge::state::Blockchain::new(bridge, [0; 4], addr(1));
    chain.validators = u64::MAX;
    store.insert_new(&chain_account, Record::Blockchain(chain)).unwrap();
    let claimed = derived(&bridge_authority, "validator__18446744073709551615", &program);
    assert_eq!(
        Processor::process_add_validator(
            &mut store,
            &program,
            &bridge,
            &chain_account,
            &claimed,
            &addr(20),
            &bridge_authority,
            [0; 4],
            [2; 32],
        ),
        Err(BridgeError::ArithmeticOverflow)
    );
    match store.get(&chain_account) {
        Some(Record::Blockchain(b)) => assert_eq!(b.validators, u64::MAX),
        other => panic!("unexpected record {:?}", other),
    }
}

#[test]
fn init_bridge_test() {
    let mut store = AccountStore::new();
    let bridge = addr(11);
    let owner = addr(13);
    assert_eq!(
        Processor::process_init_bridge(&mut store, &bridge, &owner, false, true),
        Err(BridgeError::MissingRequiredSignature)
    );
    assert_eq!(
        Processor::process_init_bridge(&mut store, &bridge, &owner, true, false),
        Err(BridgeError::NotRentExempt)
    );
    Processor::process_init_bridge(&mut store, &bridge, &owner, true, true).unwrap();
    match store.get(&bridge) {
        Some(Record::Bridge(b)) => {
            assert_eq!(b.version, sol_bridge::PROGRAM_VERSION);
            assert_eq!(b.owner, owner);
        },
        other => panic!("unexpected record {:?}", other),
    }
    assert_eq!(
        Processor::process_init_bridge(&mut store, &bridge, &owner, true, true),
        Err(BridgeError::AlreadyInitialized)
    );
}

#[test]
fn add_blockchain_test() {
    let mut env = setup();
    match env.store.get(&env.eth_chain_account) {
        Some(Record::Blockchain(b)) => {
            assert_eq!(b.blockchain_id, *b"ETH\0");
            assert_eq!(b.bridge, env.bridge);
            assert_eq!(b.validators, 0);
            assert_eq!(b.locks, 0);
            assert_eq!(b.contract_address, [1; 32]);
        },
        other => panic!("unexpected record {:?}", other),
    }
    // registering the same chain id again lands on the same occupied address
    let program = env.program;
    let bridge = env.bridge;
    let authority = env.bridge_authority;
    let chain_account = env.eth_chain_account;
    assert_eq!(
        Processor::process_add_blockchain(
            &mut env.store,
            &program,
            &bridge,
            &chain_account,
            &authority,
            *b"ETH\0",
            addr(1),
        ),
        Err(BridgeError::AlreadyInitialized)
    );
    // a wrong claimed address is rejected before any write
    let wrong = addr(99);
    assert_eq!(
        Processor::process_add_blockchain(
            &mut env.store,
            &program,
            &bridge,
            &wrong,
            &authority,
            *b"LTC\0",
            addr(1),
        ),
        Err(BridgeError::InvalidSeeds)
    );
}

#[test]
fn add_validator_test() {
    let mut env = setup();
    // the dependency chain record must exist first
    let program = env.program;
    let bridge = env.bridge;
    let authority = env.bridge_authority;
    let missing_chain = derived(&authority, "blockchain_DOT", &program);
    let claimed = derived(&authority, "validator_DOT_0", &program);
    assert_eq!(
        Processor::process_add_validator(
            &mut env.store,
            &program,
            &bridge,
            &missing_chain,
            &claimed,
            &addr(20),
            &authority,
            *b"DOT\0",
            [2; 32],
        ),
        Err(BridgeError::Uninitialized)
    );
    // sequential registrations land at the derived addresses for 0, 1, 2
    let v0 = register_validator(&mut env, 0, [2; 32], addr(20));
    let v1 = register_validator(&mut env, 1, [3; 32], addr(21));
    let v2 = register_validator(&mut env, 2, [5; 32], addr(22));
    assert_ne!(v0, v1);
    assert_ne!(v1, v2);
    match env.store.get(&env.eth_chain_account) {
        Some(Record::Blockchain(b)) => assert_eq!(b.validators, 3),
        other => panic!("unexpected record {:?}", other),
    }
    match env.store.get(&v1) {
        Some(Record::Validator(v)) => {
            assert_eq!(v.index, 1);
            assert_eq!(v.pub_key, [3; 32]);
            assert_eq!(v.owner, addr(21));
            assert_eq!(v.blockchain_id, *b"ETH\0");
        },
        other => panic!("unexpected record {:?}", other),
    }
    // an address derived for the wrong index is rejected
    let stale = derived(&authority, "validator_ETH_1", &program);
    let eth_chain = env.eth_chain_account;
    assert_eq!(
        Processor::process_add_validator(
            &mut env.store,
            &program,
            &bridge,
            &eth_chain,
            &stale,
            &addr(23),
            &authority,
            *b"ETH\0",
            [8; 32],
        ),
        Err(BridgeError::InvalidSeeds)
    );
}

#[test]
fn add_signature_test() {
    let mut env = setup();
    let payer0 = addr(20);
    let payer1 = addr(21);
    let v0 = register_validator(&mut env, 0, [2; 32], payer0);
    let v1 = register_validator(&mut env, 1, [3; 32], payer1);

    // fresh bridge + first transfer
    let a0 = transfer_accounts(&env, v0, 0, payer0);
    submit(&mut env, &a0, 10000).unwrap();
    match env.store.get(&a0.lock) {
        Some(Record::Lock(l)) => {
            assert_eq!(l.signatures, 1);
            assert_eq!(l.amount, 10000);
            assert_eq!(l.index, 0);
            assert_eq!(l.lock_id, 1);
            assert_eq!(l.tx_id, [9; 64]);
            assert_eq!(l.sender, addr(2));
            assert_eq!(l.recipient, addr(4));
            assert_eq!(l.source, *b"ETH\0");
            assert_eq!(l.destination, *b"BSC\0");
        },
        other => panic!("unexpected record {:?}", other),
    }
    match env.store.get(&a0.sender_user) {
        Some(Record::User(u)) => {
            assert_eq!(u.sent, 1);
            assert_eq!(u.received, 0);
            assert_eq!(u.address, addr(2));
        },
        other => panic!("unexpected record {:?}", other),
    }
    match env.store.get(&a0.recipient_user) {
        Some(Record::User(u)) => {
            assert_eq!(u.sent, 0);
            assert_eq!(u.received, 1);
            assert_eq!(u.address, addr(4));
        },
        other => panic!("unexpected record {:?}", other),
    }
    match env.store.get(&a0.sent_lock) {
        Some(Record::LockTx(t)) => {
            assert_eq!(t.lock_id, 1);
            assert_eq!(t.lock_account, a0.lock);
            assert!(!t.reverted);
        },
        other => panic!("unexpected record {:?}", other),
    }
    match env.store.get(&a0.received_lock) {
        Some(Record::LockTx(t)) => assert_eq!(t.lock_account, a0.lock),
        other => panic!("unexpected record {:?}", other),
    }
    match env.store.get(&env.eth_chain_account) {
        Some(Record::Blockchain(b)) => assert_eq!(b.locks, 1),
        other => panic!("unexpected record {:?}", other),
    }

    // second validator, same transfer: lock reused, counters untouched
    let a1 = transfer_accounts(&env, v1, 1, payer1);
    assert_eq!(a1.lock, a0.lock);
    assert_ne!(a1.signature, a0.signature);
    submit(&mut env, &a1, 10000).unwrap();
    match env.store.get(&a0.lock) {
        Some(Record::Lock(l)) => assert_eq!(l.signatures, 2),
        other => panic!("unexpected record {:?}", other),
    }
    match env.store.get(&a0.sender_user) {
        Some(Record::User(u)) => assert_eq!(u.sent, 1),
        other => panic!("unexpected record {:?}", other),
    }
    match env.store.get(&a1.signature) {
        Some(Record::Signature(s)) => {
            assert_eq!(s.validator_index, 1);
            assert_eq!(s.lock_id, 1);
            assert_eq!(s.signature, [17; 65]);
            assert_eq!(s.validator, v1);
        },
        other => panic!("unexpected record {:?}", other),
    }

    // mismatched resubmission: rejected, nothing changes
    assert_eq!(submit(&mut env, &a1, 9999), Err(BridgeError::InvalidArgument));
    match env.store.get(&a0.lock) {
        Some(Record::Lock(l)) => {
            assert_eq!(l.signatures, 2);
            assert_eq!(l.amount, 10000);
        },
        other => panic!("unexpected record {:?}", other),
    }

    // double signing: the same validator's slot is already occupied
    assert_eq!(submit(&mut env, &a1, 10000), Err(BridgeError::AlreadyInitialized));
    match env.store.get(&a0.lock) {
        Some(Record::Lock(l)) => assert_eq!(l.signatures, 2),
        other => panic!("unexpected record {:?}", other),
    }

    // a payer who does not own the validator record is rejected
    let mut a_wrong = transfer_accounts(&env, v0, 0, payer1);
    a_wrong.payer_is_signer = true;
    assert_eq!(submit(&mut env, &a_wrong, 10000), Err(BridgeError::InvalidArgument));

    // a missing signer is rejected before anything else
    let mut a_unsigned = transfer_accounts(&env, v0, 0, payer0);
    a_unsigned.payer_is_signer = false;
    assert_eq!(submit(&mut env, &a_unsigned, 10000), Err(BridgeError::MissingRequiredSignature));
}
