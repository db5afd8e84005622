//! The address admission checks, held against solana_program's own
//! derivation, and the byte-level call dispatch.

use sol_bridge::error::BridgeError;
use sol_bridge::instruction::BridgeProgramInstruction;
use sol_bridge::model::AccountRef;
use sol_bridge::processor::Processor;
use sol_bridge::state::Record;
use sol_bridge::store::AccountStore;
use sol_bridge::utils::{
    check_and_get_account_seed, check_and_get_blockchain_account_seed,
    check_and_get_lock_account_seed, check_and_get_received_lock_account_seed,
    check_and_get_sent_lock_account_seed, check_and_get_signature_account_seed,
    check_and_get_user_account_seed, check_and_get_validator_account_seed,
    validate_authority_and_get_bump_seed, validate_bridge_authority_and_get_bump_seed,
    validate_user_address_authority_and_get_bump_seed,
};

use solana_program::pubkey::Pubkey;

fn derived(base: &[u8; 32], seed: &str, program: &[u8; 32]) -> [u8; 32] {
    Pubkey::create_with_seed(
        &Pubkey::new_from_array(*base),
        seed,
        &Pubkey::new_from_array(*program),
    )
    .unwrap()
    .to_bytes()
}

#[test]
fn authority_validation_matches_host_derivation() {
    let program = [7u8; 32];
    let bridge = [11u8; 32];
    let (expected, bump) =
        Pubkey::try_find_program_address(&[&bridge], &Pubkey::new_from_array(program)).unwrap();
    let authority = expected.to_bytes();
    assert_eq!(
        validate_bridge_authority_and_get_bump_seed(&program, &bridge, &authority),
        Ok(bump)
    );
    assert_eq!(
        validate_authority_and_get_bump_seed(&program, &bridge, &authority),
        Ok(bump)
    );
    let wrong = [42u8; 32];
    assert_eq!(
        validate_bridge_authority_and_get_bump_seed(&program, &bridge, &wrong),
        Err(BridgeError::InvalidSeeds)
    );
    let user = [2u8; 32];
    let (user_auth, user_bump) =
        Pubkey::try_find_program_address(&[&user], &Pubkey::new_from_array(program)).unwrap();
    assert_eq!(
        validate_user_address_authority_and_get_bump_seed(&program, user, &user_auth.to_bytes()),
        Ok(user_bump)
    );
}

#[test]
fn seed_checks_match_host_derivation() {
    let program = [7u8; 32];
    let authority = [33u8; 32];

    let chain_account = derived(&authority, "blockchain_ETH", &program);
    let seed =
        check_and_get_blockchain_account_seed(&program, *b"ETH\0", &authority, &chain_account)
            .unwrap();
    assert_eq!(seed, b"blockchain_ETH".to_vec());

    let validator_account = derived(&authority, "validator_ETH_12", &program);
    let seed = check_and_get_validator_account_seed(
        &program,
        *b"ETH\0",
        12,
        &authority,
        &validator_account,
    )
    .unwrap();
    assert_eq!(seed, b"validator_ETH_12".to_vec());

    let tx_id = [0xabu8; 64];
    let lock_account = derived(&authority, "lock_ETH_abababababababababab", &program);
    let seed = check_and_get_lock_account_seed(
        &program,
        *b"ETH\0",
        &tx_id,
        false,
        &authority,
        &lock_account,
    )
    .unwrap();
    assert_eq!(seed, b"lock_ETH_abababababababababab".to_vec());

    let revert_account = derived(&authority, "revert_ETH_abababababababababab", &program);
    let seed = check_and_get_lock_account_seed(
        &program,
        *b"ETH\0",
        &tx_id,
        true,
        &authority,
        &revert_account,
    )
    .unwrap();
    assert_eq!(seed, b"revert_ETH_abababababababababab".to_vec());

    let signature_account = derived(&authority, "signature_lock_ETH_5_2", &program);
    let seed = check_and_get_signature_account_seed(
        &program,
        *b"ETH\0",
        5,
        2,
        false,
        &authority,
        &signature_account,
    )
    .unwrap();
    assert_eq!(seed, b"signature_lock_ETH_5_2".to_vec());

    let user_account = derived(&authority, "user_BSC", &program);
    let seed =
        check_and_get_user_account_seed(&program, *b"BSC\0", &authority, &user_account).unwrap();
    assert_eq!(seed, b"user_BSC".to_vec());

    let sent_account = derived(&authority, "sent_ETH_0", &program);
    let seed =
        check_and_get_sent_lock_account_seed(&program, *b"ETH\0", &authority, 0, &sent_account)
            .unwrap();
    assert_eq!(seed, b"sent_ETH_0".to_vec());

    let received_account = derived(&authority, "received_BSC_3", &program);
    let seed = check_and_get_received_lock_account_seed(
        &program,
        *b"BSC\0",
        &authority,
        3,
        &received_account,
    )
    .unwrap();
    assert_eq!(seed, b"received_BSC_3".to_vec());

    // a claimed address derived from any other seed is refused
    assert_eq!(
        check_and_get_user_account_seed(&program, *b"ETH\0", &authority, &user_account),
        Err(BridgeError::InvalidSeeds)
    );
    // an undecodable chain id field is refused before derivation
    assert_eq!(
        check_and_get_user_account_seed(&program, [0xff, 0, 0, 0], &authority, &user_account),
        Err(BridgeError::BadChainId)
    );
}

#[test]
fn seed_length_and_owner_limits() {
    let program = [7u8; 32];
    let authority = [33u8; 32];
    let any = [1u8; 32];
    // a signature seed with two full-width counters exceeds the limit
    assert_eq!(
        check_and_get_signature_account_seed(
            &program,
            *b"WAVE",
            u64::MAX,
            u64::MAX,
            false,
            &authority,
            &any,
        ),
        Err(BridgeError::MaxSeedLengthExceeded)
    );
    // a plain over-long seed is refused by the same path
    assert_eq!(
        check_and_get_account_seed(&program, vec![b'a'; 33], &authority, &any),
        Err(BridgeError::MaxSeedLengthExceeded)
    );
    // an owning program ending in the derivation marker is refused
    let mut marked = [0u8; 32];
    marked[32 - 21..].copy_from_slice(b"ProgramDerivedAddress");
    assert_eq!(
        check_and_get_account_seed(&marked, b"blockchain_ETH".to_vec(), &authority, &any),
        Err(BridgeError::IllegalOwner)
    );
}

#[test]
fn byte_level_dispatch() {
    let program = [7u8; 32];
    let bridge = [11u8; 32];
    let owner = [13u8; 32];
    let rent_sysvar = [200u8; 32];
    let mut store = AccountStore::new();

    let refs = |keys: Vec<([u8; 32], bool)>| -> Vec<AccountRef> {
        keys.into_iter().map(|(key, is_signer)| AccountRef { key, is_signer }).collect()
    };

    let init = BridgeProgramInstruction::InitializeBridge.encode();
    let accounts = refs(vec![(bridge, false), (owner, true), (rent_sysvar, false)]);
    Processor::process_instruction(&mut store, &program, &accounts, &init, true).unwrap();
    assert!(matches!(store.get(&bridge), Some(Record::Bridge(_))));

    // garbage input never reaches the ledger
    assert_eq!(
        Processor::process_instruction(&mut store, &program, &accounts, &[9, 9, 9], true),
        Err(BridgeError::InvalidInstructionData)
    );

    // a call that supplies too few addresses is rejected
    let add_chain = BridgeProgramInstruction::AddBlockchain {
        blockchain_id: *b"ETH\0",
        contract_address: [1; 32],
    }
    .encode();
    let short = refs(vec![(bridge, false)]);
    assert_eq!(
        Processor::process_instruction(&mut store, &program, &short, &add_chain, true),
        Err(BridgeError::NotEnoughAccountKeys)
    );

    // a full registration routed through the byte interface
    let (authority_pk, _bump) =
        Pubkey::try_find_program_address(&[&bridge], &Pubkey::new_from_array(program)).unwrap();
    let authority = authority_pk.to_bytes();
    let chain_account = derived(&authority, "blockchain_ETH", &program);
    let payer = [20u8; 32];
    let accounts = refs(vec![
        (bridge, false),
        (chain_account, false),
        (payer, true),
        (authority, false),
        (rent_sysvar, false),
    ]);
    Processor::process_instruction(&mut store, &program, &accounts, &add_chain, true).unwrap();
    match store.get(&chain_account) {
        Some(Record::Blockchain(b)) => assert_eq!(b.blockchain_id, *b"ETH\0"),
        other => panic!("unexpected record {:?}", other),
    }
}
