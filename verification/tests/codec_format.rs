//! Chain-id codec, record layouts, and the instruction wire format.

use sol_bridge::encoding::{bytes_eq, dec_u64, hex_bytes, is_valid_utf8};
use sol_bridge::error::BridgeError;
use sol_bridge::instruction::{parse_instruction, BridgeProgramInstruction};
use sol_bridge::state::{Blockchain, Bridge, Lock, LockTx, Signature, User, Validator};
use sol_bridge::utils::{chain_id_to_str, str_to_chain_id};

#[test]
fn chain_id_round_trip() {
    let id = str_to_chain_id("ETH").unwrap();
    assert_eq!(id, *b"ETH\0");
    assert_eq!(chain_id_to_str(&id).unwrap(), b"ETH".to_vec());

    let full = str_to_chain_id("WAVE").unwrap();
    assert_eq!(full, *b"WAVE");
    assert_eq!(chain_id_to_str(&full).unwrap(), b"WAVE".to_vec());

    let empty = str_to_chain_id("").unwrap();
    assert_eq!(empty, [0; 4]);
    assert_eq!(chain_id_to_str(&empty).unwrap(), Vec::<u8>::new());

    // multi-byte UTF-8 text fits as long as its encoding does
    let snowman = str_to_chain_id("\u{2603}").unwrap();
    assert_eq!(chain_id_to_str(&snowman).unwrap(), "\u{2603}".as_bytes().to_vec());
}

#[test]
fn chain_id_codec_failures() {
    assert_eq!(str_to_chain_id("WAVES"), Err(BridgeError::BadChainId));
    // a stored field that is not valid UTF-8 is rejected on decode
    assert_eq!(chain_id_to_str(&[0xc3, 0, 0, 0]), Err(BridgeError::BadChainId));
    assert_eq!(chain_id_to_str(&[0xff, 0xff, 0xff, 0xff]), Err(BridgeError::BadChainId));
}

#[test]
fn utf8_check_agrees_with_std() {
    let cases: Vec<Vec<u8>> = vec![
        b"".to_vec(),
        b"abc".to_vec(),
        vec![0xc3, 0xa9],
        vec![0xc3],
        vec![0xe2, 0x98, 0x83],
        vec![0xe2, 0x98],
        vec![0xed, 0xa0, 0x80],
        vec![0xf0, 0x9f, 0x98, 0x80],
        vec![0xf8, 0x80],
        vec![0xc0, 0xaf],
        vec![0x80],
        vec![0, 0, 0, 0],
    ];
    for c in cases {
        assert_eq!(is_valid_utf8(&c), std::str::from_utf8(&c).is_ok(), "case {:?}", c);
    }
}

#[test]
fn decimal_and_hex_rendering() {
    assert_eq!(dec_u64(0), b"0".to_vec());
    assert_eq!(dec_u64(907), b"907".to_vec());
    assert_eq!(dec_u64(u64::MAX), b"18446744073709551615".to_vec());
    assert_eq!(hex_bytes(&[0x00, 0xff, 0x1a]), b"00ff1a".to_vec());
    assert_eq!(hex_bytes(&[]), Vec::<u8>::new());
    assert!(bytes_eq(b"abc", b"abc"));
    assert!(!bytes_eq(b"abc", b"abd"));
    assert!(!bytes_eq(b"abc", b"ab"));
}

#[test]
fn record_layouts() {
    let bridge = Bridge::new([5; 32]);
    let bytes = bridge.to_bytes();
    assert_eq!(bytes.len(), Bridge::LEN);
    assert_eq!(bytes[0], 1);
    assert_eq!(&bytes[1..33], &[5; 32]);
    let back = Bridge::from_bytes(&bytes).unwrap();
    assert_eq!(back.version, bridge.version);
    assert_eq!(back.owner, bridge.owner);
    assert!(matches!(Bridge::from_bytes(&bytes[1..]), Err(BridgeError::InvalidAccountData)));

    let mut chain = Blockchain::new([5; 32], *b"ETH\0", [6; 32]);
    chain.validators = 0x0102030405060708;
    chain.locks = 2;
    let bytes = chain.to_bytes();
    assert_eq!(bytes.len(), Blockchain::LEN);
    // counters are little-endian
    assert_eq!(&bytes[37..45], &[8, 7, 6, 5, 4, 3, 2, 1]);
    let back = Blockchain::from_bytes(&bytes).unwrap();
    assert_eq!(back.validators, chain.validators);
    assert_eq!(back.locks, 2);
    assert_eq!(back.blockchain_id, *b"ETH\0");

    let validator = Validator::new(*b"ETH\0", 3, [2; 32], [9; 32]);
    let bytes = validator.to_bytes();
    assert_eq!(bytes.len(), Validator::LEN);
    let back = Validator::from_bytes(&bytes).unwrap();
    assert_eq!(back.index, 3);
    assert_eq!(back.pub_key, [2; 32]);
    assert_eq!(back.owner, [9; 32]);

    let lock = Lock::new(0, 1, [9; 64], [5; 32], [1; 32], *b"ETH\0", *b"ETH\0", [2; 32], [4; 32], *b"BSC\0", 10000, );
    let bytes = lock.to_bytes();
    assert_eq!(bytes.len(), Lock::LEN);
    let back = Lock::from_bytes(&bytes).unwrap();
    assert_eq!(back.amount, 10000);
    assert_eq!(back.signatures, 0);
    assert_eq!(back.tx_id, [9; 64]);
    assert_eq!(back.destination, *b"BSC\0");

    let signature = Signature::new(*b"ETH\0", 1, [5; 32], [17; 65], [8; 32], 1);
    let bytes = signature.to_bytes();
    assert_eq!(bytes.len(), Signature::LEN);
    let back = Signature::from_bytes(&bytes).unwrap();
    assert_eq!(back.signature, [17; 65]);
    assert_eq!(back.validator_index, 1);

    let user = User::new(*b"ETH\0", [2; 32]);
    let bytes = user.to_bytes();
    assert_eq!(bytes.len(), User::LEN);
    let back = User::from_bytes(&bytes).unwrap();
    assert_eq!(back.sent, 0);
    assert_eq!(back.received, 0);
    assert_eq!(back.address, [2; 32]);

    let leg = LockTx::new([9; 64], *b"ETH\0", 1, [3; 32], true);
    let bytes = leg.to_bytes();
    assert_eq!(bytes.len(), LockTx::LEN);
    assert_eq!(bytes[109], 1);
    let back = LockTx::from_bytes(&bytes).unwrap();
    assert!(back.reverted);
    assert_eq!(back.lock_account, [3; 32]);
    // a flag byte other than zero or one is rejected
    let mut bad = leg.to_bytes();
    bad[109] = 2;
    assert!(matches!(LockTx::from_bytes(&bad), Err(BridgeError::InvalidAccountData)));
}

#[test]
fn instruction_wire_format() {
    let init = BridgeProgramInstruction::InitializeBridge;
    assert_eq!(init.encode(), vec![0u8]);
    assert!(matches!(
        parse_instruction(&[0]).unwrap(),
        BridgeProgramInstruction::InitializeBridge
    ));

    let add_chain = BridgeProgramInstruction::AddBlockchain {
        blockchain_id: *b"ETH\0",
        contract_address: [1; 32],
    };
    let bytes = add_chain.encode();
    assert_eq!(bytes.len(), 37);
    assert_eq!(bytes[0], 1);
    assert_eq!(&bytes[1..5], b"ETH\0");
    match parse_instruction(&bytes).unwrap() {
        BridgeProgramInstruction::AddBlockchain { blockchain_id, contract_address } => {
            assert_eq!(blockchain_id, *b"ETH\0");
            assert_eq!(contract_address, [1; 32]);
        },
        other => panic!("unexpected instruction {:?}", other),
    }

    let add_validator = BridgeProgramInstruction::AddValidator {
        blockchain_id: *b"ETH\0",
        pub_key: [2; 32],
    };
    let bytes = add_validator.encode();
    assert_eq!(bytes[0], 2);
    match parse_instruction(&bytes).unwrap() {
        BridgeProgramInstruction::AddValidator { pub_key, .. } => assert_eq!(pub_key, [2; 32]),
        other => panic!("unexpected instruction {:?}", other),
    }

    let add_signature = BridgeProgramInstruction::AddSignature {
        signature: [17; 65],
        token_source: *b"ETH\0",
        token_source_address: [1; 32],
        source: *b"ETH\0",
        lock_id: 1,
        tx_id: [9; 64],
        destination: *b"BSC\0",
        sender: [2; 32],
        recipient: [4; 32],
        amount: 10000,
        revert: false,
    };
    let bytes = add_signature.encode();
    assert_eq!(bytes.len(), 255);
    assert_eq!(bytes[0], 3);
    assert_eq!(&bytes[106..114], &1u64.to_le_bytes()[..]);
    assert_eq!(&bytes[246..254], &10000u64.to_le_bytes()[..]);
    match parse_instruction(&bytes).unwrap() {
        BridgeProgramInstruction::AddSignature { lock_id, amount, revert, tx_id, .. } => {
            assert_eq!(lock_id, 1);
            assert_eq!(amount, 10000);
            assert!(!revert);
            assert_eq!(tx_id, [9; 64]);
        },
        other => panic!("unexpected instruction {:?}", other),
    }

    // malformed payloads are rejected, never trusted
    assert!(matches!(parse_instruction(&[]), Err(BridgeError::InvalidInstructionData)));
    assert!(matches!(parse_instruction(&[4]), Err(BridgeError::InvalidInstructionData)));
    assert!(matches!(parse_instruction(&[0, 0]), Err(BridgeError::InvalidInstructionData)));
    assert!(matches!(parse_instruction(&[1, 0, 0]), Err(BridgeError::InvalidInstructionData)));
    let mut bad_flag = add_signature.encode();
    bad_flag[254] = 7;
    assert!(matches!(parse_instruction(&bad_flag), Err(BridgeError::InvalidInstructionData)));
}
