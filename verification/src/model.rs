//! Mathematical model of the four ledger operations.
//!
//! Each operation is specified as a step function from the storage map and
//! the call's plain inputs to either the storage map after the commit or
//! the exact rejection. The executable operations in [`crate::processor`]
//! are proved to follow these steps, and the ledger's protocol properties
//! are proved about the steps themselves.

use vstd::prelude::*;
use vstd::utf8::encode_utf8;

use crate::error::BridgeError;
use crate::state::{
    Address, BlockchainId, Blockchain, Bridge, Lock, LockTx, Record, Signature, TxId, User,
    Validator,
};
use crate::utils::{
    blockchain_account_check, lock_account_check, lock_tx_account_check, signature_account_check,
    user_account_check, validate_authority_check, validator_account_check,
};
use crate::PROGRAM_VERSION;

verus! {

/// The storage map: one record per derived address.
pub type StoreMap = Map<Seq<u8>, Record>;

/// Storage addresses and signer flag that an attestation call supplies.
pub struct SignatureAccounts {
    /// Bridge record's address.
    pub bridge: Address,
    /// Source chain record's address.
    pub blockchain: Address,
    /// Submitting validator record's address.
    pub validator: Address,
    /// Lock record's address.
    pub lock: Address,
    /// Signature record's address.
    pub signature: Address,
    /// Bridge namespace authority.
    pub bridge_authority: Address,
    /// Sender's user record address.
    pub sender_user: Address,
    /// Sender's user namespace authority.
    pub sender_user_authority: Address,
    /// Recipient's user record address.
    pub recipient_user: Address,
    /// Recipient's user namespace authority.
    pub recipient_user_authority: Address,
    /// Sent transfer-leg record address.
    pub sent_lock: Address,
    /// Received transfer-leg record address.
    pub received_lock: Address,
    /// Paying authority; must own the validator record.
    pub payer: Address,
    /// Whether the payer co-signed the call.
    pub payer_is_signer: bool,
}

/// The transfer fields that an attestation call claims.
pub struct TransferArgs {
    /// Raw oracle signature bytes.
    pub signature: [u8; 65],
    /// Token's home chain.
    pub token_source: BlockchainId,
    /// Token address on its home chain.
    pub token_source_address: Address,
    /// Chain the transfer originates from.
    pub source: BlockchainId,
    /// Transaction id on the source chain.
    pub tx_id: TxId,
    /// Caller-assigned lock id.
    pub lock_id: u64,
    /// Chain the transfer is destined for.
    pub destination: BlockchainId,
    /// Sender address on the source chain.
    pub sender: Address,
    /// Recipient address on the destination chain.
    pub recipient: Address,
    /// Amount locked for the transfer.
    pub amount: u64,
    /// Whether this attests a reversal rather than a lock.
    pub revert: bool,
}

/// Reads a bridge record that is required to exist.
pub open spec fn read_bridge(m: StoreMap, k: Seq<u8>) -> Result<Bridge, BridgeError> {
    if !m.contains_key(k) {
        Err(BridgeError::Uninitialized)
    } else if !(m[k] is Bridge) {
        Err(BridgeError::InvalidAccountData)
    } else {
        Ok(m[k]->Bridge_0)
    }
}

/// Reads a chain record that is required to exist.
pub open spec fn read_blockchain(m: StoreMap, k: Seq<u8>) -> Result<Blockchain, BridgeError> {
    if !m.contains_key(k) {
        Err(BridgeError::Uninitialized)
    } else if !(m[k] is Blockchain) {
        Err(BridgeError::InvalidAccountData)
    } else {
        Ok(m[k]->Blockchain_0)
    }
}

/// Reads a validator record that is required to exist.
pub open spec fn read_validator(m: StoreMap, k: Seq<u8>) -> Result<Validator, BridgeError> {
    if !m.contains_key(k) {
        Err(BridgeError::Uninitialized)
    } else if !(m[k] is Validator) {
        Err(BridgeError::InvalidAccountData)
    } else {
        Ok(m[k]->Validator_0)
    }
}

/// Reads a user record that is required to exist.
pub open spec fn read_user(m: StoreMap, k: Seq<u8>) -> Result<User, BridgeError> {
    if !m.contains_key(k) {
        Err(BridgeError::Uninitialized)
    } else if !(m[k] is User) {
        Err(BridgeError::InvalidAccountData)
    } else {
        Ok(m[k]->User_0)
    }
}

/// One bridge initialization step.
///
/// The owner must co-sign; the target storage must not already hold a live
/// bridge record; the storage backing must be funded for permanence. On
/// success a fresh bridge record with the given owner is written.
pub open spec fn init_bridge_spec(
    m: StoreMap,
    bridge_account: Address,
    owner: Address,
    owner_is_signer: bool,
    rent_exempt: bool,
) -> Result<StoreMap, BridgeError> {
    if !owner_is_signer {
        Err(BridgeError::MissingRequiredSignature)
    } else if m.contains_key(bridge_account@) && !(m[bridge_account@] is Bridge) {
        Err(BridgeError::InvalidAccountData)
    } else if m.contains_key(bridge_account@) && m[bridge_account@]->Bridge_0.is_initialized() {
        Err(BridgeError::AlreadyInitialized)
    } else if !rent_exempt {
        Err(BridgeError::NotRentExempt)
    } else {
        Ok(m.insert(bridge_account@, Record::Bridge(Bridge { version: PROGRAM_VERSION, owner })))
    }
}

/// One chain registration step.
///
/// The caller must supply the bridge's derived authority and the derived
/// chain record address; the address must be unoccupied. On success a fresh
/// chain record with both counters at zero is written.
pub open spec fn add_blockchain_spec(
    m: StoreMap,
    program: Address,
    bridge_account: Address,
    blockchain_account: Address,
    bridge_authority: Address,
    blockchain_id: BlockchainId,
    contract_address: Address,
) -> Result<StoreMap, BridgeError> {
    let auth = validate_authority_check(program@, bridge_account@, bridge_authority@);
    if auth is Err {
        Err(auth->Err_0)
    } else {
        let sc = blockchain_account_check(program@, blockchain_id, bridge_authority@, blockchain_account@);
        if sc is Err {
            Err(sc->Err_0)
        } else if m.contains_key(blockchain_account@) {
            Err(BridgeError::AlreadyInitialized)
        } else {
            Ok(
                m.insert(
                    blockchain_account@,
                    Record::Blockchain(
                        Blockchain {
                            version: PROGRAM_VERSION,
                            bridge: bridge_account,
                            blockchain_id,
                            validators: 0u64,
                            locks: 0u64,
                            contract_address,
                        },
                    ),
                ),
            )
        }
    }
}

/// One validator registration step.
///
/// The source chain record must be live; the validator address must be the
/// one derived for the chain's current counter value; the address must be
/// unoccupied. On success the validator record is written and the counter
/// advances by one, both in one step.
pub open spec fn add_validator_spec(
    m: StoreMap,
    program: Address,
    bridge_account: Address,
    blockchain_account: Address,
    validator_account: Address,
    payer: Address,
    bridge_authority: Address,
    blockchain_id: BlockchainId,
    pub_key: [u8; 32],
) -> Result<StoreMap, BridgeError> {
    let bc = read_blockchain(m, blockchain_account@);
    if bc is Err {
        Err(bc->Err_0)
    } else if !bc->Ok_0.is_initialized() {
        Err(BridgeError::Uninitialized)
    } else {
        let auth = validate_authority_check(program@, bridge_account@, bridge_authority@);
        if auth is Err {
            Err(auth->Err_0)
        } else {
            let sc = validator_account_check(
                program@,
                blockchain_id,
                bc->Ok_0.validators,
                bridge_authority@,
                validator_account@,
            );
            if sc is Err {
                Err(sc->Err_0)
            } else if m.contains_key(validator_account@) {
                Err(BridgeError::AlreadyInitialized)
            } else if bc->Ok_0.validators == u64::MAX {
                Err(BridgeError::ArithmeticOverflow)
            } else {
                let b = bc->Ok_0;
                Ok(
                    m.insert(
                        validator_account@,
                        Record::Validator(
                            Validator {
                                version: PROGRAM_VERSION,
                                blockchain_id,
                                index: b.validators,
                                pub_key,
                                owner: payer,
                            },
                        ),
                    ).insert(
                        blockchain_account@,
                        Record::Blockchain(
                            Blockchain {
                                version: b.version,
                                bridge: b.bridge,
                                blockchain_id: b.blockchain_id,
                                validators: (b.validators + 1) as u64,
                                locks: b.locks,
                                contract_address: b.contract_address,
                            },
                        ),
                    ),
                )
            }
        }
    }
}

/// Lazily creates one user-counter record, or admits the existing one.
pub open spec fn user_phase(
    m: StoreMap,
    program: Address,
    chain: BlockchainId,
    user_address: Address,
    user_authority: Address,
    user_account: Address,
) -> Result<StoreMap, BridgeError> {
    let va = validate_authority_check(program@, user_address@, user_authority@);
    if va is Err {
        Err(va->Err_0)
    } else {
        let us = user_account_check(program@, chain, user_authority@, user_account@);
        if us is Err {
            Err(us->Err_0)
        } else if m.contains_key(user_account@) {
            if m[user_account@] is User {
                Ok(m)
            } else {
                Err(BridgeError::InvalidAccountData)
            }
        } else {
            Ok(
                m.insert(
                    user_account@,
                    Record::User(
                        User {
                            version: PROGRAM_VERSION,
                            blockchain_id: chain,
                            address: user_address,
                            sent: 0u64,
                            received: 0u64,
                        },
                    ),
                ),
            )
        }
    }
}

/// Creates one transfer-leg record at the slot of the given counter value.
pub open spec fn leg_phase(
    m: StoreMap,
    program: Address,
    chain: BlockchainId,
    user_address: Address,
    user_authority: Address,
    leg_account: Address,
    index: u64,
    tx_type: Seq<u8>,
    tx_id: TxId,
    source: BlockchainId,
    lock_id: u64,
    lock_account: Address,
    reverted: bool,
) -> Result<StoreMap, BridgeError> {
    if m.contains_key(leg_account@) {
        Err(BridgeError::AlreadyInitialized)
    } else {
        let va = validate_authority_check(program@, user_address@, user_authority@);
        if va is Err {
            Err(va->Err_0)
        } else {
            let sc = lock_tx_account_check(program@, chain, index, tx_type, user_authority@, leg_account@);
            if sc is Err {
                Err(sc->Err_0)
            } else {
                Ok(
                    m.insert(
                        leg_account@,
                        Record::LockTx(
                            LockTx {
                                version: PROGRAM_VERSION,
                                tx_id,
                                source,
                                lock_id,
                                lock_account,
                                reverted,
                            },
                        ),
                    ),
                )
            }
        }
    }
}

/// First submission for a transfer identity: allocates the lock record,
/// advances the chain's lock counter, lazily creates both user records,
/// creates both transfer legs, and advances both user counters.
pub open spec fn fresh_lock_phase(
    m: StoreMap,
    program: Address,
    a: SignatureAccounts,
    t: TransferArgs,
    bc: Blockchain,
) -> Result<(StoreMap, Lock), BridgeError> {
    if bc.locks == u64::MAX {
        Err(BridgeError::ArithmeticOverflow)
    } else {
        let lockrec = Lock {
            version: PROGRAM_VERSION,
            index: bc.locks,
            lock_id: t.lock_id,
            tx_id: t.tx_id,
            bridge: a.bridge,
            token_source_address: t.token_source_address,
            token_source: t.token_source,
            source: t.source,
            sender: t.sender,
            recipient: t.recipient,
            destination: t.destination,
            amount: t.amount,
            signatures: 0u64,
        };
        let m1 = m.insert(a.lock@, Record::Lock(lockrec));
        let m2 = m1.insert(
            a.blockchain@,
            Record::Blockchain(
                Blockchain {
                    version: bc.version,
                    bridge: bc.bridge,
                    blockchain_id: bc.blockchain_id,
                    validators: bc.validators,
                    locks: (bc.locks + 1) as u64,
                    contract_address: bc.contract_address,
                },
            ),
        );
        let r3 = user_phase(m2, program, t.source, t.sender, a.sender_user_authority, a.sender_user);
        if r3 is Err {
            Err(r3->Err_0)
        } else {
            let r4 = user_phase(
                r3->Ok_0,
                program,
                t.destination,
                t.recipient,
                a.recipient_user_authority,
                a.recipient_user,
            );
            if r4 is Err {
                Err(r4->Err_0)
            } else {
                let m4 = r4->Ok_0;
                let su = read_user(m4, a.sender_user@);
                if su is Err {
                    Err(su->Err_0)
                } else {
                    let r5 = leg_phase(
                        m4,
                        program,
                        t.source,
                        t.sender,
                        a.sender_user_authority,
                        a.sent_lock,
                        su->Ok_0.sent,
                        encode_utf8("sent"@),
                        t.tx_id,
                        t.source,
                        t.lock_id,
                        a.lock,
                        false,
                    );
                    if r5 is Err {
                        Err(r5->Err_0)
                    } else {
                        let m5 = r5->Ok_0;
                        let ru = read_user(m5, a.recipient_user@);
                        if ru is Err {
                            Err(ru->Err_0)
                        } else {
                            let r6 = leg_phase(
                                m5,
                                program,
                                t.destination,
                                t.recipient,
                                a.recipient_user_authority,
                                a.received_lock,
                                ru->Ok_0.received,
                                encode_utf8("received"@),
                                t.tx_id,
                                t.source,
                                t.lock_id,
                                a.lock,
                                false,
                            );
                            if r6 is Err {
                                Err(r6->Err_0)
                            } else {
                                let m6 = r6->Ok_0;
                                let su2 = read_user(m6, a.sender_user@);
                                if su2 is Err {
                                    Err(su2->Err_0)
                                } else if su2->Ok_0.sent == u64::MAX {
                                    Err(BridgeError::ArithmeticOverflow)
                                } else {
                                    let s2 = su2->Ok_0;
                                    let m7 = m6.insert(
                                        a.sender_user@,
                                        Record::User(
                                            User {
                                                version: s2.version,
                                                blockchain_id: s2.blockchain_id,
                                                address: s2.address,
                                                sent: (s2.sent + 1) as u64,
                                                received: s2.received,
                                            },
                                        ),
                                    );
                                    let ru2 = read_user(m7, a.recipient_user@);
                                    if ru2 is Err {
                                        Err(ru2->Err_0)
                                    } else if ru2->Ok_0.received == u64::MAX {
                                        Err(BridgeError::ArithmeticOverflow)
                                    } else {
                                        let u2 = ru2->Ok_0;
                                        Ok(
                                            (
                                                m7.insert(
                                                    a.recipient_user@,
                                                    Record::User(
                                                        User {
                                                            version: u2.version,
                                                            blockchain_id: u2.blockchain_id,
                                                            address: u2.address,
                                                            sent: u2.sent,
                                                            received: (u2.received + 1) as u64,
                                                        },
                                                    ),
                                                ),
                                                lockrec,
                                            ),
                                        )
                                    }
                                }
                            }
                        }
                    }
                }
            }
        }
    }
}

/// Loads the lock for a repeat submission, or runs the first-submission
/// phase when the lock's address is still empty.
pub open spec fn lock_phase(
    m: StoreMap,
    program: Address,
    a: SignatureAccounts,
    t: TransferArgs,
    bc: Blockchain,
) -> Result<(StoreMap, Lock), BridgeError> {
    if !m.contains_key(a.lock@) {
        fresh_lock_phase(m, program, a, t, bc)
    } else if !(m[a.lock@] is Lock) {
        Err(BridgeError::InvalidAccountData)
    } else {
        Ok((m, m[a.lock@]->Lock_0))
    }
}

/// True when a stored lock's immutable fields agree with a claim.
pub open spec fn lock_matches(l: Lock, t: TransferArgs) -> bool {
    &&& l.lock_id == t.lock_id
    &&& l.tx_id == t.tx_id
    &&& l.token_source_address == t.token_source_address
    &&& l.token_source == t.token_source
    &&& l.source == t.source
    &&& l.sender == t.sender
    &&& l.recipient == t.recipient
    &&& l.destination == t.destination
    &&& l.amount == t.amount
}

/// Verifies the claim against the lock, allocates the signature record at
/// its validator-unique slot, and advances the lock's signature counter.
pub open spec fn sig_phase(
    m: StoreMap,
    program: Address,
    a: SignatureAccounts,
    t: TransferArgs,
    lock: Lock,
    validator: Validator,
) -> Result<StoreMap, BridgeError> {
    if !lock.is_initialized() {
        Err(BridgeError::Uninitialized)
    } else if !lock_matches(lock, t) {
        Err(BridgeError::InvalidArgument)
    } else {
        let sc = signature_account_check(
            program@,
            t.source,
            t.lock_id,
            validator.index,
            t.revert,
            a.bridge_authority@,
            a.signature@,
        );
        if sc is Err {
            Err(sc->Err_0)
        } else if m.contains_key(a.signature@) {
            Err(BridgeError::AlreadyInitialized)
        } else if lock.signatures == u64::MAX {
            Err(BridgeError::ArithmeticOverflow)
        } else {
            let m1 = m.insert(
                a.signature@,
                Record::Signature(
                    Signature {
                        version: PROGRAM_VERSION,
                        source: t.source,
                        lock_id: t.lock_id,
                        bridge: a.bridge,
                        signature: t.signature,
                        validator: a.validator,
                        validator_index: validator.index,
                    },
                ),
            );
            Ok(
                m1.insert(
                    a.lock@,
                    Record::Lock(
                        Lock {
                            version: lock.version,
                            index: lock.index,
                            lock_id: lock.lock_id,
                            tx_id: lock.tx_id,
                            bridge: lock.bridge,
                            token_source_address: lock.token_source_address,
                            token_source: lock.token_source,
                            source: lock.source,
                            sender: lock.sender,
                            recipient: lock.recipient,
                            destination: lock.destination,
                            amount: lock.amount,
                            signatures: (lock.signatures + 1) as u64,
                        },
                    ),
                ),
            )
        }
    }
}

/// One entry of the ordered storage-address list that a call supplies.
#[derive(Clone, Copy, Debug)]
pub struct AccountRef {
    /// The storage address the caller refers to.
    pub key: Address,
    /// Whether the holder of that address co-signed the call.
    pub is_signer: bool,
}

/// Routes a decoded operation to its step function, holding the supplied
/// address list to each operation's expected shape first.
pub open spec fn dispatch_spec(
    m: StoreMap,
    program: Address,
    accounts: Seq<AccountRef>,
    rent_exempt: bool,
    i: crate::instruction::BridgeProgramInstruction,
) -> Result<StoreMap, BridgeError> {
    match i {
        crate::instruction::BridgeProgramInstruction::InitializeBridge => if accounts.len() < 3 {
            Err(BridgeError::NotEnoughAccountKeys)
        } else {
            init_bridge_spec(m, accounts[0].key, accounts[1].key, accounts[1].is_signer, rent_exempt)
        },
        crate::instruction::BridgeProgramInstruction::AddBlockchain {
            blockchain_id,
            contract_address,
        } => if accounts.len() < 5 {
            Err(BridgeError::NotEnoughAccountKeys)
        } else {
            add_blockchain_spec(
                m,
                program,
                accounts[0].key,
                accounts[1].key,
                accounts[3].key,
                blockchain_id,
                contract_address,
            )
        },
        crate::instruction::BridgeProgramInstruction::AddValidator { blockchain_id, pub_key } => if accounts.len() < 6 {
            Err(BridgeError::NotEnoughAccountKeys)
        } else {
            add_validator_spec(
                m,
                program,
                accounts[0].key,
                accounts[1].key,
                accounts[2].key,
                accounts[3].key,
                accounts[4].key,
                blockchain_id,
                pub_key,
            )
        },
        crate::instruction::BridgeProgramInstruction::AddSignature {
            signature,
            token_source,
            token_source_address,
            source,
            lock_id,
            tx_id,
            destination,
            sender,
            recipient,
            amount,
            revert,
        } => if accounts.len() < 14 {
            Err(BridgeError::NotEnoughAccountKeys)
        } else {
            add_signature_spec(
                m,
                program,
                (SignatureAccounts {
                    bridge: accounts[0].key,
                    blockchain: accounts[1].key,
                    validator: accounts[2].key,
                    lock: accounts[3].key,
                    signature: accounts[4].key,
                    bridge_authority: accounts[5].key,
                    sender_user: accounts[6].key,
                    sender_user_authority: accounts[7].key,
                    recipient_user: accounts[8].key,
                    recipient_user_authority: accounts[9].key,
                    sent_lock: accounts[10].key,
                    received_lock: accounts[11].key,
                    payer: accounts[12].key,
                    payer_is_signer: accounts[12].is_signer,
                }),
                (TransferArgs {
                    signature,
                    token_source,
                    token_source_address,
                    source,
                    tx_id,
                    lock_id,
                    destination,
                    sender,
                    recipient,
                    amount,
                    revert,
                }),
            )
        },
    }
}

/// One attestation step: the critical path of the protocol.
pub open spec fn add_signature_spec(
    m: StoreMap,
    program: Address,
    a: SignatureAccounts,
    t: TransferArgs,
) -> Result<StoreMap, BridgeError> {
    if !a.payer_is_signer {
        Err(BridgeError::MissingRequiredSignature)
    } else {
        let br = read_bridge(m, a.bridge@);
        if br is Err {
            Err(br->Err_0)
        } else if !br->Ok_0.is_initialized() {
            Err(BridgeError::Uninitialized)
        } else {
            let bc = read_blockchain(m, a.blockchain@);
            if bc is Err {
                Err(bc->Err_0)
            } else if !bc->Ok_0.is_initialized() {
                Err(BridgeError::Uninitialized)
            } else {
                let vl = read_validator(m, a.validator@);
                if vl is Err {
                    Err(vl->Err_0)
                } else if !vl->Ok_0.is_initialized() {
                    Err(BridgeError::Uninitialized)
                } else if vl->Ok_0.owner != a.payer {
                    Err(BridgeError::InvalidArgument)
                } else if vl->Ok_0.blockchain_id != t.source {
                    Err(BridgeError::InvalidArgument)
                } else {
                    let auth = validate_authority_check(program@, a.bridge@, a.bridge_authority@);
                    if auth is Err {
                        Err(auth->Err_0)
                    } else {
                        let ls = lock_account_check(
                            program@,
                            t.source,
                            t.tx_id,
                            t.revert,
                            a.bridge_authority@,
                            a.lock@,
                        );
                        if ls is Err {
                            Err(ls->Err_0)
                        } else {
                            let lp = lock_phase(m, program, a, t, bc->Ok_0);
                            if lp is Err {
                                Err(lp->Err_0)
                            } else {
                                sig_phase(lp->Ok_0.0, program, a, t, lp->Ok_0.1, vl->Ok_0)
                            }
                        }
                    }
                }
            }
        }
    }
}

} // verus!
