//! The bridge ledger protocol: the executable state machine.
//!
//! Each operation re-derives every address it touches, verifies the
//! caller-supplied addresses against them, and only then creates or updates
//! records. Every operation is proved to follow its step function from
//! [`crate::model`], and to leave the store untouched when it rejects.

use vstd::prelude::*;
use vstd::string::StringSliceAdditionalSpecFns;

use crate::encoding::bytes_eq;
use crate::error::BridgeError;
use crate::instruction::{
    lemma_ser_instruction_injective, parse_instruction, spec_ser_instruction, wf_instruction,
    BridgeProgramInstruction,
};
use crate::model::{
    add_blockchain_spec, add_signature_spec, add_validator_spec, dispatch_spec, fresh_lock_phase,
    init_bridge_spec, leg_phase, user_phase, AccountRef, SignatureAccounts, StoreMap, TransferArgs,
};
use crate::state::{
    Address, BlockchainId, Blockchain, Bridge, Lock, LockTx, Record, Signature, TxId, User,
    Validator,
};
use crate::store::AccountStore;
use crate::utils::{
    check_and_get_blockchain_account_seed, check_and_get_lock_account_seed,
    check_and_get_lock_tx_account_seed, check_and_get_signature_account_seed,
    check_and_get_user_account_seed, check_and_get_validator_account_seed,
    validate_bridge_authority_and_get_bump_seed, validate_user_address_authority_and_get_bump_seed,
};

verus! {

broadcast use vstd::array::group_array_axioms;

/// Ledger protocol handler.
pub struct Processor {}

impl Processor {
    /// Initializes the bridge root record exactly once.
    pub fn process_init_bridge(
        store: &mut AccountStore,
        bridge_account: &Address,
        owner_account: &Address,
        owner_is_signer: bool,
        rent_exempt: bool,
    ) -> (r: Result<(), BridgeError>)
        requires
            old(store).wf(),
        ensures
            final(store).wf(),
            r is Ok ==> init_bridge_spec(
                old(store)@,
                *bridge_account,
                *owner_account,
                owner_is_signer,
                rent_exempt,
            ) == Ok::<StoreMap, BridgeError>(final(store)@),
            r matches Err(e) ==> init_bridge_spec(
                old(store)@,
                *bridge_account,
                *owner_account,
                owner_is_signer,
                rent_exempt,
            ) == Err::<StoreMap, BridgeError>(e) && final(store)@ == old(store)@,
    {
        if !owner_is_signer {
            return Err(BridgeError::MissingRequiredSignature);
        }
        let existing = store.get(bridge_account);
        match existing {
            Some(Record::Bridge(b)) => {
                match b.check_initialized(false) {
                    Ok(()) => (),
                    Err(e) => {
                        return Err(e);
                    },
                }
            },
            Some(_) => {
                return Err(BridgeError::InvalidAccountData);
            },
            None => (),
        }
        if !rent_exempt {
            return Err(BridgeError::NotRentExempt);
        }
        let rec = Record::Bridge(Bridge::new(*owner_account));
        if store.contains(bridge_account) {
            store.update(bridge_account, rec);
            Ok(())
        } else {
            match store.insert_new(bridge_account, rec) {
                Ok(()) => Ok(()),
                Err(e) => Err(e),
            }
        }
    }

    /// Registers a chain under its derived address exactly once.
    pub fn process_add_blockchain(
        store: &mut AccountStore,
        program_id: &Address,
        bridge_account: &Address,
        blockchain_account: &Address,
        bridge_authority: &Address,
        blockchain_id: BlockchainId,
        contract_address: Address,
    ) -> (r: Result<(), BridgeError>)
        requires
            old(store).wf(),
        ensures
            final(store).wf(),
            r is Ok ==> add_blockchain_spec(
                old(store)@,
                *program_id,
                *bridge_account,
                *blockchain_account,
                *bridge_authority,
                blockchain_id,
                contract_address,
            ) == Ok::<StoreMap, BridgeError>(final(store)@),
            r matches Err(e) ==> add_blockchain_spec(
                old(store)@,
                *program_id,
                *bridge_account,
                *blockchain_account,
                *bridge_authority,
                blockchain_id,
                contract_address,
            ) == Err::<StoreMap, BridgeError>(e) && final(store)@ == old(store)@,
    {
        match validate_bridge_authority_and_get_bump_seed(
            program_id,
            bridge_account,
            bridge_authority,
        ) {
            Ok(_bump) => (),
            Err(e) => {
                return Err(e);
            },
        }
        let _seed = match check_and_get_blockchain_account_seed(
            program_id,
            blockchain_id,
            bridge_authority,
            blockchain_account,
        ) {
            Ok(s) => s,
            Err(e) => {
                return Err(e);
            },
        };
        let rec = Record::Blockchain(
            Blockchain::new(*bridge_account, blockchain_id, contract_address),
        );
        match store.insert_new(blockchain_account, rec) {
            Ok(()) => Ok(()),
            Err(e) => Err(e),
        }
    }

    /// Registers a validator at the chain's next index; the record creation
    /// and the counter advance commit together or not at all.
    pub fn process_add_validator(
        store: &mut AccountStore,
        program_id: &Address,
        bridge_account: &Address,
        blockchain_account: &Address,
        validator_account: &Address,
        payer: &Address,
        bridge_authority: &Address,
        blockchain_id: BlockchainId,
        pub_key: [u8; 32],
    ) -> (r: Result<(), BridgeError>)
        requires
            old(store).wf(),
        ensures
            final(store).wf(),
            r is Ok ==> add_validator_spec(
                old(store)@,
                *program_id,
                *bridge_account,
                *blockchain_account,
                *validator_account,
                *payer,
                *bridge_authority,
                blockchain_id,
                pub_key,
            ) == Ok::<StoreMap, BridgeError>(final(store)@),
            r matches Err(e) ==> add_validator_spec(
                old(store)@,
                *program_id,
                *bridge_account,
                *blockchain_account,
                *validator_account,
                *payer,
                *bridge_authority,
                blockchain_id,
                pub_key,
            ) == Err::<StoreMap, BridgeError>(e) && final(store)@ == old(store)@,
    {
        let bc = match store.get(blockchain_account) {
            Some(Record::Blockchain(b)) => b,
            Some(_) => {
                return Err(BridgeError::InvalidAccountData);
            },
            None => {
                return Err(BridgeError::Uninitialized);
            },
        };
        match bc.check_initialized(true) {
            Ok(()) => (),
            Err(e) => {
                return Err(e);
            },
        }
        match validate_bridge_authority_and_get_bump_seed(
            program_id,
            bridge_account,
            bridge_authority,
        ) {
            Ok(_bump) => (),
            Err(e) => {
                return Err(e);
            },
        }
        let _seed = match check_and_get_validator_account_seed(
            program_id,
            blockchain_id,
            bc.validators,
            bridge_authority,
            validator_account,
        ) {
            Ok(s) => s,
            Err(e) => {
                return Err(e);
            },
        };
        if store.contains(validator_account) {
            return Err(BridgeError::AlreadyInitialized);
        }
        if bc.validators == u64::MAX {
            return Err(BridgeError::ArithmeticOverflow);
        }
        let vrec = Record::Validator(
            Validator::new(blockchain_id, bc.validators, pub_key, *payer),
        );
        match store.insert_new(validator_account, vrec) {
            Ok(()) => (),
            Err(e) => {
                return Err(e);
            },
        }
        let bc2 = Blockchain { validators: bc.validators + 1, ..bc };
        store.update(blockchain_account, Record::Blockchain(bc2));
        Ok(())
    }

    /// Loads the user record for one side of a transfer, creating it with
    /// zeroed counters on first touch.
    fn get_or_create_user_data(
        store: &mut AccountStore,
        program_id: &Address,
        blockchain_id: BlockchainId,
        user_address: Address,
        user_authority: &Address,
        user_account: &Address,
    ) -> (r: Result<User, BridgeError>)
        requires
            old(store).wf(),
        ensures
            final(store).wf(),
            r matches Ok(u) ==> user_phase(
                old(store)@,
                *program_id,
                blockchain_id,
                user_address,
                *user_authority,
                *user_account,
            ) == Ok::<StoreMap, BridgeError>(final(store)@) && final(store)@.contains_key(
                user_account@,
            ) && final(store)@[user_account@] == Record::User(u),
            r matches Err(e) ==> user_phase(
                old(store)@,
                *program_id,
                blockchain_id,
                user_address,
                *user_authority,
                *user_account,
            ) == Err::<StoreMap, BridgeError>(e) && final(store)@ == old(store)@,
    {
        match validate_user_address_authority_and_get_bump_seed(
            program_id,
            user_address,
            user_authority,
        ) {
            Ok(_bump) => (),
            Err(e) => {
                return Err(e);
            },
        }
        let _seed = match check_and_get_user_account_seed(
            program_id,
            blockchain_id,
            user_authority,
            user_account,
        ) {
            Ok(s) => s,
            Err(e) => {
                return Err(e);
            },
        };
        match store.get(user_account) {
            Some(Record::User(u)) => Ok(u),
            Some(_) => Err(BridgeError::InvalidAccountData),
            None => {
                let u = User::new(blockchain_id, user_address);
                match store.insert_new(user_account, Record::User(u)) {
                    Ok(()) => Ok(u),
                    Err(e) => Err(e),
                }
            },
        }
    }

    /// Creates one transfer-leg record at the slot of the given counter
    /// value; an occupied slot is refused.
    fn create_lock_tx_account(
        store: &mut AccountStore,
        program_id: &Address,
        blockchain_id: BlockchainId,
        lock_tx_account: &Address,
        lock_account: &Address,
        user_authority: &Address,
        user_address: Address,
        index: u64,
        tx_id: TxId,
        source: BlockchainId,
        lock_id: u64,
        reverted: bool,
        tx_type: &str,
    ) -> (r: Result<(), BridgeError>)
        requires
            old(store).wf(),
        ensures
            final(store).wf(),
            r is Ok ==> leg_phase(
                old(store)@,
                *program_id,
                blockchain_id,
                user_address,
                *user_authority,
                *lock_tx_account,
                index,
                tx_type.spec_bytes(),
                tx_id,
                source,
                lock_id,
                *lock_account,
                reverted,
            ) == Ok::<StoreMap, BridgeError>(final(store)@),
            r matches Err(e) ==> leg_phase(
                old(store)@,
                *program_id,
                blockchain_id,
                user_address,
                *user_authority,
                *lock_tx_account,
                index,
                tx_type.spec_bytes(),
                tx_id,
                source,
                lock_id,
                *lock_account,
                reverted,
            ) == Err::<StoreMap, BridgeError>(e) && final(store)@ == old(store)@,
    {
        if store.contains(lock_tx_account) {
            return Err(BridgeError::AlreadyInitialized);
        }
        match validate_user_address_authority_and_get_bump_seed(
            program_id,
            user_address,
            user_authority,
        ) {
            Ok(_bump) => (),
            Err(e) => {
                return Err(e);
            },
        }
        let _seed = match check_and_get_lock_tx_account_seed(
            program_id,
            blockchain_id,
            index,
            tx_type,
            user_authority,
            lock_tx_account,
        ) {
            Ok(s) => s,
            Err(e) => {
                return Err(e);
            },
        };
        let rec = Record::LockTx(LockTx::new(tx_id, source, lock_id, *lock_account, reverted));
        match store.insert_new(lock_tx_account, rec) {
            Ok(()) => Ok(()),
            Err(e) => Err(e),
        }
    }

    /// First submission for a transfer identity: allocates the lock,
    /// advances the lock counter, and creates the per-user bookkeeping.
    fn create_fresh_lock(
        store: &mut AccountStore,
        program_id: &Address,
        a: &SignatureAccounts,
        t: &TransferArgs,
        bc: Blockchain,
    ) -> (r: Result<Lock, BridgeError>)
        requires
            old(store).wf(),
            !old(store)@.contains_key(a.lock@),
            old(store)@.contains_key(a.blockchain@),
        ensures
            final(store).wf(),
            r matches Ok(l) ==> fresh_lock_phase(old(store)@, *program_id, *a, *t, bc) == Ok::<
                (StoreMap, Lock),
                BridgeError,
            >((final(store)@, l)) && final(store)@.contains_key(a.lock@)
                && final(store)@[a.lock@] == Record::Lock(l),
            r matches Err(e) ==> fresh_lock_phase(old(store)@, *program_id, *a, *t, bc) == Err::<
                (StoreMap, Lock),
                BridgeError,
            >(e),
    {
        if bc.locks == u64::MAX {
            return Err(BridgeError::ArithmeticOverflow);
        }
        let lockrec = Lock::new(
            bc.locks,
            t.lock_id,
            t.tx_id,
            a.bridge,
            t.token_source_address,
            t.token_source,
            t.source,
            t.sender,
            t.recipient,
            t.destination,
            t.amount,
        );
        match store.insert_new(&a.lock, Record::Lock(lockrec)) {
            Ok(()) => (),
            Err(e) => {
                return Err(e);
            },
        }
        let bc2 = Blockchain { locks: bc.locks + 1, ..bc };
        store.update(&a.blockchain, Record::Blockchain(bc2));
        let su = match Self::get_or_create_user_data(
            store,
            program_id,
            t.source,
            t.sender,
            &a.sender_user_authority,
            &a.sender_user,
        ) {
            Ok(u) => u,
            Err(e) => {
                return Err(e);
            },
        };
        let ru = match Self::get_or_create_user_data(
            store,
            program_id,
            t.destination,
            t.recipient,
            &a.recipient_user_authority,
            &a.recipient_user,
        ) {
            Ok(u) => u,
            Err(e) => {
                return Err(e);
            },
        };
        match Self::create_lock_tx_account(
            store,
            program_id,
            t.source,
            &a.sent_lock,
            &a.lock,
            &a.sender_user_authority,
            t.sender,
            su.sent,
            t.tx_id,
            t.source,
            t.lock_id,
            false,
            "sent",
        ) {
            Ok(()) => (),
            Err(e) => {
                return Err(e);
            },
        }
        match Self::create_lock_tx_account(
            store,
            program_id,
            t.destination,
            &a.received_lock,
            &a.lock,
            &a.recipient_user_authority,
            t.recipient,
            ru.received,
            t.tx_id,
            t.source,
            t.lock_id,
            false,
            "received",
        ) {
            Ok(()) => (),
            Err(e) => {
                return Err(e);
            },
        }
        let su2 = match store.get(&a.sender_user) {
            Some(Record::User(u)) => u,
            Some(_) => {
                return Err(BridgeError::InvalidAccountData);
            },
            None => {
                return Err(BridgeError::Uninitialized);
            },
        };
        if su2.sent == u64::MAX {
            return Err(BridgeError::ArithmeticOverflow);
        }
        store.update(&a.sender_user, Record::User(User { sent: su2.sent + 1, ..su2 }));
        let ru2 = match store.get(&a.recipient_user) {
            Some(Record::User(u)) => u,
            Some(_) => {
                return Err(BridgeError::InvalidAccountData);
            },
            None => {
                return Err(BridgeError::Uninitialized);
            },
        };
        if ru2.received == u64::MAX {
            return Err(BridgeError::ArithmeticOverflow);
        }
        store.update(&a.recipient_user, Record::User(User { received: ru2.received + 1, ..ru2 }));
        Ok(lockrec)
    }

    /// The attestation steps, staged on a scratch copy of the store.
    fn add_signature_steps(
        store: &mut AccountStore,
        program_id: &Address,
        a: &SignatureAccounts,
        t: &TransferArgs,
    ) -> (r: Result<(), BridgeError>)
        requires
            old(store).wf(),
        ensures
            final(store).wf(),
            r is Ok ==> add_signature_spec(old(store)@, *program_id, *a, *t) == Ok::<
                StoreMap,
                BridgeError,
            >(final(store)@),
            r matches Err(e) ==> add_signature_spec(old(store)@, *program_id, *a, *t) == Err::<
                StoreMap,
                BridgeError,
            >(e),
    {
        if !a.payer_is_signer {
            return Err(BridgeError::MissingRequiredSignature);
        }
        let br = match store.get(&a.bridge) {
            Some(Record::Bridge(b)) => b,
            Some(_) => {
                return Err(BridgeError::InvalidAccountData);
            },
            None => {
                return Err(BridgeError::Uninitialized);
            },
        };
        match br.check_initialized(true) {
            Ok(()) => (),
            Err(e) => {
                return Err(e);
            },
        }
        let bc = match store.get(&a.blockchain) {
            Some(Record::Blockchain(b)) => b,
            Some(_) => {
                return Err(BridgeError::InvalidAccountData);
            },
            None => {
                return Err(BridgeError::Uninitialized);
            },
        };
        match bc.check_initialized(true) {
            Ok(()) => (),
            Err(e) => {
                return Err(e);
            },
        }
        let vl = match store.get(&a.validator) {
            Some(Record::Validator(v)) => v,
            Some(_) => {
                return Err(BridgeError::InvalidAccountData);
            },
            None => {
                return Err(BridgeError::Uninitialized);
            },
        };
        match vl.check_initialized(true) {
            Ok(()) => (),
            Err(e) => {
                return Err(e);
            },
        }
        if !bytes_eq(vl.owner.as_slice(), a.payer.as_slice()) {
            proof {
                assert(vl.owner@ != a.payer@);
            }
            return Err(BridgeError::InvalidArgument);
        }
        if !bytes_eq(vl.blockchain_id.as_slice(), t.source.as_slice()) {
            proof {
                assert(vl.blockchain_id@ != t.source@);
            }
            return Err(BridgeError::InvalidArgument);
        }
        proof {
            assert(vl.owner =~= a.payer);
            assert(vl.blockchain_id =~= t.source);
        }
        match validate_bridge_authority_and_get_bump_seed(
            program_id,
            &a.bridge,
            &a.bridge_authority,
        ) {
            Ok(_bump) => (),
            Err(e) => {
                return Err(e);
            },
        }
        let _lock_seed = match check_and_get_lock_account_seed(
            program_id,
            t.source,
            &t.tx_id,
            t.revert,
            &a.bridge_authority,
            &a.lock,
        ) {
            Ok(s) => s,
            Err(e) => {
                return Err(e);
            },
        };
        let lock = if !store.contains(&a.lock) {
            match Self::create_fresh_lock(store, program_id, a, t, bc) {
                Ok(l) => l,
                Err(e) => {
                    return Err(e);
                },
            }
        } else {
            match store.get(&a.lock) {
                Some(Record::Lock(l)) => l,
                Some(_) => {
                    return Err(BridgeError::InvalidAccountData);
                },
                None => {
                    return Err(BridgeError::Uninitialized);
                },
            }
        };
        match lock.check_initialized(true) {
            Ok(()) => (),
            Err(e) => {
                return Err(e);
            },
        }
        let fields_match = lock.lock_id == t.lock_id && bytes_eq(
            lock.tx_id.as_slice(),
            t.tx_id.as_slice(),
        ) && bytes_eq(lock.token_source_address.as_slice(), t.token_source_address.as_slice())
            && bytes_eq(lock.token_source.as_slice(), t.token_source.as_slice()) && bytes_eq(
            lock.source.as_slice(),
            t.source.as_slice(),
        ) && bytes_eq(lock.sender.as_slice(), t.sender.as_slice()) && bytes_eq(
            lock.recipient.as_slice(),
            t.recipient.as_slice(),
        ) && bytes_eq(lock.destination.as_slice(), t.destination.as_slice()) && lock.amount
            == t.amount;
        proof {
            assert(lock.tx_id@ == t.tx_id@ ==> lock.tx_id =~= t.tx_id);
            assert(lock.token_source_address@ == t.token_source_address@
                ==> lock.token_source_address =~= t.token_source_address);
            assert(lock.token_source@ == t.token_source@ ==> lock.token_source =~= t.token_source);
            assert(lock.source@ == t.source@ ==> lock.source =~= t.source);
            assert(lock.sender@ == t.sender@ ==> lock.sender =~= t.sender);
            assert(lock.recipient@ == t.recipient@ ==> lock.recipient =~= t.recipient);
            assert(lock.destination@ == t.destination@ ==> lock.destination =~= t.destination);
        }
        if !fields_match {
            return Err(BridgeError::InvalidArgument);
        }
        let _sig_seed = match check_and_get_signature_account_seed(
            program_id,
            t.source,
            t.lock_id,
            vl.index,
            t.revert,
            &a.bridge_authority,
            &a.signature,
        ) {
            Ok(s) => s,
            Err(e) => {
                return Err(e);
            },
        };
        if store.contains(&a.signature) {
            return Err(BridgeError::AlreadyInitialized);
        }
        if lock.signatures == u64::MAX {
            return Err(BridgeError::ArithmeticOverflow);
        }
        let sigrec = Record::Signature(
            Signature::new(t.source, t.lock_id, a.bridge, t.signature, a.validator, vl.index),
        );
        match store.insert_new(&a.signature, sigrec) {
            Ok(()) => (),
            Err(e) => {
                return Err(e);
            },
        }
        let lock2 = Lock { signatures: lock.signatures + 1, ..lock };
        store.update(&a.lock, Record::Lock(lock2));
        Ok(())
    }

    /// Records one validator's attestation on a transfer, creating the lock
    /// and the per-user bookkeeping on the first submission; commits all of
    /// its writes or none.
    pub fn process_add_signature(
        store: &mut AccountStore,
        program_id: &Address,
        accounts: &SignatureAccounts,
        signature: [u8; 65],
        token_source: BlockchainId,
        token_source_address: Address,
        source: BlockchainId,
        tx_id: TxId,
        lock_id: u64,
        destination: BlockchainId,
        sender: Address,
        recipient: Address,
        amount: u64,
        revert: bool,
    ) -> (r: Result<(), BridgeError>)
        requires
            old(store).wf(),
        ensures
            final(store).wf(),
            r is Ok ==> add_signature_spec(
                old(store)@,
                *program_id,
                *accounts,
                (TransferArgs {
                    signature,
                    token_source,
                    token_source_address,
                    source,
                    tx_id,
                    lock_id,
                    destination,
                    sender,
                    recipient,
                    amount,
                    revert,
                }),
            ) == Ok::<StoreMap, BridgeError>(final(store)@),
            r matches Err(e) ==> add_signature_spec(
                old(store)@,
                *program_id,
                *accounts,
                (TransferArgs {
                    signature,
                    token_source,
                    token_source_address,
                    source,
                    tx_id,
                    lock_id,
                    destination,
                    sender,
                    recipient,
                    amount,
                    revert,
                }),
            ) == Err::<StoreMap, BridgeError>(e) && final(store)@ == old(store)@,
    {
        let t = TransferArgs {
            signature,
            token_source,
            token_source_address,
            source,
            tx_id,
            lock_id,
            destination,
            sender,
            recipient,
            amount,
            revert,
        };
        let mut scratch = store.snapshot();
        match Self::add_signature_steps(&mut scratch, program_id, accounts, &t) {
            Ok(()) => {
                *store = scratch;
                Ok(())
            },
            Err(e) => Err(e),
        }
    }

    /// Decodes an inbound call and routes it to its operation. The ordered
    /// address list is positional: each operation documents its own shape.
    pub fn process_instruction(
        store: &mut AccountStore,
        program_id: &Address,
        accounts: &Vec<AccountRef>,
        input: &[u8],
        rent_exempt: bool,
    ) -> (r: Result<(), BridgeError>)
        requires
            old(store).wf(),
        ensures
            final(store).wf(),
            !wf_instruction(input@) ==> r == Err::<(), BridgeError>(
                BridgeError::InvalidInstructionData,
            ) && final(store)@ == old(store)@,
            forall|i: BridgeProgramInstruction|
                #[trigger] spec_ser_instruction(i) == input@ ==> ((r is Ok ==> dispatch_spec(
                    old(store)@,
                    *program_id,
                    accounts@,
                    rent_exempt,
                    i,
                ) == Ok::<StoreMap, BridgeError>(final(store)@)) && (r matches Err(e)
                    ==> dispatch_spec(old(store)@, *program_id, accounts@, rent_exempt, i)
                    == Err::<StoreMap, BridgeError>(e) && final(store)@ == old(store)@)),
    {
        let instr = match parse_instruction(input) {
            Ok(i) => i,
            Err(e) => {
                return Err(e);
            },
        };
        proof {
            assert forall|i: BridgeProgramInstruction|
                spec_ser_instruction(i) == input@ implies i == instr by {
                lemma_ser_instruction_injective(i, instr);
            }
        }
        match instr {
            BridgeProgramInstruction::InitializeBridge => {
                if accounts.len() < 3 {
                    return Err(BridgeError::NotEnoughAccountKeys);
                }
                let bridge_key = accounts[0].key;
                let owner_key = accounts[1].key;
                let owner_is_signer = accounts[1].is_signer;
                Self::process_init_bridge(store, &bridge_key, &owner_key, owner_is_signer, rent_exempt)
            },
            BridgeProgramInstruction::AddBlockchain { blockchain_id, contract_address } => {
                if accounts.len() < 5 {
                    return Err(BridgeError::NotEnoughAccountKeys);
                }
                let bridge_key = accounts[0].key;
                let blockchain_key = accounts[1].key;
                let authority_key = accounts[3].key;
                Self::process_add_blockchain(
                    store,
                    program_id,
                    &bridge_key,
                    &blockchain_key,
                    &authority_key,
                    blockchain_id,
                    contract_address,
                )
            },
            BridgeProgramInstruction::AddValidator { blockchain_id, pub_key } => {
                if accounts.len() < 6 {
                    return Err(BridgeError::NotEnoughAccountKeys);
                }
                let bridge_key = accounts[0].key;
                let blockchain_key = accounts[1].key;
                let validator_key = accounts[2].key;
                let payer_key = accounts[3].key;
                let authority_key = accounts[4].key;
                Self::process_add_validator(
                    store,
                    program_id,
                    &bridge_key,
                    &blockchain_key,
                    &validator_key,
                    &payer_key,
                    &authority_key,
                    blockchain_id,
                    pub_key,
                )
            },
            BridgeProgramInstruction::AddSignature {
                signature,
                token_source,
                token_source_address,
                source,
                lock_id,
                tx_id,
                destination,
                sender,
                recipient,
                amount,
                revert,
            } => {
                if accounts.len() < 14 {
                    return Err(BridgeError::NotEnoughAccountKeys);
                }
                let sig_accounts = SignatureAccounts {
                    bridge: accounts[0].key,
                    blockchain: accounts[1].key,
                    validator: accounts[2].key,
                    lock: accounts[3].key,
                    signature: accounts[4].key,
                    bridge_authority: accounts[5].key,
                    sender_user: accounts[6].key,
                    sender_user_authority: accounts[7].key,
                    recipient_user: accounts[8].key,
                    recipient_user_authority: accounts[9].key,
                    sent_lock: accounts[10].key,
                    received_lock: accounts[11].key,
                    payer: accounts[12].key,
                    payer_is_signer: accounts[12].is_signer,
                };
                Self::process_add_signature(
                    store,
                    program_id,
                    &sig_accounts,
                    signature,
                    token_source,
                    token_source_address,
                    source,
                    tx_id,
                    lock_id,
                    destination,
                    sender,
                    recipient,
                    amount,
                    revert,
                )
            },
        }
    }
}

} // verus!

