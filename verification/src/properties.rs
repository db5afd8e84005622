//! Protocol properties, proved about the step functions of
//! [`crate::model`].
//!
//! Together with each operation's own contract — the executable operation
//! follows its step function and leaves the store untouched when it
//! rejects — these pin down the ledger's replay-safety story.

use vstd::prelude::*;
use vstd::utf8::{valid_utf8, valid_utf8_concat};

use crate::addressing::derived_address;
use crate::encoding::{lemma_ascii_valid_utf8, trim_trailing_zeros};
use crate::error::BridgeError;
use crate::instruction::BridgeProgramInstruction;
use crate::model::{
    add_signature_spec, add_validator_spec, dispatch_spec, lock_matches, read_blockchain,
    read_validator, AccountRef, SignatureAccounts, StoreMap, TransferArgs,
};
use crate::state::{Address, BlockchainId, Record};
use crate::utils::{
    chain_text, lock_seed, signature_seed, spec_encode_chain, validate_authority_check,
    validator_seed,
};

verus! {

broadcast use vstd::array::group_array_axioms;

/// Codec round trip: padding a short chain-id text into its field and
/// trimming the field again restores the text. A text that itself ends in
/// the padding byte is excluded: trimming cannot tell its final zero bytes
/// from padding.
pub proof fn lemma_chain_codec_round_trip(b: Seq<u8>)
    requires
        b.len() <= 4,
        valid_utf8(b),
        b.len() > 0 ==> b.last() != 0,
    ensures
        valid_utf8(spec_encode_chain(b)),
        trim_trailing_zeros(spec_encode_chain(b)) == b,
{
    let pad = Seq::new((4 - b.len()) as nat, |i: int| 0u8);
    assert(forall|j: int| 0 <= j < pad.len() ==> #[trigger] pad[j] == 0);
    lemma_ascii_valid_utf8(pad);
    valid_utf8_concat(b, pad);
    crate::encoding::lemma_trim_of_padded(b, pad);
}

/// Tamper rejection: an otherwise-admissible resubmission for an existing
/// lock whose claim differs from the stored record in any field is
/// rejected as a field mismatch; no other outcome is possible.
pub proof fn lemma_tamper_rejection(
    m: StoreMap,
    program: Address,
    a: SignatureAccounts,
    t: TransferArgs,
)
    requires
        a.payer_is_signer,
        m.contains_key(a.lock@),
        m[a.lock@] is Lock,
        m[a.lock@]->Lock_0.is_initialized(),
        !lock_matches(m[a.lock@]->Lock_0, t),
    ensures
        add_signature_spec(m, program, a, t) is Err,
        ({
            let br = crate::model::read_bridge(m, a.bridge@);
            let bc = read_blockchain(m, a.blockchain@);
            let vl = read_validator(m, a.validator@);
            (br is Ok && br->Ok_0.is_initialized() && bc is Ok && bc->Ok_0.is_initialized()
                && vl is Ok && vl->Ok_0.is_initialized() && vl->Ok_0.owner == a.payer
                && vl->Ok_0.blockchain_id == t.source && validate_authority_check(
                program@,
                a.bridge@,
                a.bridge_authority@,
            ) is Ok && crate::utils::lock_account_check(
                program@,
                t.source,
                t.tx_id,
                t.revert,
                a.bridge_authority@,
                a.lock@,
            ) is Ok) ==> add_signature_spec(m, program, a, t) == Err::<StoreMap, BridgeError>(
                BridgeError::InvalidArgument,
            )
        }),
{
}

/// No double signing, stated through the signature slot: a successful
/// attestation writes the signature record at the address derived from the
/// source chain, the lock id, the submitting validator's index and the
/// revert flag — a slot unique to that validator on that lock — and that
/// slot must have been empty before the call. A second submission by the
/// same validator for the same lock therefore finds its slot occupied and
/// cannot succeed.
pub proof fn lemma_signature_slot(
    m: StoreMap,
    program: Address,
    a: SignatureAccounts,
    t: TransferArgs,
    m2: StoreMap,
)
    requires
        add_signature_spec(m, program, a, t) == Ok::<StoreMap, BridgeError>(m2),
    ensures
        !m.contains_key(a.signature@),
        m2.contains_key(a.signature@) && m2[a.signature@] is Signature,
        read_validator(m, a.validator@) matches Ok(vl) && a.signature@ == derived_address(
            a.bridge_authority@,
            signature_seed(chain_text(t.source), t.lock_id, vl.index, t.revert),
            program@,
        ),
        m2[a.signature@]->Signature_0.validator_index == read_validator(
            m,
            a.validator@,
        )->Ok_0.index,
{
}

/// Idempotent lock identity: two successful attestations that claim the
/// same transfer identity — source chain, transaction id and revert flag —
/// against the same bridge resolve to one single lock address, whatever
/// addresses the two callers supplied, and each advances that lock's
/// signature count by exactly one; the first submission leaves it at one.
pub proof fn lemma_idempotent_lock_identity(
    m0: StoreMap,
    program: Address,
    a1: SignatureAccounts,
    t1: TransferArgs,
    m1: StoreMap,
    a2: SignatureAccounts,
    t2: TransferArgs,
    m2: StoreMap,
)
    requires
        add_signature_spec(m0, program, a1, t1) == Ok::<StoreMap, BridgeError>(m1),
        add_signature_spec(m1, program, a2, t2) == Ok::<StoreMap, BridgeError>(m2),
        t1.source == t2.source,
        t1.tx_id == t2.tx_id,
        t1.revert == t2.revert,
        a1.bridge == a2.bridge,
    ensures
        a1.lock == a2.lock,
        m1.contains_key(a1.lock@) && m1[a1.lock@] is Lock,
        m2.contains_key(a1.lock@) && m2[a1.lock@] is Lock,
        m2[a1.lock@]->Lock_0.signatures == m1[a1.lock@]->Lock_0.signatures + 1,
        !m0.contains_key(a1.lock@) ==> m1[a1.lock@]->Lock_0.signatures == 1,
{
    assert(a1.bridge_authority@ == a2.bridge_authority@);
    assert(a1.lock@ == derived_address(
        a1.bridge_authority@,
        lock_seed(chain_text(t1.source), t1.tx_id@, t1.revert),
        program@,
    ));
    assert(a2.lock@ == derived_address(
        a2.bridge_authority@,
        lock_seed(chain_text(t2.source), t2.tx_id@, t2.revert),
        program@,
    ));
    assert(a1.lock =~= a2.lock);
}

/// Lazy user creation touches no record of another kind.
proof fn lemma_user_phase_frame(
    m: StoreMap,
    program: Address,
    chain: BlockchainId,
    user_address: Address,
    user_authority: Address,
    user_account: Address,
    k: Seq<u8>,
)
    requires
        crate::model::user_phase(m, program, chain, user_address, user_authority, user_account)
            is Ok,
        m.contains_key(k),
        !(m[k] is User),
    ensures
        ({
            let out = crate::model::user_phase(
                m,
                program,
                chain,
                user_address,
                user_authority,
                user_account,
            )->Ok_0;
            out.contains_key(k) && out[k] == m[k]
        }),
{
}

/// Transfer-leg creation touches no existing record.
proof fn lemma_leg_phase_frame(
    m: StoreMap,
    program: Address,
    chain: BlockchainId,
    user_address: Address,
    user_authority: Address,
    leg_account: Address,
    index: u64,
    tx_type: Seq<u8>,
    t: TransferArgs,
    lock_account: Address,
    k: Seq<u8>,
)
    requires
        crate::model::leg_phase(
            m,
            program,
            chain,
            user_address,
            user_authority,
            leg_account,
            index,
            tx_type,
            t.tx_id,
            t.source,
            t.lock_id,
            lock_account,
            false,
        ) is Ok,
        m.contains_key(k),
    ensures
        ({
            let out = crate::model::leg_phase(
                m,
                program,
                chain,
                user_address,
                user_authority,
                leg_account,
                index,
                tx_type,
                t.tx_id,
                t.source,
                t.lock_id,
                lock_account,
                false,
            )->Ok_0;
            out.contains_key(k) && out[k] == m[k]
        }),
{
}

/// A successful attestation only ever writes lock, signature, chain,
/// user and transfer-leg records; a record of any other kind survives it
/// untouched.
proof fn lemma_attestation_frame(
    m0: StoreMap,
    program: Address,
    a: SignatureAccounts,
    t: TransferArgs,
    m1: StoreMap,
    k: Seq<u8>,
)
    requires
        add_signature_spec(m0, program, a, t) == Ok::<StoreMap, BridgeError>(m1),
        m0.contains_key(k),
        !(m0[k] is User),
        !(m0[k] is Blockchain),
        !(m0[k] is Lock),
    ensures
        m1.contains_key(k),
        m1[k] == m0[k],
{
    let bc = read_blockchain(m0, a.blockchain@)->Ok_0;
    let lp = crate::model::lock_phase(m0, program, a, t, bc);
    assert(lp is Ok);
    let ml = lp->Ok_0.0;
    if !m0.contains_key(a.lock@) {
        let fl = crate::model::fresh_lock_phase(m0, program, a, t, bc);
        let lockrec = crate::state::Lock {
            version: crate::PROGRAM_VERSION,
            index: bc.locks,
            lock_id: t.lock_id,
            tx_id: t.tx_id,
            bridge: a.bridge,
            token_source_address: t.token_source_address,
            token_source: t.token_source,
            source: t.source,
            sender: t.sender,
            recipient: t.recipient,
            destination: t.destination,
            amount: t.amount,
            signatures: 0u64,
        };
        let m_a = m0.insert(a.lock@, Record::Lock(lockrec));
        let m_b = m_a.insert(
            a.blockchain@,
            Record::Blockchain(
                crate::state::Blockchain {
                    version: bc.version,
                    bridge: bc.bridge,
                    blockchain_id: bc.blockchain_id,
                    validators: bc.validators,
                    locks: (bc.locks + 1) as u64,
                    contract_address: bc.contract_address,
                },
            ),
        );
        assert(m_b.contains_key(k) && m_b[k] == m0[k]);
        let r3 = crate::model::user_phase(
            m_b,
            program,
            t.source,
            t.sender,
            a.sender_user_authority,
            a.sender_user,
        );
        assert(r3 is Ok);
        let m_c = r3->Ok_0;
        lemma_user_phase_frame(
            m_b,
            program,
            t.source,
            t.sender,
            a.sender_user_authority,
            a.sender_user,
            k,
        );
        let r4 = crate::model::user_phase(
            m_c,
            program,
            t.destination,
            t.recipient,
            a.recipient_user_authority,
            a.recipient_user,
        );
        assert(r4 is Ok);
        let m_d = r4->Ok_0;
        lemma_user_phase_frame(
            m_c,
            program,
            t.destination,
            t.recipient,
            a.recipient_user_authority,
            a.recipient_user,
            k,
        );
        let su = crate::model::read_user(m_d, a.sender_user@)->Ok_0;
        let r5 = crate::model::leg_phase(
            m_d,
            program,
            t.source,
            t.sender,
            a.sender_user_authority,
            a.sent_lock,
            su.sent,
            vstd::utf8::encode_utf8("sent"@),
            t.tx_id,
            t.source,
            t.lock_id,
            a.lock,
            false,
        );
        assert(r5 is Ok);
        let m_e = r5->Ok_0;
        lemma_leg_phase_frame(
            m_d,
            program,
            t.source,
            t.sender,
            a.sender_user_authority,
            a.sent_lock,
            su.sent,
            vstd::utf8::encode_utf8("sent"@),
            t,
            a.lock,
            k,
        );
        let ru = crate::model::read_user(m_e, a.recipient_user@)->Ok_0;
        let r6 = crate::model::leg_phase(
            m_e,
            program,
            t.destination,
            t.recipient,
            a.recipient_user_authority,
            a.received_lock,
            ru.received,
            vstd::utf8::encode_utf8("received"@),
            t.tx_id,
            t.source,
            t.lock_id,
            a.lock,
            false,
        );
        assert(r6 is Ok);
        let m_f = r6->Ok_0;
        lemma_leg_phase_frame(
            m_e,
            program,
            t.destination,
            t.recipient,
            a.recipient_user_authority,
            a.received_lock,
            ru.received,
            vstd::utf8::encode_utf8("received"@),
            t,
            a.lock,
            k,
        );
        let su2 = crate::model::read_user(m_f, a.sender_user@)->Ok_0;
        let m_g = m_f.insert(
            a.sender_user@,
            Record::User(
                crate::state::User {
                    version: su2.version,
                    blockchain_id: su2.blockchain_id,
                    address: su2.address,
                    sent: (su2.sent + 1) as u64,
                    received: su2.received,
                },
            ),
        );
        assert(m_g.contains_key(k) && m_g[k] == m0[k]);
        let ru2 = crate::model::read_user(m_g, a.recipient_user@)->Ok_0;
        let m_h = m_g.insert(
            a.recipient_user@,
            Record::User(
                crate::state::User {
                    version: ru2.version,
                    blockchain_id: ru2.blockchain_id,
                    address: ru2.address,
                    sent: ru2.sent,
                    received: (ru2.received + 1) as u64,
                },
            ),
        );
        assert(m_h.contains_key(k) && m_h[k] == m0[k]);
        assert(fl == Ok::<(StoreMap, crate::state::Lock), BridgeError>((m_h, lockrec)));
        assert(ml == m_h);
    } else {
        assert(ml == m0);
    }
    assert(ml.contains_key(k) && ml[k] == m0[k]);
}

/// A successful attestation leaves every validator record exactly as it
/// was: nothing in the protocol ever rewrites a validator registration.
pub proof fn lemma_attestation_preserves_validators(
    m0: StoreMap,
    program: Address,
    a: SignatureAccounts,
    t: TransferArgs,
    m1: StoreMap,
    k: Seq<u8>,
)
    requires
        add_signature_spec(m0, program, a, t) == Ok::<StoreMap, BridgeError>(m1),
        m0.contains_key(k),
        m0[k] is Validator,
    ensures
        m1.contains_key(k),
        m1[k] == m0[k],
{
    lemma_attestation_frame(m0, program, a, t, m1, k);
}

/// No double signing, two-call form: once one attestation by a validator
/// has succeeded, a second submission for the same source chain, lock id
/// and revert flag through the same validator record fails, whatever
/// addresses the second caller claims.
pub proof fn lemma_no_double_signing(
    m0: StoreMap,
    program: Address,
    a1: SignatureAccounts,
    t1: TransferArgs,
    m1: StoreMap,
    a2: SignatureAccounts,
    t2: TransferArgs,
)
    requires
        add_signature_spec(m0, program, a1, t1) == Ok::<StoreMap, BridgeError>(m1),
        t2.source == t1.source,
        t2.lock_id == t1.lock_id,
        t2.revert == t1.revert,
        a2.validator == a1.validator,
        a2.bridge == a1.bridge,
    ensures
        add_signature_spec(m1, program, a2, t2) is Err,
{
    let r2 = add_signature_spec(m1, program, a2, t2);
    if r2 is Ok {
        let m2 = r2->Ok_0;
        lemma_signature_slot(m0, program, a1, t1, m1);
        lemma_signature_slot(m1, program, a2, t2, m2);
        assert(m0.contains_key(a1.validator@) && m0[a1.validator@] is Validator);
        lemma_attestation_preserves_validators(m0, program, a1, t1, m1, a1.validator@);
        assert(read_validator(m1, a2.validator@) == read_validator(m0, a1.validator@));
        assert(a1.bridge_authority@ == a2.bridge_authority@);
        assert(a2.signature@ == a1.signature@);
        assert(m1.contains_key(a1.signature@));
        assert(false);
    }
}

/// A live bridge record is never rewritten: once a bridge is initialized,
/// its owner stands for the deployment's lifetime, whichever operation
/// runs afterwards.
pub proof fn lemma_bridge_records_immutable(
    m: StoreMap,
    program: Address,
    accounts: Seq<AccountRef>,
    rent_exempt: bool,
    i: BridgeProgramInstruction,
    m1: StoreMap,
    k: Seq<u8>,
)
    requires
        dispatch_spec(m, program, accounts, rent_exempt, i) == Ok::<StoreMap, BridgeError>(m1),
        m.contains_key(k),
        m[k] is Bridge,
        m[k]->Bridge_0.is_initialized(),
    ensures
        m1.contains_key(k),
        m1[k] == m[k],
{
    match i {
        BridgeProgramInstruction::InitializeBridge => {
            assert(accounts[0].key@ != k);
        },
        BridgeProgramInstruction::AddBlockchain { .. } => {},
        BridgeProgramInstruction::AddValidator { .. } => {},
        BridgeProgramInstruction::AddSignature { .. } => {
            lemma_attestation_frame(
                m,
                program,
                (SignatureAccounts {
                    bridge: accounts[0].key,
                    blockchain: accounts[1].key,
                    validator: accounts[2].key,
                    lock: accounts[3].key,
                    signature: accounts[4].key,
                    bridge_authority: accounts[5].key,
                    sender_user: accounts[6].key,
                    sender_user_authority: accounts[7].key,
                    recipient_user: accounts[8].key,
                    recipient_user_authority: accounts[9].key,
                    sent_lock: accounts[10].key,
                    received_lock: accounts[11].key,
                    payer: accounts[12].key,
                    payer_is_signer: accounts[12].is_signer,
                }),
                (TransferArgs {
                    signature: i->AddSignature_signature,
                    token_source: i->AddSignature_token_source,
                    token_source_address: i->AddSignature_token_source_address,
                    source: i->AddSignature_source,
                    tx_id: i->AddSignature_tx_id,
                    lock_id: i->AddSignature_lock_id,
                    destination: i->AddSignature_destination,
                    sender: i->AddSignature_sender,
                    recipient: i->AddSignature_recipient,
                    amount: i->AddSignature_amount,
                    revert: i->AddSignature_revert,
                }),
                m1,
                k,
            );
        },
    }
}

/// A validator registration is immutable once made: no operation, the
/// registration of further validators included, ever rewrites an existing
/// validator record.
pub proof fn lemma_validator_records_immutable(
    m: StoreMap,
    program: Address,
    accounts: Seq<AccountRef>,
    rent_exempt: bool,
    i: BridgeProgramInstruction,
    m1: StoreMap,
    k: Seq<u8>,
)
    requires
        dispatch_spec(m, program, accounts, rent_exempt, i) == Ok::<StoreMap, BridgeError>(m1),
        m.contains_key(k),
        m[k] is Validator,
    ensures
        m1.contains_key(k),
        m1[k] == m[k],
{
    match i {
        BridgeProgramInstruction::InitializeBridge => {
            assert(accounts[0].key@ != k);
        },
        BridgeProgramInstruction::AddBlockchain { .. } => {},
        BridgeProgramInstruction::AddValidator { .. } => {},
        BridgeProgramInstruction::AddSignature { .. } => {
            lemma_attestation_frame(
                m,
                program,
                (SignatureAccounts {
                    bridge: accounts[0].key,
                    blockchain: accounts[1].key,
                    validator: accounts[2].key,
                    lock: accounts[3].key,
                    signature: accounts[4].key,
                    bridge_authority: accounts[5].key,
                    sender_user: accounts[6].key,
                    sender_user_authority: accounts[7].key,
                    recipient_user: accounts[8].key,
                    recipient_user_authority: accounts[9].key,
                    sent_lock: accounts[10].key,
                    received_lock: accounts[11].key,
                    payer: accounts[12].key,
                    payer_is_signer: accounts[12].is_signer,
                }),
                (TransferArgs {
                    signature: i->AddSignature_signature,
                    token_source: i->AddSignature_token_source,
                    token_source_address: i->AddSignature_token_source_address,
                    source: i->AddSignature_source,
                    tx_id: i->AddSignature_tx_id,
                    lock_id: i->AddSignature_lock_id,
                    destination: i->AddSignature_destination,
                    sender: i->AddSignature_sender,
                    recipient: i->AddSignature_recipient,
                    amount: i->AddSignature_amount,
                    revert: i->AddSignature_revert,
                }),
                m1,
                k,
            );
        },
    }
}

/// Folds a sequence of validator registrations, all on one chain of one
/// bridge; yields the final store only when every step succeeds. Each item
/// carries the claimed validator address, the registering payer, and the
/// validator public key.
pub open spec fn register_validators(
    m: StoreMap,
    program: Address,
    bridge_account: Address,
    blockchain_account: Address,
    bridge_authority: Address,
    blockchain_id: BlockchainId,
    items: Seq<(Address, Address, [u8; 32])>,
) -> Option<StoreMap>
    decreases items.len(),
{
    if items.len() == 0 {
        Some(m)
    } else {
        let step = add_validator_spec(
            m,
            program,
            bridge_account,
            blockchain_account,
            items[0].0,
            items[0].1,
            bridge_authority,
            blockchain_id,
            items[0].2,
        );
        if step is Ok {
            register_validators(
                step->Ok_0,
                program,
                bridge_account,
                blockchain_account,
                bridge_authority,
                blockchain_id,
                items.drop_first(),
            )
        } else {
            None
        }
    }
}

/// Counter/address coupling: when validators register in sequence on one
/// chain, each lands exactly at the address derived for the counter value
/// at its turn, and afterward the chain's counter has advanced by the
/// number of registrations.
pub proof fn lemma_counter_address_coupling(
    m0: StoreMap,
    program: Address,
    bridge_account: Address,
    blockchain_account: Address,
    bridge_authority: Address,
    blockchain_id: BlockchainId,
    items: Seq<(Address, Address, [u8; 32])>,
    mn: StoreMap,
)
    requires
        register_validators(
            m0,
            program,
            bridge_account,
            blockchain_account,
            bridge_authority,
            blockchain_id,
            items,
        ) == Some(mn),
        read_blockchain(m0, blockchain_account@) is Ok,
    ensures
        read_blockchain(mn, blockchain_account@) is Ok,
        read_blockchain(mn, blockchain_account@)->Ok_0.validators == read_blockchain(
            m0,
            blockchain_account@,
        )->Ok_0.validators + items.len(),
        forall|j: int|
            0 <= j < items.len() ==> items[j].0@ == derived_address(
                bridge_authority@,
                validator_seed(
                    chain_text(blockchain_id),
                    (read_blockchain(m0, blockchain_account@)->Ok_0.validators + j) as u64,
                ),
                program@,
            ),
    decreases items.len(),
{
    if items.len() > 0 {
        let v0 = read_blockchain(m0, blockchain_account@)->Ok_0.validators;
        let step = add_validator_spec(
            m0,
            program,
            bridge_account,
            blockchain_account,
            items[0].0,
            items[0].1,
            bridge_authority,
            blockchain_id,
            items[0].2,
        );
        let m1 = step->Ok_0;
        assert(step is Ok);
        assert(items[0].0@ == derived_address(
            bridge_authority@,
            validator_seed(chain_text(blockchain_id), v0),
            program@,
        ));
        assert(read_blockchain(m1, blockchain_account@) is Ok);
        assert(read_blockchain(m1, blockchain_account@)->Ok_0.validators == v0 + 1);
        lemma_counter_address_coupling(
            m1,
            program,
            bridge_account,
            blockchain_account,
            bridge_authority,
            blockchain_id,
            items.drop_first(),
            mn,
        );
        assert forall|j: int|
            0 <= j < items.len() implies items[j].0@ == derived_address(
            bridge_authority@,
            validator_seed(chain_text(blockchain_id), (v0 + j) as u64),
            program@,
        ) by {
            if j > 0 {
                assert(items.drop_first()[j - 1] == items[j]);
            }
        }
    }
}

} // verus!
