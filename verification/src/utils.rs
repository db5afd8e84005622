//! Seed grammar, chain-id codec, and address admission checks.
//!
//! Every record's storage address is derived from a seed text that is a
//! pure function of the record's semantic keys. The functions here build
//! those seeds, re-derive the expected addresses, and compare them with the
//! caller-supplied ones; this comparison is the sole admission check before
//! any mutation.

use vstd::prelude::*;
use vstd::slice::{slice_subrange, slice_to_vec};
use vstd::string::StringSliceAdditionalSpecFns;
use vstd::utf8::{encode_utf8, encode_utf8_valid_utf8, valid_utf8, valid_utf8_concat};

use crate::addressing::{
    create_with_seed_address, derived_address, ends_with_pda_marker, pda_of, try_find_authority,
};
use crate::encoding::{
    bytes_eq, dec_u64, hex_bytes, is_valid_utf8, lemma_ascii_valid_utf8, lemma_dec_ascii,
    lemma_hex_ascii, lemma_trim_is_prefix, lemma_trim_last, lemma_trim_preserves_valid_utf8,
    spec_dec, spec_hex, trim_trailing_zeros,
};
use crate::error::BridgeError;
use crate::state::{Address, BlockchainId, Record, TxId};
use crate::store::AccountStore;

verus! {

/// ASCII code of the separator used throughout the seed grammar.
pub const SEPARATOR: u8 = 95;

/// The textual form of a chain identifier: its bytes without the padding.
pub open spec fn chain_text(id: BlockchainId) -> Seq<u8> {
    trim_trailing_zeros(id@)
}

/// A chain identifier field padded out of a short byte text.
pub open spec fn spec_encode_chain(b: Seq<u8>) -> Seq<u8>
    recommends
        b.len() <= 4,
{
    b + Seq::new((4 - b.len()) as nat, |i: int| 0u8)
}

/// Seed of a chain record.
pub open spec fn blockchain_seed(chain: Seq<u8>) -> Seq<u8> {
    encode_utf8("blockchain_"@) + chain
}

/// Seed of a validator record.
pub open spec fn validator_seed(chain: Seq<u8>, index: u64) -> Seq<u8> {
    encode_utf8("validator_"@) + chain + seq![SEPARATOR] + spec_dec(index as nat)
}

/// Seed of a lock record: keyed by the transfer's source chain and the
/// first twenty hexadecimal digits of its external transaction id.
pub open spec fn lock_seed(chain: Seq<u8>, tx_id: Seq<u8>, revert: bool) -> Seq<u8> {
    (if revert {
        encode_utf8("revert_"@)
    } else {
        encode_utf8("lock_"@)
    }) + chain + seq![SEPARATOR] + spec_hex(tx_id.take(10))
}

/// Seed of a signature record: unique per validator per lock.
pub open spec fn signature_seed(chain: Seq<u8>, lock_id: u64, validator_index: u64, revert:
    bool) -> Seq<u8> {
    encode_utf8("signature_"@) + (if revert {
        encode_utf8("revert"@)
    } else {
        encode_utf8("lock"@)
    }) + seq![SEPARATOR] + chain + seq![SEPARATOR] + spec_dec(lock_id as nat) + seq![SEPARATOR]
        + spec_dec(validator_index as nat)
}

/// Seed of a user-counter record.
pub open spec fn user_seed(chain: Seq<u8>) -> Seq<u8> {
    encode_utf8("user_"@) + chain
}

/// Seed of a transfer-leg record of the given kind.
pub open spec fn lock_tx_seed(tx_type: Seq<u8>, chain: Seq<u8>, index: u64) -> Seq<u8> {
    tx_type + seq![SEPARATOR] + chain + seq![SEPARATOR] + spec_dec(index as nat)
}

/// Seed of a sent transfer leg.
pub open spec fn sent_seed(chain: Seq<u8>, index: u64) -> Seq<u8> {
    lock_tx_seed(encode_utf8("sent"@), chain, index)
}

/// Seed of a received transfer leg.
pub open spec fn received_seed(chain: Seq<u8>, index: u64) -> Seq<u8> {
    lock_tx_seed(encode_utf8("received"@), chain, index)
}

/// Outcome of re-deriving a storage address and holding a claimed address
/// against it: the seed itself on success, or the exact rejection.
pub open spec fn account_seed_check(
    program: Seq<u8>,
    seed: Seq<u8>,
    authority: Seq<u8>,
    account: Seq<u8>,
) -> Result<Seq<u8>, BridgeError> {
    if seed.len() > 32 {
        Err(BridgeError::MaxSeedLengthExceeded)
    } else if ends_with_pda_marker(program) {
        Err(BridgeError::IllegalOwner)
    } else if account != derived_address(authority, seed, program) {
        Err(BridgeError::InvalidSeeds)
    } else {
        Ok(seed)
    }
}

/// Outcome of holding a claimed namespace authority against the one derived
/// from a seed: the bump discriminant on success.
pub open spec fn validate_authority_check(program: Seq<u8>, seed: Seq<u8>, authority: Seq<
    u8,
>) -> Result<u8, BridgeError> {
    match pda_of(seed, program) {
        Some(p) => if authority == p.0 {
            Ok(p.1)
        } else {
            Err(BridgeError::InvalidSeeds)
        },
        None => Err(BridgeError::InvalidSeeds),
    }
}

/// Decodes a chain identifier field back into its byte text; rejects a
/// field that is not valid UTF-8.
pub fn chain_id_to_str(chain_id: &BlockchainId) -> (r: Result<Vec<u8>, BridgeError>)
    ensures
        r is Ok <==> valid_utf8(chain_id@),
        r matches Ok(v) ==> v@ == chain_text(*chain_id),
        r is Err ==> r == Err::<Vec<u8>, BridgeError>(BridgeError::BadChainId),
{
    if !is_valid_utf8(chain_id.as_slice()) {
        return Err(BridgeError::BadChainId);
    }
    let mut end: usize = 4;
    while end > 0 && chain_id[end - 1] == 0
        invariant
            0 <= end <= 4,
            forall|j: int| end <= j < 4 ==> chain_id@[j] == 0,
        decreases end,
    {
        end = end - 1;
    }
    let v = slice_to_vec(slice_subrange(chain_id.as_slice(), 0, end));
    proof {
        lemma_trim_is_prefix(chain_id@);
        lemma_trim_last(chain_id@);
        let t = trim_trailing_zeros(chain_id@).len() as int;
        if end > t {
            assert(chain_id@[end - 1] == 0);
            assert(false);
        }
        if end < t {
            assert(trim_trailing_zeros(chain_id@)[t - 1] == chain_id@[t - 1]);
            assert(chain_id@[t - 1] == 0);
            assert(false);
        }
        assert(v@ =~= trim_trailing_zeros(chain_id@));
    }
    Ok(v)
}

/// Encodes a short byte text into a chain identifier field, padding with
/// zero bytes; rejects text longer than the field.
pub fn str_to_chain_id(s: &str) -> (r: Result<BlockchainId, BridgeError>)
    ensures
        r is Ok <==> s.spec_bytes().len() <= 4,
        r matches Ok(id) ==> id@ == spec_encode_chain(s.spec_bytes()),
        r is Err ==> r == Err::<BlockchainId, BridgeError>(BridgeError::BadChainId),
{
    let b = s.as_bytes();
    let n = b.len();
    if n > 4 {
        return Err(BridgeError::BadChainId);
    }
    let mut id: BlockchainId = [0u8; 4];
    proof {
        assert(forall|k: int| 0 <= k < 4 ==> id@[k] == 0u8);
    }
    let mut i: usize = 0;
    while i < n
        invariant
            0 <= i <= n <= 4,
            n == b@.len(),
            id@.len() == 4,
            forall|k: int| 0 <= k < i ==> id@[k] == b@[k],
            forall|k: int| i <= k < 4 ==> id@[k] == 0u8,
        decreases n - i,
    {
        id[i] = b[i];
        i = i + 1;
    }
    proof {
        assert(id@ =~= spec_encode_chain(s.spec_bytes()));
    }
    Ok(id)
}

/// A separator followed by a decimal rendering is valid UTF-8.
proof fn lemma_sep_dec_valid(n: nat)
    ensures
        valid_utf8(seq![SEPARATOR] + spec_dec(n)),
{
    lemma_dec_ascii(n);
    let s = seq![SEPARATOR] + spec_dec(n);
    assert forall|i: int| 0 <= i < s.len() implies s[i] <= 0x7f by {
        if i >= 1 {
            assert(s[i] == spec_dec(n)[i - 1]);
        }
    }
    lemma_ascii_valid_utf8(s);
}

/// A separator followed by a hexadecimal rendering is valid UTF-8.
proof fn lemma_sep_hex_valid(b: Seq<u8>)
    ensures
        valid_utf8(seq![SEPARATOR] + spec_hex(b)),
{
    lemma_hex_ascii(b);
    let s = seq![SEPARATOR] + spec_hex(b);
    assert forall|i: int| 0 <= i < s.len() implies s[i] <= 0x7f by {
        if i >= 1 {
            assert(s[i] == spec_hex(b)[i - 1]);
        }
    }
    lemma_ascii_valid_utf8(s);
}

/// A lone separator is valid UTF-8.
proof fn lemma_sep_valid()
    ensures
        valid_utf8(seq![SEPARATOR]),
{
    lemma_ascii_valid_utf8(seq![SEPARATOR]);
}

/// Outcome of the chain-record address check.
pub open spec fn blockchain_account_check(
    program: Seq<u8>,
    id: BlockchainId,
    authority: Seq<u8>,
    account: Seq<u8>,
) -> Result<Seq<u8>, BridgeError> {
    if !valid_utf8(id@) {
        Err(BridgeError::BadChainId)
    } else {
        account_seed_check(program, blockchain_seed(chain_text(id)), authority, account)
    }
}

/// Outcome of the validator-record address check for one index.
pub open spec fn validator_account_check(
    program: Seq<u8>,
    id: BlockchainId,
    index: u64,
    authority: Seq<u8>,
    account: Seq<u8>,
) -> Result<Seq<u8>, BridgeError> {
    if !valid_utf8(id@) {
        Err(BridgeError::BadChainId)
    } else {
        account_seed_check(program, validator_seed(chain_text(id), index), authority, account)
    }
}

/// Outcome of the lock-record address check for one transfer identity.
pub open spec fn lock_account_check(
    program: Seq<u8>,
    source: BlockchainId,
    tx_id: TxId,
    revert: bool,
    authority: Seq<u8>,
    account: Seq<u8>,
) -> Result<Seq<u8>, BridgeError> {
    if !valid_utf8(source@) {
        Err(BridgeError::BadChainId)
    } else {
        account_seed_check(program, lock_seed(chain_text(source), tx_id@, revert), authority, account)
    }
}

/// Outcome of the signature-record address check for one validator slot.
pub open spec fn signature_account_check(
    program: Seq<u8>,
    source: BlockchainId,
    lock_id: u64,
    validator_id: u64,
    revert: bool,
    authority: Seq<u8>,
    account: Seq<u8>,
) -> Result<Seq<u8>, BridgeError> {
    if !valid_utf8(source@) {
        Err(BridgeError::BadChainId)
    } else {
        account_seed_check(
            program,
            signature_seed(chain_text(source), lock_id, validator_id, revert),
            authority,
            account,
        )
    }
}

/// Outcome of the user-record address check.
pub open spec fn user_account_check(
    program: Seq<u8>,
    id: BlockchainId,
    authority: Seq<u8>,
    account: Seq<u8>,
) -> Result<Seq<u8>, BridgeError> {
    if !valid_utf8(id@) {
        Err(BridgeError::BadChainId)
    } else {
        account_seed_check(program, user_seed(chain_text(id)), authority, account)
    }
}

/// Outcome of the transfer-leg address check for one counter slot.
pub open spec fn lock_tx_account_check(
    program: Seq<u8>,
    id: BlockchainId,
    index: u64,
    tx_type: Seq<u8>,
    authority: Seq<u8>,
    account: Seq<u8>,
) -> Result<Seq<u8>, BridgeError> {
    if !valid_utf8(id@) {
        Err(BridgeError::BadChainId)
    } else {
        account_seed_check(program, lock_tx_seed(tx_type, chain_text(id), index), authority, account)
    }
}

/// Re-derives the storage address for a seed under an authority and holds
/// the claimed account against it; hands the seed back on success so the
/// caller can authorize the allocation with it.
pub fn check_and_get_account_seed(
    program_id: &Address,
    seed: Vec<u8>,
    authority: &Address,
    account: &Address,
) -> (r: Result<Vec<u8>, BridgeError>)
    requires
        valid_utf8(seed@),
    ensures
        match r {
            Ok(v) => account_seed_check(program_id@, seed@, authority@, account@) == Ok::<
                Seq<u8>,
                BridgeError,
            >(v@),
            Err(e) => account_seed_check(program_id@, seed@, authority@, account@) == Err::<
                Seq<u8>,
                BridgeError,
            >(e),
        },
{
    match create_with_seed_address(authority, seed.as_slice(), program_id) {
        Ok(expected) => {
            if bytes_eq(expected.as_slice(), account.as_slice()) {
                Ok(seed)
            } else {
                Err(BridgeError::InvalidSeeds)
            }
        },
        Err(e) => Err(e),
    }
}

/// Holds a claimed namespace authority against the one derived from an
/// arbitrary seed and hands back the bump discriminant.
pub fn validate_authority_and_get_bump_seed(
    program_id: &Address,
    seed: &[u8],
    authority_account: &Address,
) -> (r: Result<u8, BridgeError>)
    ensures
        r == validate_authority_check(program_id@, seed@, authority_account@),
{
    match try_find_authority(seed, program_id) {
        Some(p) => {
            if bytes_eq(p.0.as_slice(), authority_account.as_slice()) {
                Ok(p.1)
            } else {
                Err(BridgeError::InvalidSeeds)
            }
        },
        None => Err(BridgeError::InvalidSeeds),
    }
}

/// Holds a claimed bridge authority against the one derived from the
/// bridge record's address.
pub fn validate_bridge_authority_and_get_bump_seed(
    program_id: &Address,
    bridge_account: &Address,
    authority_account: &Address,
) -> (r: Result<u8, BridgeError>)
    ensures
        r == validate_authority_check(program_id@, bridge_account@, authority_account@),
{
    validate_authority_and_get_bump_seed(program_id, bridge_account.as_slice(), authority_account)
}

/// Holds a claimed user authority against the one derived from the user's
/// own 32-byte address.
pub fn validate_user_address_authority_and_get_bump_seed(
    program_id: &Address,
    user_address: Address,
    authority_account: &Address,
) -> (r: Result<u8, BridgeError>)
    ensures
        r == validate_authority_check(program_id@, user_address@, authority_account@),
{
    validate_authority_and_get_bump_seed(program_id, user_address.as_slice(), authority_account)
}

/// Builds the chain-record seed and holds the claimed address against it.
pub fn check_and_get_blockchain_account_seed(
    program_id: &Address,
    blockchain_id: BlockchainId,
    bridge_authority: &Address,
    blockchain_account: &Address,
) -> (r: Result<Vec<u8>, BridgeError>)
    ensures
        match r {
            Ok(v) => blockchain_account_check(
                program_id@,
                blockchain_id,
                bridge_authority@,
                blockchain_account@,
            ) == Ok::<Seq<u8>, BridgeError>(v@),
            Err(e) => blockchain_account_check(
                program_id@,
                blockchain_id,
                bridge_authority@,
                blockchain_account@,
            ) == Err::<Seq<u8>, BridgeError>(e),
        },
{
    let mut chain = match chain_id_to_str(&blockchain_id) {
        Ok(c) => c,
        Err(e) => {
            return Err(e);
        },
    };
    let mut seed = slice_to_vec("blockchain_".as_bytes());
    seed.append(&mut chain);
    proof {
        assert(seed@ == blockchain_seed(chain_text(blockchain_id)));
        encode_utf8_valid_utf8("blockchain_"@);
        lemma_trim_preserves_valid_utf8(blockchain_id@);
        valid_utf8_concat(encode_utf8("blockchain_"@), chain_text(blockchain_id));
    }
    check_and_get_account_seed(program_id, seed, bridge_authority, blockchain_account)
}

/// Builds the validator-record seed for one index and holds the claimed
/// address against it.
pub fn check_and_get_validator_account_seed(
    program_id: &Address,
    blockchain_id: BlockchainId,
    index: u64,
    bridge_authority: &Address,
    validator_account: &Address,
) -> (r: Result<Vec<u8>, BridgeError>)
    ensures
        match r {
            Ok(v) => validator_account_check(
                program_id@,
                blockchain_id,
                index,
                bridge_authority@,
                validator_account@,
            ) == Ok::<Seq<u8>, BridgeError>(v@),
            Err(e) => validator_account_check(
                program_id@,
                blockchain_id,
                index,
                bridge_authority@,
                validator_account@,
            ) == Err::<Seq<u8>, BridgeError>(e),
        },
{
    let mut chain = match chain_id_to_str(&blockchain_id) {
        Ok(c) => c,
        Err(e) => {
            return Err(e);
        },
    };
    let mut seed = slice_to_vec("validator_".as_bytes());
    seed.append(&mut chain);
    seed.push(SEPARATOR);
    let mut digits = dec_u64(index);
    seed.append(&mut digits);
    proof {
        let pfx = encode_utf8("validator_"@);
        let chn = chain_text(blockchain_id);
        let tail = seq![SEPARATOR] + spec_dec(index as nat);
        assert(seed@ =~= validator_seed(chn, index));
        encode_utf8_valid_utf8("validator_"@);
        lemma_trim_preserves_valid_utf8(blockchain_id@);
        lemma_sep_dec_valid(index as nat);
        valid_utf8_concat(pfx, chn);
        valid_utf8_concat(pfx + chn, tail);
        assert((pfx + chn) + tail =~= seed@);
    }
    check_and_get_account_seed(program_id, seed, bridge_authority, validator_account)
}

/// Builds the lock-record seed for one transfer identity and holds the
/// claimed address against it.
pub fn check_and_get_lock_account_seed(
    program_id: &Address,
    source: BlockchainId,
    tx_id: &TxId,
    revert: bool,
    bridge_authority: &Address,
    lock_account: &Address,
) -> (r: Result<Vec<u8>, BridgeError>)
    ensures
        match r {
            Ok(v) => lock_account_check(
                program_id@,
                source,
                *tx_id,
                revert,
                bridge_authority@,
                lock_account@,
            ) == Ok::<Seq<u8>, BridgeError>(v@),
            Err(e) => lock_account_check(
                program_id@,
                source,
                *tx_id,
                revert,
                bridge_authority@,
                lock_account@,
            ) == Err::<Seq<u8>, BridgeError>(e),
        },
{
    let mut chain = match chain_id_to_str(&source) {
        Ok(c) => c,
        Err(e) => {
            return Err(e);
        },
    };
    let mut seed = if revert {
        slice_to_vec("revert_".as_bytes())
    } else {
        slice_to_vec("lock_".as_bytes())
    };
    seed.append(&mut chain);
    seed.push(SEPARATOR);
    let mut hx = hex_bytes(slice_subrange(tx_id.as_slice(), 0, 10));
    seed.append(&mut hx);
    proof {
        let pfx = if revert {
            encode_utf8("revert_"@)
        } else {
            encode_utf8("lock_"@)
        };
        let chn = chain_text(source);
        let tail = seq![SEPARATOR] + spec_hex(tx_id@.take(10));
        assert(tx_id@.subrange(0, 10) =~= tx_id@.take(10));
        assert(seed@ =~= lock_seed(chn, tx_id@, revert));
        encode_utf8_valid_utf8("revert_"@);
        encode_utf8_valid_utf8("lock_"@);
        lemma_trim_preserves_valid_utf8(source@);
        lemma_sep_hex_valid(tx_id@.take(10));
        valid_utf8_concat(pfx, chn);
        valid_utf8_concat(pfx + chn, tail);
        assert((pfx + chn) + tail =~= seed@);
    }
    check_and_get_account_seed(program_id, seed, bridge_authority, lock_account)
}

/// Builds the signature-record seed for one validator slot and holds the
/// claimed address against it.
pub fn check_and_get_signature_account_seed(
    program_id: &Address,
    source: BlockchainId,
    lock_id: u64,
    validator_id: u64,
    revert: bool,
    bridge_authority: &Address,
    signature_account: &Address,
) -> (r: Result<Vec<u8>, BridgeError>)
    ensures
        match r {
            Ok(v) => signature_account_check(
                program_id@,
                source,
                lock_id,
                validator_id,
                revert,
                bridge_authority@,
                signature_account@,
            ) == Ok::<Seq<u8>, BridgeError>(v@),
            Err(e) => signature_account_check(
                program_id@,
                source,
                lock_id,
                validator_id,
                revert,
                bridge_authority@,
                signature_account@,
            ) == Err::<Seq<u8>, BridgeError>(e),
        },
{
    let mut chain = match chain_id_to_str(&source) {
        Ok(c) => c,
        Err(e) => {
            return Err(e);
        },
    };
    let mut seed = slice_to_vec("signature_".as_bytes());
    let mut kind = if revert {
        slice_to_vec("revert".as_bytes())
    } else {
        slice_to_vec("lock".as_bytes())
    };
    seed.append(&mut kind);
    seed.push(SEPARATOR);
    seed.append(&mut chain);
    seed.push(SEPARATOR);
    let mut d1 = dec_u64(lock_id);
    seed.append(&mut d1);
    seed.push(SEPARATOR);
    let mut d2 = dec_u64(validator_id);
    seed.append(&mut d2);
    proof {
        let p1 = encode_utf8("signature_"@);
        let p2 = if revert {
            encode_utf8("revert"@)
        } else {
            encode_utf8("lock"@)
        };
        let chn = chain_text(source);
        let t1 = seq![SEPARATOR] + chn;
        let t2 = seq![SEPARATOR] + spec_dec(lock_id as nat);
        let t3 = seq![SEPARATOR] + spec_dec(validator_id as nat);
        assert(seed@ =~= signature_seed(chn, lock_id, validator_id, revert));
        encode_utf8_valid_utf8("signature_"@);
        encode_utf8_valid_utf8("revert"@);
        encode_utf8_valid_utf8("lock"@);
        lemma_trim_preserves_valid_utf8(source@);
        lemma_sep_valid();
        lemma_sep_dec_valid(lock_id as nat);
        lemma_sep_dec_valid(validator_id as nat);
        valid_utf8_concat(seq![SEPARATOR], chn);
        valid_utf8_concat(p1, p2);
        valid_utf8_concat(p1 + p2, t1);
        valid_utf8_concat((p1 + p2) + t1, t2);
        valid_utf8_concat(((p1 + p2) + t1) + t2, t3);
        assert((((p1 + p2) + t1) + t2) + t3 =~= seed@);
    }
    check_and_get_account_seed(program_id, seed, bridge_authority, signature_account)
}

/// Builds the user-record seed and holds the claimed address against it.
pub fn check_and_get_user_account_seed(
    program_id: &Address,
    blockchain_id: BlockchainId,
    user_authority: &Address,
    user_account: &Address,
) -> (r: Result<Vec<u8>, BridgeError>)
    ensures
        match r {
            Ok(v) => user_account_check(
                program_id@,
                blockchain_id,
                user_authority@,
                user_account@,
            ) == Ok::<Seq<u8>, BridgeError>(v@),
            Err(e) => user_account_check(
                program_id@,
                blockchain_id,
                user_authority@,
                user_account@,
            ) == Err::<Seq<u8>, BridgeError>(e),
        },
{
    let mut chain = match chain_id_to_str(&blockchain_id) {
        Ok(c) => c,
        Err(e) => {
            return Err(e);
        },
    };
    let mut seed = slice_to_vec("user_".as_bytes());
    seed.append(&mut chain);
    proof {
        assert(seed@ == user_seed(chain_text(blockchain_id)));
        encode_utf8_valid_utf8("user_"@);
        lemma_trim_preserves_valid_utf8(blockchain_id@);
        valid_utf8_concat(encode_utf8("user_"@), chain_text(blockchain_id));
    }
    check_and_get_account_seed(program_id, seed, user_authority, user_account)
}

/// Builds a transfer-leg seed of the given kind for one counter slot and
/// holds the claimed address against it.
pub fn check_and_get_lock_tx_account_seed(
    program_id: &Address,
    blockchain_id: BlockchainId,
    index: u64,
    tx_type: &str,
    user_authority: &Address,
    sent_lock_account: &Address,
) -> (r: Result<Vec<u8>, BridgeError>)
    ensures
        match r {
            Ok(v) => lock_tx_account_check(
                program_id@,
                blockchain_id,
                index,
                tx_type.spec_bytes(),
                user_authority@,
                sent_lock_account@,
            ) == Ok::<Seq<u8>, BridgeError>(v@),
            Err(e) => lock_tx_account_check(
                program_id@,
                blockchain_id,
                index,
                tx_type.spec_bytes(),
                user_authority@,
                sent_lock_account@,
            ) == Err::<Seq<u8>, BridgeError>(e),
        },
{
    let mut chain = match chain_id_to_str(&blockchain_id) {
        Ok(c) => c,
        Err(e) => {
            return Err(e);
        },
    };
    let mut seed = slice_to_vec(tx_type.as_bytes());
    seed.push(SEPARATOR);
    seed.append(&mut chain);
    seed.push(SEPARATOR);
    let mut digits = dec_u64(index);
    seed.append(&mut digits);
    proof {
        let p1 = tx_type.spec_bytes();
        let chn = chain_text(blockchain_id);
        let t1 = seq![SEPARATOR] + chn;
        let t2 = seq![SEPARATOR] + spec_dec(index as nat);
        assert(seed@ =~= lock_tx_seed(p1, chn, index));
        encode_utf8_valid_utf8(tx_type@);
        lemma_trim_preserves_valid_utf8(blockchain_id@);
        lemma_sep_valid();
        lemma_sep_dec_valid(index as nat);
        valid_utf8_concat(seq![SEPARATOR], chn);
        valid_utf8_concat(p1, t1);
        valid_utf8_concat(p1 + t1, t2);
        assert((p1 + t1) + t2 =~= seed@);
    }
    check_and_get_account_seed(program_id, seed, user_authority, sent_lock_account)
}

/// Builds the sent-leg seed for one counter slot and holds the claimed
/// address against it.
pub fn check_and_get_sent_lock_account_seed(
    program_id: &Address,
    blockchain_id: BlockchainId,
    user_authority: &Address,
    index: u64,
    sent_lock_account: &Address,
) -> (r: Result<Vec<u8>, BridgeError>)
    ensures
        match r {
            Ok(v) => lock_tx_account_check(
                program_id@,
                blockchain_id,
                index,
                encode_utf8("sent"@),
                user_authority@,
                sent_lock_account@,
            ) == Ok::<Seq<u8>, BridgeError>(v@),
            Err(e) => lock_tx_account_check(
                program_id@,
                blockchain_id,
                index,
                encode_utf8("sent"@),
                user_authority@,
                sent_lock_account@,
            ) == Err::<Seq<u8>, BridgeError>(e),
        },
{
    check_and_get_lock_tx_account_seed(
        program_id,
        blockchain_id,
        index,
        "sent",
        user_authority,
        sent_lock_account,
    )
}

/// Builds the received-leg seed for one counter slot and holds the claimed
/// address against it.
pub fn check_and_get_received_lock_account_seed(
    program_id: &Address,
    blockchain_id: BlockchainId,
    user_authority: &Address,
    index: u64,
    received_lock_account: &Address,
) -> (r: Result<Vec<u8>, BridgeError>)
    ensures
        match r {
            Ok(v) => lock_tx_account_check(
                program_id@,
                blockchain_id,
                index,
                encode_utf8("received"@),
                user_authority@,
                received_lock_account@,
            ) == Ok::<Seq<u8>, BridgeError>(v@),
            Err(e) => lock_tx_account_check(
                program_id@,
                blockchain_id,
                index,
                encode_utf8("received"@),
                user_authority@,
                received_lock_account@,
            ) == Err::<Seq<u8>, BridgeError>(e),
        },
{
    check_and_get_lock_tx_account_seed(
        program_id,
        blockchain_id,
        index,
        "received",
        user_authority,
        received_lock_account,
    )
}

/// Allocates a record at a fresh derived address. The host performs the
/// funded allocation itself; here allocation fails exactly on an address
/// that is already occupied.
pub fn create_account_with_seed(
    store: &mut AccountStore,
    new_account: &Address,
    record: Record,
) -> (r: Result<(), BridgeError>)
    requires
        old(store).wf(),
    ensures
        final(store).wf(),
        r is Ok <==> !old(store)@.contains_key(new_account@),
        r is Ok ==> final(store)@ == old(store)@.insert(new_account@, record),
        r is Err ==> final(store)@ == old(store)@ && r == Err::<(), BridgeError>(
            BridgeError::AlreadyInitialized,
        ),
{
    store.insert_new(new_account, record)
}

} // verus!
