//! Record types of the bridge ledger.
//!
//! Each record is pure data with a fixed byte layout. A record whose
//! `version` field differs from [`crate::PROGRAM_VERSION`] is treated as
//! semantically absent, whatever else its bytes hold.

use vstd::prelude::*;
use vstd::bytes::*;
use vstd::slice::slice_subrange;
use vstd::array::array_fill_for_copy_types;

use crate::error::BridgeError;
use crate::PROGRAM_VERSION;

verus! {

/// Byte encoding of a flag field.
pub open spec fn spec_bool_byte(b: bool) -> u8 {
    if b {
        1u8
    } else {
        0u8
    }
}

/// Copies a fixed-size field out of a byte buffer.
pub(crate) fn read_array<const N: usize>(bytes: &[u8], off: usize) -> (r: [u8; N])
    requires
        off + N <= bytes@.len(),
    ensures
        r@ == bytes@.subrange(off as int, off as int + N as int),
{
    let n = bytes.len();
    let mut a: [u8; N] = array_fill_for_copy_types(0u8);
    let mut j: usize = 0;
    while j < N
        invariant
            0 <= j <= N,
            off + N <= n,
            n == bytes@.len(),
            a@.len() == N,
            forall|k: int| 0 <= k < j ==> a@[k] == bytes@[off + k],
        decreases N - j,
    {
        a[j] = bytes[off + j];
        j = j + 1;
    }
    proof {
        assert(a@ =~= bytes@.subrange(off as int, off as int + N as int));
    }
    a
}

/// Reads a little-endian counter field out of a byte buffer.
pub(crate) fn read_u64(bytes: &[u8], off: usize) -> (x: u64)
    requires
        off + 8 <= bytes@.len(),
    ensures
        x == spec_u64_from_le_bytes(bytes@.subrange(off as int, off as int + 8)),
{
    let n = bytes.len();
    assert(off + 8 <= n);
    let s = slice_subrange(bytes, off, off + 8);
    u64_from_le_bytes(s)
}

/// Appends a little-endian counter field to a buffer under construction.
fn push_u64(v: &mut Vec<u8>, x: u64)
    ensures
        final(v)@ == old(v)@ + spec_u64_to_le_bytes(x),
{
    let mut t = u64_to_le_bytes(x);
    v.append(&mut t);
}

/// Cross-chain transaction identifier.
pub type TxId = [u8; 64];

/// Token, user or contract address.
pub type Address = [u8; 32];

/// Chain identifier: left-justified, zero-padded UTF-8 text.
pub type BlockchainId = [u8; 4];

/// Root record of one bridge deployment.
#[derive(Clone, Copy, Debug)]
pub struct Bridge {
    /// Data version
    pub version: u8,
    /// Bridge owner, co-signs privileged calls.
    pub owner: Address,
}

impl Bridge {
    /// Serialized size in bytes.
    pub const LEN: usize = 33;

    /// True when the record holds live data of the current format.
    pub open spec fn is_initialized(&self) -> bool {
        self.version == PROGRAM_VERSION
    }

    /// Creates a fresh bridge record.
    pub fn new(owner: Address) -> (b: Bridge)
        ensures
            b == (Bridge { version: PROGRAM_VERSION, owner }),
    {
        Bridge { version: PROGRAM_VERSION, owner }
    }

    /// Rejects a record whose liveness differs from the expectation.
    pub fn check_initialized(&self, expect_initialized: bool) -> (r: Result<(), BridgeError>)
        ensures
            r is Ok <==> self.is_initialized() == expect_initialized,
            r is Err ==> r == Err::<(), BridgeError>(
                if expect_initialized {
                    BridgeError::Uninitialized
                } else {
                    BridgeError::AlreadyInitialized
                },
            ),
    {
        if expect_initialized && self.version != PROGRAM_VERSION {
            Err(BridgeError::Uninitialized)
        } else if !expect_initialized && self.version == PROGRAM_VERSION {
            Err(BridgeError::AlreadyInitialized)
        } else {
            Ok(())
        }
    }
}

/// Byte layout of a bridge record.
pub open spec fn spec_ser_bridge(b: Bridge) -> Seq<u8> {
    seq![b.version] + b.owner@
}

impl Bridge {
    /// Serializes into the fixed byte layout.
    pub fn to_bytes(&self) -> (v: Vec<u8>)
        ensures
            v@ == spec_ser_bridge(*self),
            v@.len() == Bridge::LEN,
    {
        let mut v: Vec<u8> = Vec::new();
        v.push(self.version);
        v.extend_from_slice(self.owner.as_slice());
        proof {
            assert(v@ =~= spec_ser_bridge(*self));
        }
        v
    }

    /// Parses the fixed byte layout; accepts exactly the well-sized buffers.
    pub fn from_bytes(bytes: &[u8]) -> (r: Result<Bridge, BridgeError>)
        ensures
            r is Ok <==> bytes@.len() == Bridge::LEN,
            r matches Ok(rec) ==> spec_ser_bridge(rec) == bytes@,
            r is Err ==> r == Err::<Bridge, BridgeError>(BridgeError::InvalidAccountData),
    {
        if bytes.len() != Bridge::LEN {
            return Err(BridgeError::InvalidAccountData);
        }
        let rec = Bridge { version: bytes[0], owner: read_array(bytes, 1) };
        proof {
            assert(spec_ser_bridge(rec) =~= bytes@);
        }
        Ok(rec)
    }
}

/// A registered source or destination chain.
#[derive(Clone, Copy, Debug)]
pub struct Blockchain {
    /// Data version
    pub version: u8,
    /// Owning bridge record's address.
    pub bridge: Address,
    /// Chain identifier.
    pub blockchain_id: BlockchainId,
    /// Number of registered validators; also the next validator index.
    pub validators: u64,
    /// Number of created locks; also the next lock index.
    pub locks: u64,
    /// Bridge contract address on the chain itself.
    pub contract_address: Address,
}

impl Blockchain {
    /// Serialized size in bytes.
    pub const LEN: usize = 85;

    /// True when the record holds live data of the current format.
    pub open spec fn is_initialized(&self) -> bool {
        self.version == PROGRAM_VERSION
    }

    /// Creates a fresh chain record with both counters at zero.
    pub fn new(bridge: Address, blockchain_id: BlockchainId, contract_address: Address) -> (b:
        Blockchain)
        ensures
            b == (Blockchain {
                version: PROGRAM_VERSION,
                bridge,
                blockchain_id,
                validators: 0u64,
                locks: 0u64,
                contract_address,
            }),
    {
        Blockchain {
            version: PROGRAM_VERSION,
            bridge,
            blockchain_id,
            validators: 0,
            locks: 0,
            contract_address,
        }
    }

    /// Rejects a record whose liveness differs from the expectation.
    pub fn check_initialized(&self, expect_initialized: bool) -> (r: Result<(), BridgeError>)
        ensures
            r is Ok <==> self.is_initialized() == expect_initialized,
            r is Err ==> r == Err::<(), BridgeError>(
                if expect_initialized {
                    BridgeError::Uninitialized
                } else {
                    BridgeError::AlreadyInitialized
                },
            ),
    {
        if expect_initialized && self.version != PROGRAM_VERSION {
            Err(BridgeError::Uninitialized)
        } else if !expect_initialized && self.version == PROGRAM_VERSION {
            Err(BridgeError::AlreadyInitialized)
        } else {
            Ok(())
        }
    }
}

/// Byte layout of a chain record.
pub open spec fn spec_ser_blockchain(b: Blockchain) -> Seq<u8> {
    seq![b.version] + b.bridge@ + b.blockchain_id@ + spec_u64_to_le_bytes(b.validators)
        + spec_u64_to_le_bytes(b.locks) + b.contract_address@
}

impl Blockchain {
    /// Serializes into the fixed byte layout.
    pub fn to_bytes(&self) -> (v: Vec<u8>)
        ensures
            v@ == spec_ser_blockchain(*self),
            v@.len() == Blockchain::LEN,
    {
        let mut v: Vec<u8> = Vec::new();
        v.push(self.version);
        v.extend_from_slice(self.bridge.as_slice());
        v.extend_from_slice(self.blockchain_id.as_slice());
        push_u64(&mut v, self.validators);
        push_u64(&mut v, self.locks);
        v.extend_from_slice(self.contract_address.as_slice());
        proof {
            lemma_auto_spec_u64_to_from_le_bytes();
            assert(v@ =~= spec_ser_blockchain(*self));
        }
        v
    }

    /// Parses the fixed byte layout; accepts exactly the well-sized buffers.
    pub fn from_bytes(bytes: &[u8]) -> (r: Result<Blockchain, BridgeError>)
        ensures
            r is Ok <==> bytes@.len() == Blockchain::LEN,
            r matches Ok(rec) ==> spec_ser_blockchain(rec) == bytes@,
            r is Err ==> r == Err::<Blockchain, BridgeError>(BridgeError::InvalidAccountData),
    {
        if bytes.len() != Blockchain::LEN {
            return Err(BridgeError::InvalidAccountData);
        }
        let rec = Blockchain {
            version: bytes[0],
            bridge: read_array(bytes, 1),
            blockchain_id: read_array(bytes, 33),
            validators: read_u64(bytes, 37),
            locks: read_u64(bytes, 45),
            contract_address: read_array(bytes, 53),
        };
        proof {
            lemma_auto_spec_u64_to_from_le_bytes();
            assert(spec_u64_to_le_bytes(rec.validators) == bytes@.subrange(37, 45));
            assert(spec_u64_to_le_bytes(rec.locks) == bytes@.subrange(45, 53));
            assert(spec_ser_blockchain(rec) =~= bytes@);
        }
        Ok(rec)
    }
}

/// An oracle authorized to attest for one chain.
#[derive(Clone, Copy, Debug)]
pub struct Validator {
    /// Data version
    pub version: u8,
    /// Chain the validator attests for.
    pub blockchain_id: BlockchainId,
    /// Registration index on that chain.
    pub index: u64,
    /// Validator public key on the attested chain.
    pub pub_key: [u8; 32],
    /// Authority that registered, and may submit for, this validator.
    pub owner: Address,
}

impl Validator {
    /// Serialized size in bytes.
    pub const LEN: usize = 77;

    /// True when the record holds live data of the current format.
    pub open spec fn is_initialized(&self) -> bool {
        self.version == PROGRAM_VERSION
    }

    /// Creates a fresh validator record.
    pub fn new(blockchain_id: BlockchainId, index: u64, pub_key: [u8; 32], owner: Address) -> (v:
        Validator)
        ensures
            v == (Validator { version: PROGRAM_VERSION, blockchain_id, index, pub_key, owner }),
    {
        Validator { version: PROGRAM_VERSION, blockchain_id, index, pub_key, owner }
    }

    /// Rejects a record whose liveness differs from the expectation.
    pub fn check_initialized(&self, expect_initialized: bool) -> (r: Result<(), BridgeError>)
        ensures
            r is Ok <==> self.is_initialized() == expect_initialized,
            r is Err ==> r == Err::<(), BridgeError>(
                if expect_initialized {
                    BridgeError::Uninitialized
                } else {
                    BridgeError::AlreadyInitialized
                },
            ),
    {
        if expect_initialized && self.version != PROGRAM_VERSION {
            Err(BridgeError::Uninitialized)
        } else if !expect_initialized && self.version == PROGRAM_VERSION {
            Err(BridgeError::AlreadyInitialized)
        } else {
            Ok(())
        }
    }
}

/// Byte layout of a validator record.
pub open spec fn spec_ser_validator(v: Validator) -> Seq<u8> {
    seq![v.version] + v.blockchain_id@ + spec_u64_to_le_bytes(v.index) + v.pub_key@ + v.owner@
}

impl Validator {
    /// Serializes into the fixed byte layout.
    pub fn to_bytes(&self) -> (v: Vec<u8>)
        ensures
            v@ == spec_ser_validator(*self),
            v@.len() == Validator::LEN,
    {
        let mut v: Vec<u8> = Vec::new();
        v.push(self.version);
        v.extend_from_slice(self.blockchain_id.as_slice());
        push_u64(&mut v, self.index);
        v.extend_from_slice(self.pub_key.as_slice());
        v.extend_from_slice(self.owner.as_slice());
        proof {
            lemma_auto_spec_u64_to_from_le_bytes();
            assert(v@ =~= spec_ser_validator(*self));
        }
        v
    }

    /// Parses the fixed byte layout; accepts exactly the well-sized buffers.
    pub fn from_bytes(bytes: &[u8]) -> (r: Result<Validator, BridgeError>)
        ensures
            r is Ok <==> bytes@.len() == Validator::LEN,
            r matches Ok(rec) ==> spec_ser_validator(rec) == bytes@,
            r is Err ==> r == Err::<Validator, BridgeError>(BridgeError::InvalidAccountData),
    {
        if bytes.len() != Validator::LEN {
            return Err(BridgeError::InvalidAccountData);
        }
        let rec = Validator {
            version: bytes[0],
            blockchain_id: read_array(bytes, 1),
            index: read_u64(bytes, 5),
            pub_key: read_array(bytes, 13),
            owner: read_array(bytes, 45),
        };
        proof {
            lemma_auto_spec_u64_to_from_le_bytes();
            assert(spec_u64_to_le_bytes(rec.index) == bytes@.subrange(5, 13));
            assert(spec_ser_validator(rec) =~= bytes@);
        }
        Ok(rec)
    }
}

/// One cross-chain transfer intent, keyed by source chain and tx id.
#[derive(Clone, Copy, Debug)]
pub struct Lock {
    /// Data version
    pub version: u8,
    /// Lock index within the source chain's counter.
    pub index: u64,
    /// Caller-assigned lock id.
    pub lock_id: u64,
    /// Transaction id on the source chain.
    pub tx_id: TxId,
    /// Owning bridge record's address.
    pub bridge: Address,
    /// Token address on the token's home chain.
    pub token_source_address: Address,
    /// Token's home chain.
    pub token_source: BlockchainId,
    /// Chain the transfer originates from.
    pub source: BlockchainId,
    /// Sender address on the source chain.
    pub sender: Address,
    /// Recipient address on the destination chain.
    pub recipient: Address,
    /// Chain the transfer is destined for.
    pub destination: BlockchainId,
    /// Amount locked for the transfer.
    pub amount: u64,
    /// Number of validator signatures collected so far.
    pub signatures: u64,
}

impl Lock {
    /// Serialized size in bytes.
    pub const LEN: usize = 237;

    /// True when the record holds live data of the current format.
    pub open spec fn is_initialized(&self) -> bool {
        self.version == PROGRAM_VERSION
    }

    /// Creates a fresh lock record with no signatures yet.
    pub fn new(
        index: u64,
        lock_id: u64,
        tx_id: TxId,
        bridge: Address,
        token_source_address: Address,
        token_source: BlockchainId,
        source: BlockchainId,
        sender: Address,
        recipient: Address,
        destination: BlockchainId,
        amount: u64,
    ) -> (l: Lock)
        ensures
            l == (Lock {
                version: PROGRAM_VERSION,
                index,
                lock_id,
                tx_id,
                bridge,
                token_source_address,
                token_source,
                source,
                sender,
                recipient,
                destination,
                amount,
                signatures: 0u64,
            }),
    {
        Lock {
            version: PROGRAM_VERSION,
            index,
            lock_id,
            tx_id,
            bridge,
            token_source_address,
            token_source,
            source,
            sender,
            recipient,
            destination,
            amount,
            signatures: 0,
        }
    }

    /// Rejects a record whose liveness differs from the expectation.
    pub fn check_initialized(&self, expect_initialized: bool) -> (r: Result<(), BridgeError>)
        ensures
            r is Ok <==> self.is_initialized() == expect_initialized,
            r is Err ==> r == Err::<(), BridgeError>(
                if expect_initialized {
                    BridgeError::Uninitialized
                } else {
                    BridgeError::AlreadyInitialized
                },
            ),
    {
        if expect_initialized && self.version != PROGRAM_VERSION {
            Err(BridgeError::Uninitialized)
        } else if !expect_initialized && self.version == PROGRAM_VERSION {
            Err(BridgeError::AlreadyInitialized)
        } else {
            Ok(())
        }
    }
}

/// Byte layout of a lock record.
pub open spec fn spec_ser_lock(l: Lock) -> Seq<u8> {
    seq![l.version] + spec_u64_to_le_bytes(l.index) + spec_u64_to_le_bytes(l.lock_id) + l.tx_id@
        + l.bridge@ + l.token_source_address@ + l.token_source@ + l.source@ + l.sender@
        + l.recipient@ + l.destination@ + spec_u64_to_le_bytes(l.amount) + spec_u64_to_le_bytes(
        l.signatures,
    )
}

impl Lock {
    /// Serializes into the fixed byte layout.
    pub fn to_bytes(&self) -> (v: Vec<u8>)
        ensures
            v@ == spec_ser_lock(*self),
            v@.len() == Lock::LEN,
    {
        let mut v: Vec<u8> = Vec::new();
        v.push(self.version);
        push_u64(&mut v, self.index);
        push_u64(&mut v, self.lock_id);
        v.extend_from_slice(self.tx_id.as_slice());
        v.extend_from_slice(self.bridge.as_slice());
        v.extend_from_slice(self.token_source_address.as_slice());
        v.extend_from_slice(self.token_source.as_slice());
        v.extend_from_slice(self.source.as_slice());
        v.extend_from_slice(self.sender.as_slice());
        v.extend_from_slice(self.recipient.as_slice());
        v.extend_from_slice(self.destination.as_slice());
        push_u64(&mut v, self.amount);
        push_u64(&mut v, self.signatures);
        proof {
            lemma_auto_spec_u64_to_from_le_bytes();
            assert(v@ =~= spec_ser_lock(*self));
        }
        v
    }

    /// Parses the fixed byte layout; accepts exactly the well-sized buffers.
    pub fn from_bytes(bytes: &[u8]) -> (r: Result<Lock, BridgeError>)
        ensures
            r is Ok <==> bytes@.len() == Lock::LEN,
            r matches Ok(rec) ==> spec_ser_lock(rec) == bytes@,
            r is Err ==> r == Err::<Lock, BridgeError>(BridgeError::InvalidAccountData),
    {
        if bytes.len() != Lock::LEN {
            return Err(BridgeError::InvalidAccountData);
        }
        let rec = Lock {
            version: bytes[0],
            index: read_u64(bytes, 1),
            lock_id: read_u64(bytes, 9),
            tx_id: read_array(bytes, 17),
            bridge: read_array(bytes, 81),
            token_source_address: read_array(bytes, 113),
            token_source: read_array(bytes, 145),
            source: read_array(bytes, 149),
            sender: read_array(bytes, 153),
            recipient: read_array(bytes, 185),
            destination: read_array(bytes, 217),
            amount: read_u64(bytes, 221),
            signatures: read_u64(bytes, 229),
        };
        proof {
            lemma_auto_spec_u64_to_from_le_bytes();
            assert(spec_u64_to_le_bytes(rec.index) == bytes@.subrange(1, 9));
            assert(spec_u64_to_le_bytes(rec.lock_id) == bytes@.subrange(9, 17));
            assert(spec_u64_to_le_bytes(rec.amount) == bytes@.subrange(221, 229));
            assert(spec_u64_to_le_bytes(rec.signatures) == bytes@.subrange(229, 237));
            assert(spec_ser_lock(rec) =~= bytes@);
        }
        Ok(rec)
    }
}

/// One validator's attestation bound to a specific lock.
#[derive(Clone, Copy, Debug)]
pub struct Signature {
    /// Data version
    pub version: u8,
    /// Chain the attested lock originates from.
    pub source: BlockchainId,
    /// Attested lock's id.
    pub lock_id: u64,
    /// Owning bridge record's address.
    pub bridge: Address,
    /// Raw oracle signature bytes.
    pub signature: [u8; 65],
    /// Address of the validator record that signed.
    pub validator: Address,
    /// Index of that validator on the source chain.
    pub validator_index: u64,
}

impl Signature {
    /// Serialized size in bytes.
    pub const LEN: usize = 150;

    /// True when the record holds live data of the current format.
    pub open spec fn is_initialized(&self) -> bool {
        self.version == PROGRAM_VERSION
    }

    /// Creates a fresh signature record.
    pub fn new(
        source: BlockchainId,
        lock_id: u64,
        bridge: Address,
        signature: [u8; 65],
        validator: Address,
        validator_index: u64,
    ) -> (s: Signature)
        ensures
            s == (Signature {
                version: PROGRAM_VERSION,
                source,
                lock_id,
                bridge,
                signature,
                validator,
                validator_index,
            }),
    {
        Signature {
            version: PROGRAM_VERSION,
            source,
            lock_id,
            bridge,
            signature,
            validator,
            validator_index,
        }
    }

    /// Rejects a record whose liveness differs from the expectation.
    pub fn check_initialized(&self, expect_initialized: bool) -> (r: Result<(), BridgeError>)
        ensures
            r is Ok <==> self.is_initialized() == expect_initialized,
            r is Err ==> r == Err::<(), BridgeError>(
                if expect_initialized {
                    BridgeError::Uninitialized
                } else {
                    BridgeError::AlreadyInitialized
                },
            ),
    {
        if expect_initialized && self.version != PROGRAM_VERSION {
            Err(BridgeError::Uninitialized)
        } else if !expect_initialized && self.version == PROGRAM_VERSION {
            Err(BridgeError::AlreadyInitialized)
        } else {
            Ok(())
        }
    }
}

/// Byte layout of a signature record.
pub open spec fn spec_ser_signature(s: Signature) -> Seq<u8> {
    seq![s.version] + s.source@ + spec_u64_to_le_bytes(s.lock_id) + s.bridge@ + s.signature@
        + s.validator@ + spec_u64_to_le_bytes(s.validator_index)
}

impl Signature {
    /// Serializes into the fixed byte layout.
    pub fn to_bytes(&self) -> (v: Vec<u8>)
        ensures
            v@ == spec_ser_signature(*self),
            v@.len() == Signature::LEN,
    {
        let mut v: Vec<u8> = Vec::new();
        v.push(self.version);
        v.extend_from_slice(self.source.as_slice());
        push_u64(&mut v, self.lock_id);
        v.extend_from_slice(self.bridge.as_slice());
        v.extend_from_slice(self.signature.as_slice());
        v.extend_from_slice(self.validator.as_slice());
        push_u64(&mut v, self.validator_index);
        proof {
            lemma_auto_spec_u64_to_from_le_bytes();
            assert(v@ =~= spec_ser_signature(*self));
        }
        v
    }

    /// Parses the fixed byte layout; accepts exactly the well-sized buffers.
    pub fn from_bytes(bytes: &[u8]) -> (r: Result<Signature, BridgeError>)
        ensures
            r is Ok <==> bytes@.len() == Signature::LEN,
            r matches Ok(rec) ==> spec_ser_signature(rec) == bytes@,
            r is Err ==> r == Err::<Signature, BridgeError>(BridgeError::InvalidAccountData),
    {
        if bytes.len() != Signature::LEN {
            return Err(BridgeError::InvalidAccountData);
        }
        let rec = Signature {
            version: bytes[0],
            source: read_array(bytes, 1),
            lock_id: read_u64(bytes, 5),
            bridge: read_array(bytes, 13),
            signature: read_array(bytes, 45),
            validator: read_array(bytes, 110),
            validator_index: read_u64(bytes, 142),
        };
        proof {
            lemma_auto_spec_u64_to_from_le_bytes();
            assert(spec_u64_to_le_bytes(rec.lock_id) == bytes@.subrange(5, 13));
            assert(spec_u64_to_le_bytes(rec.validator_index) == bytes@.subrange(142, 150));
            assert(spec_ser_signature(rec) =~= bytes@);
        }
        Ok(rec)
    }
}

/// Per-chain, per-address transfer counters for one user.
#[derive(Clone, Copy, Debug)]
pub struct User {
    /// Data version
    pub version: u8,
    /// Chain the counters belong to.
    pub blockchain_id: BlockchainId,
    /// User address on that chain.
    pub address: Address,
    /// Number of sent transfer legs; also the next sent-leg index.
    pub sent: u64,
    /// Number of received transfer legs; also the next received-leg index.
    pub received: u64,
}

impl User {
    /// Serialized size in bytes.
    pub const LEN: usize = 53;

    /// True when the record holds live data of the current format.
    pub open spec fn is_initialized(&self) -> bool {
        self.version == PROGRAM_VERSION
    }

    /// Creates a fresh user record with both counters at zero.
    pub fn new(blockchain_id: BlockchainId, address: Address) -> (u: User)
        ensures
            u == (User {
                version: PROGRAM_VERSION,
                blockchain_id,
                address,
                sent: 0u64,
                received: 0u64,
            }),
    {
        User { version: PROGRAM_VERSION, blockchain_id, address, sent: 0, received: 0 }
    }

    /// Rejects a record whose liveness differs from the expectation.
    pub fn check_initialized(&self, expect_initialized: bool) -> (r: Result<(), BridgeError>)
        ensures
            r is Ok <==> self.is_initialized() == expect_initialized,
            r is Err ==> r == Err::<(), BridgeError>(
                if expect_initialized {
                    BridgeError::Uninitialized
                } else {
                    BridgeError::AlreadyInitialized
                },
            ),
    {
        if expect_initialized && self.version != PROGRAM_VERSION {
            Err(BridgeError::Uninitialized)
        } else if !expect_initialized && self.version == PROGRAM_VERSION {
            Err(BridgeError::AlreadyInitialized)
        } else {
            Ok(())
        }
    }
}

/// Byte layout of a user record.
pub open spec fn spec_ser_user(u: User) -> Seq<u8> {
    seq![u.version] + u.blockchain_id@ + u.address@ + spec_u64_to_le_bytes(u.sent)
        + spec_u64_to_le_bytes(u.received)
}

impl User {
    /// Serializes into the fixed byte layout.
    pub fn to_bytes(&self) -> (v: Vec<u8>)
        ensures
            v@ == spec_ser_user(*self),
            v@.len() == User::LEN,
    {
        let mut v: Vec<u8> = Vec::new();
        v.push(self.version);
        v.extend_from_slice(self.blockchain_id.as_slice());
        v.extend_from_slice(self.address.as_slice());
        push_u64(&mut v, self.sent);
        push_u64(&mut v, self.received);
        proof {
            lemma_auto_spec_u64_to_from_le_bytes();
            assert(v@ =~= spec_ser_user(*self));
        }
        v
    }

    /// Parses the fixed byte layout; accepts exactly the well-sized buffers.
    pub fn from_bytes(bytes: &[u8]) -> (r: Result<User, BridgeError>)
        ensures
            r is Ok <==> bytes@.len() == User::LEN,
            r matches Ok(rec) ==> spec_ser_user(rec) == bytes@,
            r is Err ==> r == Err::<User, BridgeError>(BridgeError::InvalidAccountData),
    {
        if bytes.len() != User::LEN {
            return Err(BridgeError::InvalidAccountData);
        }
        let rec = User {
            version: bytes[0],
            blockchain_id: read_array(bytes, 1),
            address: read_array(bytes, 5),
            sent: read_u64(bytes, 37),
            received: read_u64(bytes, 45),
        };
        proof {
            lemma_auto_spec_u64_to_from_le_bytes();
            assert(spec_u64_to_le_bytes(rec.sent) == bytes@.subrange(37, 45));
            assert(spec_u64_to_le_bytes(rec.received) == bytes@.subrange(45, 53));
            assert(spec_ser_user(rec) =~= bytes@);
        }
        Ok(rec)
    }
}

/// A single user-visible transfer leg pointing back at its lock.
#[derive(Clone, Copy, Debug)]
pub struct LockTx {
    /// Data version
    pub version: u8,
    /// Transaction id on the source chain.
    pub tx_id: TxId,
    /// Chain the transfer originates from.
    pub source: BlockchainId,
    /// Referenced lock's id.
    pub lock_id: u64,
    /// Storage address of the referenced lock record.
    pub lock_account: Address,
    /// Whether a reversal flow later marked this leg reverted.
    pub reverted: bool,
}

impl LockTx {
    /// Serialized size in bytes.
    pub const LEN: usize = 110;

    /// True when the record holds live data of the current format.
    pub open spec fn is_initialized(&self) -> bool {
        self.version == PROGRAM_VERSION
    }

    /// Creates a fresh transfer-leg record.
    pub fn new(tx_id: TxId, source: BlockchainId, lock_id: u64, lock_account: Address, reverted:
        bool) -> (t: LockTx)
        ensures
            t == (LockTx { version: PROGRAM_VERSION, tx_id, source, lock_id, lock_account, reverted }),
    {
        LockTx { version: PROGRAM_VERSION, tx_id, source, lock_id, lock_account, reverted }
    }

    /// Rejects a record whose liveness differs from the expectation.
    pub fn check_initialized(&self, expect_initialized: bool) -> (r: Result<(), BridgeError>)
        ensures
            r is Ok <==> self.is_initialized() == expect_initialized,
            r is Err ==> r == Err::<(), BridgeError>(
                if expect_initialized {
                    BridgeError::Uninitialized
                } else {
                    BridgeError::AlreadyInitialized
                },
            ),
    {
        if expect_initialized && self.version != PROGRAM_VERSION {
            Err(BridgeError::Uninitialized)
        } else if !expect_initialized && self.version == PROGRAM_VERSION {
            Err(BridgeError::AlreadyInitialized)
        } else {
            Ok(())
        }
    }
}

/// Byte layout of a transfer-leg record.
pub open spec fn spec_ser_lock_tx(t: LockTx) -> Seq<u8> {
    seq![t.version] + t.tx_id@ + t.source@ + spec_u64_to_le_bytes(t.lock_id) + t.lock_account@
        + seq![spec_bool_byte(t.reverted)]
}

impl LockTx {
    /// Serializes into the fixed byte layout.
    pub fn to_bytes(&self) -> (v: Vec<u8>)
        ensures
            v@ == spec_ser_lock_tx(*self),
            v@.len() == LockTx::LEN,
    {
        let mut v: Vec<u8> = Vec::new();
        v.push(self.version);
        v.extend_from_slice(self.tx_id.as_slice());
        v.extend_from_slice(self.source.as_slice());
        push_u64(&mut v, self.lock_id);
        v.extend_from_slice(self.lock_account.as_slice());
        if self.reverted {
            v.push(1);
        } else {
            v.push(0);
        }
        proof {
            lemma_auto_spec_u64_to_from_le_bytes();
            assert(v@ =~= spec_ser_lock_tx(*self));
        }
        v
    }

    /// Parses the fixed byte layout; accepts exactly the well-sized buffers
    /// whose flag byte is zero or one.
    pub fn from_bytes(bytes: &[u8]) -> (r: Result<LockTx, BridgeError>)
        ensures
            r is Ok <==> bytes@.len() == LockTx::LEN && (bytes@[109] == 0 || bytes@[109] == 1),
            r matches Ok(rec) ==> spec_ser_lock_tx(rec) == bytes@,
            r is Err ==> r == Err::<LockTx, BridgeError>(BridgeError::InvalidAccountData),
    {
        if bytes.len() != LockTx::LEN {
            return Err(BridgeError::InvalidAccountData);
        }
        let flag = bytes[109];
        if flag > 1 {
            return Err(BridgeError::InvalidAccountData);
        }
        let rec = LockTx {
            version: bytes[0],
            tx_id: read_array(bytes, 1),
            source: read_array(bytes, 65),
            lock_id: read_u64(bytes, 69),
            lock_account: read_array(bytes, 77),
            reverted: flag == 1,
        };
        proof {
            lemma_auto_spec_u64_to_from_le_bytes();
            assert(spec_u64_to_le_bytes(rec.lock_id) == bytes@.subrange(69, 77));
            assert(spec_ser_lock_tx(rec) =~= bytes@);
        }
        Ok(rec)
    }
}

/// Any record the ledger can hold at a storage address.
#[derive(Clone, Copy, Debug)]
pub enum Record {
    /// A bridge root record.
    Bridge(Bridge),
    /// A registered chain record.
    Blockchain(Blockchain),
    /// A validator record.
    Validator(Validator),
    /// A lock record.
    Lock(Lock),
    /// A signature record.
    Signature(Signature),
    /// A user-counter record.
    User(User),
    /// A transfer-leg record.
    LockTx(LockTx),
}

} // verus!
