//! Operation payloads and their wire format.
//!
//! An inbound call carries one byte naming the operation followed by the
//! operation's fixed-schema fields. The layout is stable: addresses and
//! record sizes are derived from it, so it is specified byte for byte.

use vstd::prelude::*;
use vstd::bytes::*;

use crate::error::BridgeError;
use crate::state::{read_array, read_u64};
use crate::state::{spec_bool_byte, Address, BlockchainId, TxId};

verus! {

/// The four operations of the bridge ledger protocol.
#[derive(Clone, Copy, Debug)]
pub enum BridgeProgramInstruction {
    /// Initializes a new bridge root record.
    InitializeBridge,
    /// Registers a chain.
    AddBlockchain {
        /// Chain identifier.
        blockchain_id: BlockchainId,
        /// Bridge contract address on the chain itself.
        contract_address: Address,
    },
    /// Registers a validator for a chain.
    AddValidator {
        /// Chain identifier.
        blockchain_id: BlockchainId,
        /// Validator public key on that chain.
        pub_key: [u8; 32],
    },
    /// Submits one validator's attestation on a transfer.
    AddSignature {
        /// Raw oracle signature bytes.
        signature: [u8; 65],
        /// Token's home chain.
        token_source: BlockchainId,
        /// Token address on its home chain.
        token_source_address: Address,
        /// Chain the transfer originates from.
        source: BlockchainId,
        /// Caller-assigned lock id.
        lock_id: u64,
        /// Transaction id on the source chain.
        tx_id: TxId,
        /// Chain the transfer is destined for.
        destination: BlockchainId,
        /// Sender address on the source chain.
        sender: Address,
        /// Recipient address on the destination chain.
        recipient: Address,
        /// Amount locked for the transfer.
        amount: u64,
        /// Whether this attests a reversal rather than a lock.
        revert: bool,
    },
}

/// Byte layout of an operation payload: a one-byte tag in declaration
/// order, then the fields in declaration order.
pub open spec fn spec_ser_instruction(i: BridgeProgramInstruction) -> Seq<u8> {
    match i {
        BridgeProgramInstruction::InitializeBridge => seq![0u8],
        BridgeProgramInstruction::AddBlockchain { blockchain_id, contract_address } => seq![1u8]
            + blockchain_id@ + contract_address@,
        BridgeProgramInstruction::AddValidator { blockchain_id, pub_key } => seq![2u8]
            + blockchain_id@ + pub_key@,
        BridgeProgramInstruction::AddSignature {
            signature,
            token_source,
            token_source_address,
            source,
            lock_id,
            tx_id,
            destination,
            sender,
            recipient,
            amount,
            revert,
        } => seq![3u8] + signature@ + token_source@ + token_source_address@ + source@
            + spec_u64_to_le_bytes(lock_id) + tx_id@ + destination@ + sender@ + recipient@
            + spec_u64_to_le_bytes(amount) + seq![spec_bool_byte(revert)],
    }
}

/// True when some operation payload has exactly these bytes.
pub open spec fn wf_instruction(bytes: Seq<u8>) -> bool {
    exists|i: BridgeProgramInstruction| spec_ser_instruction(i) == bytes
}

impl BridgeProgramInstruction {
    /// Serializes into the wire format.
    pub fn encode(&self) -> (v: Vec<u8>)
        ensures
            v@ == spec_ser_instruction(*self),
    {
        let mut v: Vec<u8> = Vec::new();
        match self {
            BridgeProgramInstruction::InitializeBridge => {
                v.push(0);
            },
            BridgeProgramInstruction::AddBlockchain { blockchain_id, contract_address } => {
                v.push(1);
                v.extend_from_slice(blockchain_id.as_slice());
                v.extend_from_slice(contract_address.as_slice());
            },
            BridgeProgramInstruction::AddValidator { blockchain_id, pub_key } => {
                v.push(2);
                v.extend_from_slice(blockchain_id.as_slice());
                v.extend_from_slice(pub_key.as_slice());
            },
            BridgeProgramInstruction::AddSignature {
                signature,
                token_source,
                token_source_address,
                source,
                lock_id,
                tx_id,
                destination,
                sender,
                recipient,
                amount,
                revert,
            } => {
                v.push(3);
                v.extend_from_slice(signature.as_slice());
                v.extend_from_slice(token_source.as_slice());
                v.extend_from_slice(token_source_address.as_slice());
                v.extend_from_slice(source.as_slice());
                let mut t1 = u64_to_le_bytes(*lock_id);
                v.append(&mut t1);
                v.extend_from_slice(tx_id.as_slice());
                v.extend_from_slice(destination.as_slice());
                v.extend_from_slice(sender.as_slice());
                v.extend_from_slice(recipient.as_slice());
                let mut t2 = u64_to_le_bytes(*amount);
                v.append(&mut t2);
                if *revert {
                    v.push(1);
                } else {
                    v.push(0);
                }
            },
        }
        proof {
            assert(v@ =~= spec_ser_instruction(*self));
        }
        v
    }
}

/// Two distinct operation payloads never share a byte encoding.
pub proof fn lemma_ser_instruction_injective(
    i1: BridgeProgramInstruction,
    i2: BridgeProgramInstruction,
)
    requires
        spec_ser_instruction(i1) == spec_ser_instruction(i2),
    ensures
        i1 == i2,
{
    broadcast use vstd::array::group_array_axioms;

    lemma_auto_spec_u64_to_from_le_bytes();
    let s = spec_ser_instruction(i1);
    match i1 {
        BridgeProgramInstruction::InitializeBridge => {
            assert(s[0] == 0);
            assert(i2 is InitializeBridge);
        },
        BridgeProgramInstruction::AddBlockchain { blockchain_id: b1, contract_address: c1 } => {
            assert(s[0] == 1);
            match i2 {
                BridgeProgramInstruction::AddBlockchain {
                    blockchain_id: b2,
                    contract_address: c2,
                } => {
                    assert(b1 =~= b2) by {
                        assert(forall|k: int| 0 <= k < 4 ==> b1@[k] == s[1 + k] && b2@[k] == s[1 + k]);
                        assert(b1@ =~= b2@);
                    }
                    assert(c1 =~= c2) by {
                        assert(forall|k: int| 0 <= k < 32 ==> c1@[k] == s[5 + k] && c2@[k] == s[5 + k]);
                        assert(c1@ =~= c2@);
                    }
                },
                _ => {
                    assert(false);
                },
            }
        },
        BridgeProgramInstruction::AddValidator { blockchain_id: b1, pub_key: p1 } => {
            assert(s[0] == 2);
            match i2 {
                BridgeProgramInstruction::AddValidator { blockchain_id: b2, pub_key: p2 } => {
                    assert(b1 =~= b2) by {
                        assert(forall|k: int| 0 <= k < 4 ==> b1@[k] == s[1 + k] && b2@[k] == s[1 + k]);
                        assert(b1@ =~= b2@);
                    }
                    assert(p1 =~= p2) by {
                        assert(forall|k: int| 0 <= k < 32 ==> p1@[k] == s[5 + k] && p2@[k] == s[5 + k]);
                        assert(p1@ =~= p2@);
                    }
                },
                _ => {
                    assert(false);
                },
            }
        },
        BridgeProgramInstruction::AddSignature {
            signature: g1,
            token_source: ts1,
            token_source_address: ta1,
            source: so1,
            lock_id: l1,
            tx_id: tx1,
            destination: d1,
            sender: sn1,
            recipient: rc1,
            amount: am1,
            revert: rv1,
        } => {
            assert(s[0] == 3);
            match i2 {
                BridgeProgramInstruction::AddSignature {
                    signature: g2,
                    token_source: ts2,
                    token_source_address: ta2,
                    source: so2,
                    lock_id: l2,
                    tx_id: tx2,
                    destination: d2,
                    sender: sn2,
                    recipient: rc2,
                    amount: am2,
                    revert: rv2,
                } => {
                    assert(g1 =~= g2) by {
                        assert(forall|k: int|
                            0 <= k < 65 ==> g1@[k] == s[1 + k] && g2@[k] == s[1 + k]);
                        assert(g1@ =~= g2@);
                    }
                    assert(ts1 =~= ts2) by {
                        assert(forall|k: int|
                            0 <= k < 4 ==> ts1@[k] == s[66 + k] && ts2@[k] == s[66 + k]);
                        assert(ts1@ =~= ts2@);
                    }
                    assert(ta1 =~= ta2) by {
                        assert(forall|k: int|
                            0 <= k < 32 ==> ta1@[k] == s[70 + k] && ta2@[k] == s[70 + k]);
                        assert(ta1@ =~= ta2@);
                    }
                    assert(so1 =~= so2) by {
                        assert(forall|k: int|
                            0 <= k < 4 ==> so1@[k] == s[102 + k] && so2@[k] == s[102 + k]);
                        assert(so1@ =~= so2@);
                    }
                    assert(spec_u64_to_le_bytes(l1) =~= spec_u64_to_le_bytes(l2)) by {
                        assert(forall|k: int|
                            0 <= k < 8 ==> spec_u64_to_le_bytes(l1)[k] == s[106 + k]
                                && spec_u64_to_le_bytes(l2)[k] == s[106 + k]);
                    }
                    assert(l1 == l2) by {
                        assert(spec_u64_from_le_bytes(spec_u64_to_le_bytes(l1))
                            == spec_u64_from_le_bytes(spec_u64_to_le_bytes(l2)));
                    }
                    assert(tx1 =~= tx2) by {
                        assert(forall|k: int|
                            0 <= k < 64 ==> tx1@[k] == s[114 + k] && tx2@[k] == s[114 + k]);
                        assert(tx1@ =~= tx2@);
                    }
                    assert(d1 =~= d2) by {
                        assert(forall|k: int|
                            0 <= k < 4 ==> d1@[k] == s[178 + k] && d2@[k] == s[178 + k]);
                        assert(d1@ =~= d2@);
                    }
                    assert(sn1 =~= sn2) by {
                        assert(forall|k: int|
                            0 <= k < 32 ==> sn1@[k] == s[182 + k] && sn2@[k] == s[182 + k]);
                        assert(sn1@ =~= sn2@);
                    }
                    assert(rc1 =~= rc2) by {
                        assert(forall|k: int|
                            0 <= k < 32 ==> rc1@[k] == s[214 + k] && rc2@[k] == s[214 + k]);
                        assert(rc1@ =~= rc2@);
                    }
                    assert(spec_u64_to_le_bytes(am1) =~= spec_u64_to_le_bytes(am2)) by {
                        assert(forall|k: int|
                            0 <= k < 8 ==> spec_u64_to_le_bytes(am1)[k] == s[246 + k]
                                && spec_u64_to_le_bytes(am2)[k] == s[246 + k]);
                    }
                    assert(am1 == am2) by {
                        assert(spec_u64_from_le_bytes(spec_u64_to_le_bytes(am1))
                            == spec_u64_from_le_bytes(spec_u64_to_le_bytes(am2)));
                    }
                    assert(spec_bool_byte(rv1) == s[254] && spec_bool_byte(rv2) == s[254]);
                    assert(rv1 == rv2);
                },
                _ => {
                    assert(false);
                },
            }
        },
    }
}

/// Parses an operation payload; accepts exactly the well-formed byte
/// strings and tells the caller nothing else would have parsed.
pub fn parse_instruction(input: &[u8]) -> (r: Result<BridgeProgramInstruction, BridgeError>)
    ensures
        r matches Ok(i) ==> spec_ser_instruction(i) == input@,
        r is Err ==> !wf_instruction(input@) && r == Err::<BridgeProgramInstruction, BridgeError>(
            BridgeError::InvalidInstructionData,
        ),
{
    broadcast use vstd::array::group_array_axioms;

    proof {
        lemma_auto_spec_u64_to_from_le_bytes();
    }
    let n = input.len();
    if n == 0 {
        proof {
            assert forall|i: BridgeProgramInstruction| spec_ser_instruction(i) != input@ by {
                assert(spec_ser_instruction(i).len() >= 1);
            }
        }
        return Err(BridgeError::InvalidInstructionData);
    }
    let tag = input[0];
    proof {
        assert(input@[0] == tag);
    }
    if tag == 0 {
        if n != 1 {
            proof {
                assert forall|i: BridgeProgramInstruction| spec_ser_instruction(i) != input@ by {
                    match i {
                        BridgeProgramInstruction::InitializeBridge => {
                            assert(spec_ser_instruction(i).len() == 1);
                        },
                        _ => {
                            assert(spec_ser_instruction(i)[0] != 0);
                        },
                    }
                }
            }
            return Err(BridgeError::InvalidInstructionData);
        }
        let r = BridgeProgramInstruction::InitializeBridge;
        proof {
            assert(spec_ser_instruction(r) =~= input@);
        }
        Ok(r)
    } else if tag == 1 {
        if n != 37 {
            proof {
                assert forall|i: BridgeProgramInstruction| spec_ser_instruction(i) != input@ by {
                    match i {
                        BridgeProgramInstruction::AddBlockchain { .. } => {
                            assert(spec_ser_instruction(i).len() == 37);
                        },
                        _ => {
                            assert(spec_ser_instruction(i)[0] != 1);
                        },
                    }
                }
            }
            return Err(BridgeError::InvalidInstructionData);
        }
        let r = BridgeProgramInstruction::AddBlockchain {
            blockchain_id: read_array(input, 1),
            contract_address: read_array(input, 5),
        };
        proof {
            assert(spec_ser_instruction(r) =~= input@);
        }
        Ok(r)
    } else if tag == 2 {
        if n != 37 {
            proof {
                assert forall|i: BridgeProgramInstruction| spec_ser_instruction(i) != input@ by {
                    match i {
                        BridgeProgramInstruction::AddValidator { .. } => {
                            assert(spec_ser_instruction(i).len() == 37);
                        },
                        _ => {
                            assert(spec_ser_instruction(i)[0] != 2);
                        },
                    }
                }
            }
            return Err(BridgeError::InvalidInstructionData);
        }
        let r = BridgeProgramInstruction::AddValidator {
            blockchain_id: read_array(input, 1),
            pub_key: read_array(input, 5),
        };
        proof {
            assert(spec_ser_instruction(r) =~= input@);
        }
        Ok(r)
    } else if tag == 3 {
        if n != 255 {
            proof {
                assert forall|i: BridgeProgramInstruction| spec_ser_instruction(i) != input@ by {
                    match i {
                        BridgeProgramInstruction::AddSignature { .. } => {
                            assert(spec_ser_instruction(i).len() == 255);
                        },
                        _ => {
                            assert(spec_ser_instruction(i)[0] != 3);
                        },
                    }
                }
            }
            return Err(BridgeError::InvalidInstructionData);
        }
        let flag = input[254];
        if flag > 1 {
            proof {
                assert forall|i: BridgeProgramInstruction| spec_ser_instruction(i) != input@ by {
                    match i {
                        BridgeProgramInstruction::AddSignature { revert, .. } => {
                            assert(spec_ser_instruction(i)[254] == spec_bool_byte(revert));
                        },
                        _ => {
                            assert(spec_ser_instruction(i)[0] != 3);
                        },
                    }
                }
            }
            return Err(BridgeError::InvalidInstructionData);
        }
        let r = BridgeProgramInstruction::AddSignature {
            signature: read_array(input, 1),
            token_source: read_array(input, 66),
            token_source_address: read_array(input, 70),
            source: read_array(input, 102),
            lock_id: read_u64(input, 106),
            tx_id: read_array(input, 114),
            destination: read_array(input, 178),
            sender: read_array(input, 182),
            recipient: read_array(input, 214),
            amount: read_u64(input, 246),
            revert: flag == 1,
        };
        proof {
            lemma_auto_spec_u64_to_from_le_bytes();
            assert(spec_u64_to_le_bytes(spec_u64_from_le_bytes(input@.subrange(106, 114)))
                == input@.subrange(106, 114));
            assert(spec_u64_to_le_bytes(spec_u64_from_le_bytes(input@.subrange(246, 254)))
                == input@.subrange(246, 254));
            assert(spec_ser_instruction(r) =~= input@);
        }
        Ok(r)
    } else {
        proof {
            assert forall|i: BridgeProgramInstruction| spec_ser_instruction(i) != input@ by {
                assert(spec_ser_instruction(i)[0] == 0 || spec_ser_instruction(i)[0] == 1
                    || spec_ser_instruction(i)[0] == 2 || spec_ser_instruction(i)[0] == 3);
            }
        }
        Err(BridgeError::InvalidInstructionData)
    }
}

} // verus!
