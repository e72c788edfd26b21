//! Session identity: a simple value type naming one execution session — a
//! user transaction, a block-metadata run, a genesis build, or a void
//! session whose output is never committed — and a content hash derived
//! from it for use as a cache or log key elsewhere.

use vstd::prelude::*;
use vstd::bytes::{spec_u64_to_le_bytes, u64_to_le_bytes};

use sha3::Digest;

use crate::types::AccountAddress;

verus! {

/// Identity of one execution session.
#[derive(Clone, PartialEq, Eq, Debug)]
pub enum SessionId {
    Txn { sender: AccountAddress, sequence_number: u64, script_hash: Vec<u8> },
    /// A block-metadata run, named by the block's identifying hash.
    BlockMeta { id: Vec<u8> },
    /// A genesis build, named by an identifier of that build.
    Genesis { id: Vec<u8> },
    /// A run whose output will not be committed.
    Void,
}

/// Mathematical model of a `SessionId`.
pub enum SessionIdV {
    Txn { sender: AccountAddress, sequence_number: u64, script_hash: Seq<u8> },
    BlockMeta { id: Seq<u8> },
    Genesis { id: Seq<u8> },
    Void,
}

impl View for SessionId {
    type V = SessionIdV;

    open spec fn view(&self) -> SessionIdV {
        match self {
            SessionId::Txn { sender, sequence_number, script_hash } => SessionIdV::Txn {
                sender: *sender,
                sequence_number: *sequence_number,
                script_hash: script_hash@,
            },
            SessionId::BlockMeta { id } => SessionIdV::BlockMeta { id: id@ },
            SessionId::Genesis { id } => SessionIdV::Genesis { id: id@ },
            SessionId::Void => SessionIdV::Void,
        }
    }
}

/// The canonical byte encoding a session identity is hashed over: a
/// variant tag byte followed by the variant's fields, integers as eight
/// little-endian bytes.
pub open spec fn session_id_encoding(s: SessionIdV) -> Seq<u8> {
    match s {
        SessionIdV::Txn { sender, sequence_number, script_hash } => seq![0u8]
            + spec_u64_to_le_bytes(sender.id) + spec_u64_to_le_bytes(sequence_number)
            + script_hash,
        SessionIdV::BlockMeta { id } => seq![1u8] + id,
        SessionIdV::Genesis { id } => seq![2u8] + id,
        SessionIdV::Void => seq![3u8],
    }
}

/// What the external hash function returns for a byte string: a function of
/// the bytes alone.
pub uninterp spec fn sha3_256_of(bytes: Seq<u8>) -> Seq<u8>;

/// Relies on sha3::Sha3_256 (through the digest interface): the digest is
/// 32 bytes and depends on the input bytes alone.
#[verifier::external_body]
fn sha3_256(bytes: &Vec<u8>) -> (r: Vec<u8>)
    ensures
        r@ == sha3_256_of(bytes@),
        r@.len() == 32,
{
    sha3::Sha3_256::digest(bytes.as_slice()).to_vec()
}

/// A byte-for-byte copy.
fn clone_bytes(v: &Vec<u8>) -> (r: Vec<u8>)
    ensures
        r@ == v@,
{
    let mut r: Vec<u8> = Vec::new();
    let mut i: usize = 0;
    while i < v.len()
        invariant
            i <= v@.len(),
            r@ == v@.subrange(0, i as int),
        decreases v@.len() - i,
    {
        r.push(v[i]);
        proof {
            assert(r@ =~= v@.subrange(0, i as int + 1));
        }
        i += 1;
    }
    proof {
        assert(v@.subrange(0, v@.len() as int) =~= v@);
    }
    r
}

impl SessionId {
    /// The identity of a user-transaction session.
    pub fn txn_meta(sender: AccountAddress, sequence_number: u64, script_hash: Vec<u8>) -> (r:
        Self)
        ensures
            r@ == (SessionIdV::Txn { sender, sequence_number, script_hash: script_hash@ }),
    {
        SessionId::Txn { sender, sequence_number, script_hash }
    }

    /// The identity of a genesis build.
    pub fn genesis(id: Vec<u8>) -> (r: Self)
        ensures
            r@ == (SessionIdV::Genesis { id: id@ }),
    {
        SessionId::Genesis { id }
    }

    /// The identity of a block-metadata run.
    pub fn block_meta(id: Vec<u8>) -> (r: Self)
        ensures
            r@ == (SessionIdV::BlockMeta { id: id@ }),
    {
        SessionId::BlockMeta { id }
    }

    /// The identity of a run whose output is not committed.
    pub fn void() -> (r: Self)
        ensures
            r@ == SessionIdV::Void,
    {
        SessionId::Void
    }

    /// The sending account, for a user-transaction session.
    pub fn sender(&self) -> (r: Option<AccountAddress>)
        ensures
            r == (match self@ {
                SessionIdV::Txn { sender, .. } => Some(sender),
                _ => None::<AccountAddress>,
            }),
    {
        match self {
            SessionId::Txn { sender, .. } => Some(*sender),
            SessionId::BlockMeta { .. } => None,
            SessionId::Genesis { .. } => None,
            SessionId::Void => None,
        }
    }

    /// The canonical byte encoding of this identity.
    pub fn to_bytes(&self) -> (r: Vec<u8>)
        ensures
            r@ == session_id_encoding(self@),
    {
        let mut out: Vec<u8> = Vec::new();
        match self {
            SessionId::Txn { sender, sequence_number, script_hash } => {
                out.push(0u8);
                let mut sender_bytes = u64_to_le_bytes(sender.id);
                out.append(&mut sender_bytes);
                let mut seq_bytes = u64_to_le_bytes(*sequence_number);
                out.append(&mut seq_bytes);
                let mut hash_bytes = clone_bytes(script_hash);
                out.append(&mut hash_bytes);
                proof {
                    assert(out@ =~= session_id_encoding(self@));
                }
            },
            SessionId::BlockMeta { id } => {
                out.push(1u8);
                let mut id_bytes = clone_bytes(id);
                out.append(&mut id_bytes);
                proof {
                    assert(out@ =~= session_id_encoding(self@));
                }
            },
            SessionId::Genesis { id } => {
                out.push(2u8);
                let mut id_bytes = clone_bytes(id);
                out.append(&mut id_bytes);
                proof {
                    assert(out@ =~= session_id_encoding(self@));
                }
            },
            SessionId::Void => {
                out.push(3u8);
                proof {
                    assert(out@ =~= session_id_encoding(self@));
                }
            },
        }
        out
    }

    /// A content hash identifying this session.
    pub fn as_uuid(&self) -> (r: Vec<u8>)
        ensures
            r@ == sha3_256_of(session_id_encoding(self@)),
            r@.len() == 32,
    {
        let encoded = self.to_bytes();
        sha3_256(&encoded)
    }
}

} // verus!
