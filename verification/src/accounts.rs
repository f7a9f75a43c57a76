//! Plain models of the on-chain accounts the miner reads, and verified
//! decoders for the account data the RPC returns.
//!
//! The clock sysvar is five little-endian 64-bit fields. The program
//! accounts carry an eight-byte header whose first byte is the account
//! kind, followed by the account's fields in declaration order, each eight
//! bytes or a raw 32-byte array. A buffer of the wrong length or with the
//! wrong kind byte is a deserialization failure, surfaced to the caller.
use vstd::prelude::*;
use vstd::bytes::{spec_u64_from_le_bytes, u64_from_le_bytes};
use vstd::slice::slice_subrange;
use crate::errors::GatewayError;

verus! {

/// The chain clock sysvar.
#[derive(Clone, Copy, Debug, PartialEq, Eq, Structural)]
pub struct Clock {
    pub slot: u64,
    pub epoch_start_timestamp: i64,
    pub epoch: u64,
    pub leader_schedule_epoch: u64,
    pub unix_timestamp: i64,
}

/// The program's global configuration account.
#[derive(Clone, Copy, Debug, PartialEq, Eq, Structural)]
pub struct ConfigAccount {
    /// Base reward rate paid for a hash of minimum difficulty.
    pub base_reward_rate: u64,
    /// Timestamp of the last epoch reset.
    pub last_reset_at: i64,
    /// The minimum accepted difficulty.
    pub min_difficulty: u64,
    /// The largest known stake balance on the network.
    pub top_balance: u64,
}

/// A miner's proof account: the current challenge and the miner's stats.
#[derive(Clone, Copy, Debug, PartialEq, Eq)]
pub struct ProofAccount {
    pub authority: [u8; 32],
    pub balance: u64,
    pub challenge: [u8; 32],
    pub last_hash: [u8; 32],
    pub last_hash_at: i64,
    pub last_stake_at: i64,
    pub miner: [u8; 32],
    pub total_hashes: u64,
    pub total_rewards: u64,
}

/// Kind byte of the configuration account.
pub const CONFIG_ACCOUNT_KIND: u8 = 101;

/// Kind byte of a proof account.
pub const PROOF_ACCOUNT_KIND: u8 = 102;

/// Byte length of the encoded clock sysvar.
pub const CLOCK_DATA_LEN: usize = 40;

/// Byte length of the encoded configuration account, header included.
pub const CONFIG_DATA_LEN: usize = 40;

/// Byte length of the encoded proof account, header included.
pub const PROOF_DATA_LEN: usize = 176;

/// The 64-bit little-endian value at a byte offset.
pub open spec fn spec_u64_le_at(b: Seq<u8>, off: int) -> u64 {
    spec_u64_from_le_bytes(b.subrange(off, off + 8))
}

/// The signed 64-bit little-endian value at a byte offset.
pub open spec fn spec_i64_le_at(b: Seq<u8>, off: int) -> i64 {
    spec_u64_le_at(b, off) as i64
}

fn read_u64_le(b: &[u8], off: usize) -> (r: u64)
    requires
        off + 8 <= b@.len(),
    ensures
        r == spec_u64_le_at(b@, off as int),
{
    let n = b.len();
    proof {
        assert(off + 8 <= n);
    }
    let w = slice_subrange(b, off, off + 8);
    u64_from_le_bytes(w)
}

fn read_i64_le(b: &[u8], off: usize) -> (r: i64)
    requires
        off + 8 <= b@.len(),
    ensures
        r == spec_i64_le_at(b@, off as int),
{
    read_u64_le(b, off) as i64
}

fn read_bytes32(b: &[u8], off: usize) -> (r: [u8; 32])
    requires
        off + 32 <= b@.len(),
    ensures
        r@ == b@.subrange(off as int, off as int + 32),
{
    let mut out = [0u8; 32];
    let n = b.len();
    let mut i: usize = 0;
    while i < 32
        invariant
            0 <= i <= 32,
            off + 32 <= n,
            n == b@.len(),
            out@.len() == 32,
            forall|k: int| 0 <= k < i ==> out@[k] == b@[off + k],
        decreases 32 - i,
    {
        vstd::std_specs::core::index_set(&mut out, i, b[off + i]);
        i = i + 1;
    }
    proof {
        assert(out@ =~= b@.subrange(off as int, off as int + 32));
    }
    out
}

/// Decode the clock sysvar from its account data.
pub fn parse_clock(data: &[u8]) -> (r: Result<Clock, GatewayError>)
    ensures
        data@.len() == CLOCK_DATA_LEN ==> r == Ok::<Clock, GatewayError>(
            Clock {
                slot: spec_u64_le_at(data@, 0),
                epoch_start_timestamp: spec_i64_le_at(data@, 8),
                epoch: spec_u64_le_at(data@, 16),
                leader_schedule_epoch: spec_u64_le_at(data@, 24),
                unix_timestamp: spec_i64_le_at(data@, 32),
            },
        ),
        data@.len() != CLOCK_DATA_LEN ==> r == Err::<Clock, GatewayError>(
            GatewayError::FailedDeserialization,
        ),
{
    if data.len() != CLOCK_DATA_LEN {
        return Err(GatewayError::FailedDeserialization);
    }
    Ok(
        Clock {
            slot: read_u64_le(data, 0),
            epoch_start_timestamp: read_i64_le(data, 8),
            epoch: read_u64_le(data, 16),
            leader_schedule_epoch: read_u64_le(data, 24),
            unix_timestamp: read_i64_le(data, 32),
        },
    )
}

/// A buffer holds a well-formed account of the given kind: the right
/// length, and the kind byte in the header.
pub open spec fn spec_account_well_formed(b: Seq<u8>, kind: u8, len: usize) -> bool {
    b.len() == len && b[0] == kind
}

/// Decode the configuration account from its account data.
pub fn parse_config(data: &[u8]) -> (r: Result<ConfigAccount, GatewayError>)
    ensures
        spec_account_well_formed(data@, CONFIG_ACCOUNT_KIND, CONFIG_DATA_LEN) ==> r == Ok::<
            ConfigAccount,
            GatewayError,
        >(
            ConfigAccount {
                base_reward_rate: spec_u64_le_at(data@, 8),
                last_reset_at: spec_i64_le_at(data@, 16),
                min_difficulty: spec_u64_le_at(data@, 24),
                top_balance: spec_u64_le_at(data@, 32),
            },
        ),
        !spec_account_well_formed(data@, CONFIG_ACCOUNT_KIND, CONFIG_DATA_LEN) ==> r == Err::<
            ConfigAccount,
            GatewayError,
        >(GatewayError::FailedDeserialization),
{
    if data.len() != CONFIG_DATA_LEN {
        return Err(GatewayError::FailedDeserialization);
    }
    if data[0] != CONFIG_ACCOUNT_KIND {
        return Err(GatewayError::FailedDeserialization);
    }
    Ok(
        ConfigAccount {
            base_reward_rate: read_u64_le(data, 8),
            last_reset_at: read_i64_le(data, 16),
            min_difficulty: read_u64_le(data, 24),
            top_balance: read_u64_le(data, 32),
        },
    )
}

/// Decode a proof account from its account data.
pub fn parse_proof(data: &[u8]) -> (r: Result<ProofAccount, GatewayError>)
    ensures
        spec_account_well_formed(data@, PROOF_ACCOUNT_KIND, PROOF_DATA_LEN) ==> match r {
            Ok(p) => {
                &&& p.authority@ == data@.subrange(8, 40)
                &&& p.balance == spec_u64_le_at(data@, 40)
                &&& p.challenge@ == data@.subrange(48, 80)
                &&& p.last_hash@ == data@.subrange(80, 112)
                &&& p.last_hash_at == spec_i64_le_at(data@, 112)
                &&& p.last_stake_at == spec_i64_le_at(data@, 120)
                &&& p.miner@ == data@.subrange(128, 160)
                &&& p.total_hashes == spec_u64_le_at(data@, 160)
                &&& p.total_rewards == spec_u64_le_at(data@, 168)
            },
            Err(_) => false,
        },
        !spec_account_well_formed(data@, PROOF_ACCOUNT_KIND, PROOF_DATA_LEN) ==> r == Err::<
            ProofAccount,
            GatewayError,
        >(GatewayError::FailedDeserialization),
{
    if data.len() != PROOF_DATA_LEN {
        return Err(GatewayError::FailedDeserialization);
    }
    if data[0] != PROOF_ACCOUNT_KIND {
        return Err(GatewayError::FailedDeserialization);
    }
    Ok(
        ProofAccount {
            authority: read_bytes32(data, 8),
            balance: read_u64_le(data, 40),
            challenge: read_bytes32(data, 48),
            last_hash: read_bytes32(data, 80),
            last_hash_at: read_i64_le(data, 112),
            last_stake_at: read_i64_le(data, 120),
            miner: read_bytes32(data, 128),
            total_hashes: read_u64_le(data, 160),
            total_rewards: read_u64_le(data, 168),
        },
    )
}

} // verus!
