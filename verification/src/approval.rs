//! Oracle approval: was a registration approved by the season's oracle?
//!
//! An approval arrives as the data of a signature-check record. Its layout: two
//! bytes with the number of signatures, then per signature a descriptor of seven
//! little-endian 16-bit fields, of which the first is the offset of the 64-byte
//! signature and the third the offset of the 32-byte public key.

use vstd::prelude::*;
use crate::error::PnlError;
use crate::identity::Identity;

verus! {

/// The 16-bit number whose little-endian bytes are `low` and `high`.
pub open spec fn le16(low: u8, high: u8) -> int {
    low + 256 * high
}

/// The number of signatures that the record announces.
pub open spec fn signature_count(data: Seq<u8>) -> int {
    le16(data[0], data[1])
}

/// Where the record says its first signature starts.
pub open spec fn signature_offset(data: Seq<u8>) -> int {
    le16(data[2], data[3])
}

/// Where the record says the public key of its first signature starts.
pub open spec fn public_key_offset(data: Seq<u8>) -> int {
    le16(data[6], data[7])
}

/// Whether `data` is a well-formed approval whose first signature names `oracle`
/// as its signer: the descriptor is complete, at least one signature is announced,
/// signature and key lie inside the record, and the key's bytes are the oracle's.
pub open spec fn approved_by(data: Seq<u8>, oracle: Seq<u8>) -> bool {
    &&& data.len() >= 8
    &&& signature_count(data) >= 1
    &&& signature_offset(data) + 64 <= data.len()
    &&& public_key_offset(data) + 32 <= data.len()
    &&& data.subrange(public_key_offset(data), public_key_offset(data) + 32) == oracle
}

/// Reads the little-endian 16-bit number at `at`.
fn read_le16(data: &[u8], at: usize) -> (value: u16)
    requires
        at + 1 < data@.len(),
    ensures
        value == le16(data@[at as int], data@[at + 1]),
{
    let low: u16 = data[at] as u16;
    let high: u16 = data[at + 1] as u16;
    low + 256 * high
}

/// Verifies that `instruction_data` is an approval signed by `oracle`. Refused
/// with `InvalidSignature` exactly when it is not.
pub fn verify_backend_approval(instruction_data: &[u8], oracle: &Identity) -> (verdict: Result<
    (),
    PnlError,
>)
    ensures
        approved_by(instruction_data@, oracle@) ==> verdict is Ok,
        !approved_by(instruction_data@, oracle@) ==> verdict == Err::<(), PnlError>(
            PnlError::InvalidSignature,
        ),
{
    let len: usize = instruction_data.len();
    if len < 8 {
        return Err(PnlError::InvalidSignature);
    }
    let count: u16 = read_le16(instruction_data, 0);
    if count < 1 {
        return Err(PnlError::InvalidSignature);
    }
    let signature_at: usize = read_le16(instruction_data, 2) as usize;
    let key_at: usize = read_le16(instruction_data, 6) as usize;
    if signature_at > len || len - signature_at < 64 || key_at > len || len - key_at < 32 {
        return Err(PnlError::InvalidSignature);
    }
    let ghost key = instruction_data@.subrange(key_at as int, key_at + 32);
    let mut i: usize = 0;
    while i < 32
        invariant
            i <= 32,
            key_at + 32 <= len,
            len == instruction_data@.len(),
            key_at == public_key_offset(instruction_data@),
            key == instruction_data@.subrange(key_at as int, key_at + 32),
            forall|j: int| 0 <= j < i ==> key[j] == oracle@[j],
        decreases 32 - i,
    {
        if instruction_data[key_at + i] != oracle.bytes[i] {
            return Err(PnlError::InvalidSignature);
        }
        i = i + 1;
    }
    assert(key =~= oracle@);
    Ok(())
}

/// The `width` low bytes of `value`, lowest first.
pub open spec fn le_bytes(value: nat, width: nat) -> Seq<u8>
    decreases width,
{
    if width == 0 {
        Seq::empty()
    } else {
        seq![(value % 256) as u8] + le_bytes(value / 256, (width - 1) as nat)
    }
}

/// The 64 bits of a timestamp read as an unsigned number (two's complement).
pub open spec fn timestamp_bits(timestamp: i64) -> nat {
    if timestamp >= 0 {
        timestamp as nat
    } else {
        (timestamp + 0x1_0000_0000_0000_0000) as nat
    }
}

/// The bytes of the tag `gorbagio_approval|` that opens every approval message.
pub open spec fn approval_tag() -> Seq<u8> {
    seq![
        103u8, 111, 114, 98, 97, 103, 105, 111, 95, 97, 112, 112, 114, 111, 118, 97, 108, 124,
    ]
}

/// The message that an oracle signs to approve a registration: the tag, then the
/// season id, the wallet, the token's mint, the token id and the timestamp, each
/// number as eight little-endian bytes, with the byte `|` between the fields.
pub open spec fn approval_message_of(
    season_id: u64,
    wallet: Seq<u8>,
    nft_mint: Seq<u8>,
    token_id: u64,
    timestamp: i64,
) -> Seq<u8> {
    approval_tag() + le_bytes(season_id as nat, 8) + seq![124u8] + wallet + seq![124u8] + nft_mint
        + seq![124u8] + le_bytes(token_id as nat, 8) + seq![124u8] + le_bytes(
        timestamp_bits(timestamp),
        8,
    )
}

/// Appends the eight little-endian bytes of `value`.
pub fn push_le_bytes(out: &mut Vec<u8>, value: u64)
    ensures
        final(out)@ == old(out)@ + le_bytes(value as nat, 8),
{
    let mut rest: u64 = value;
    let mut i: usize = 0;
    while i < 8
        invariant
            i <= 8,
            out@ + le_bytes(rest as nat, (8 - i) as nat) == old(out)@ + le_bytes(value as nat, 8),
        decreases 8 - i,
    {
        out.push((rest % 256) as u8);
        rest = rest / 256;
        i = i + 1;
    }
}

/// Appends the bytes of `id`.
pub fn push_identity(out: &mut Vec<u8>, id: &Identity)
    ensures
        final(out)@ == old(out)@ + id@,
{
    let mut i: usize = 0;
    while i < 32
        invariant
            i <= 32,
            out@ == old(out)@ + id@.subrange(0, i as int),
        decreases 32 - i,
    {
        out.push(id.bytes[i]);
        i = i + 1;
    }
}

/// The 64 bits of `timestamp` as an unsigned number.
pub fn timestamp_to_bits(timestamp: i64) -> (bits: u64)
    ensures
        bits == timestamp_bits(timestamp),
{
    if timestamp >= 0 {
        timestamp as u64
    } else {
        let shifted: i64 = (timestamp + i64::MAX) + 1;
        (shifted as u64) + 0x8000_0000_0000_0000u64
    }
}

/// Builds the message that an oracle signs to approve the registration of
/// `participant_wallet` with the token `nft_mint` in a season.
pub fn approval_message(
    season_id: u64,
    participant_wallet: &Identity,
    nft_mint: &Identity,
    gorbagio_token_id: u64,
    timestamp: i64,
) -> (message: Vec<u8>)
    ensures
        message@ == approval_message_of(
            season_id,
            participant_wallet@,
            nft_mint@,
            gorbagio_token_id,
            timestamp,
        ),
        message@.len() == 110,
{
    let tag: [u8; 18] = [
        103, 111, 114, 98, 97, 103, 105, 111, 95, 97, 112, 112, 114, 111, 118, 97, 108, 124,
    ];
    let mut message: Vec<u8> = Vec::new();
    let mut i: usize = 0;
    while i < 18
        invariant
            i <= 18,
            tag@ == approval_tag(),
            message@ == approval_tag().subrange(0, i as int),
        decreases 18 - i,
    {
        message.push(tag[i]);
        i = i + 1;
    }
    push_le_bytes(&mut message, season_id);
    message.push(124);
    push_identity(&mut message, participant_wallet);
    message.push(124);
    push_identity(&mut message, nft_mint);
    message.push(124);
    push_le_bytes(&mut message, gorbagio_token_id);
    message.push(124);
    push_le_bytes(&mut message, timestamp_to_bits(timestamp));
    proof {
        lemma_le_bytes_len(season_id as nat, 8);
        lemma_le_bytes_len(gorbagio_token_id as nat, 8);
        lemma_le_bytes_len(timestamp_bits(timestamp), 8);
        assert(message@ =~= approval_message_of(
            season_id,
            participant_wallet@,
            nft_mint@,
            gorbagio_token_id,
            timestamp,
        ));
    }
    message
}

/// `le_bytes` gives as many bytes as it is asked for.
pub proof fn lemma_le_bytes_len(value: nat, width: nat)
    ensures
        le_bytes(value, width).len() == width,
    decreases width,
{
    if width > 0 {
        lemma_le_bytes_len(value / 256, (width - 1) as nat);
    }
}

} // verus!
