//! Collection membership: does a token's metadata record prove that the token belongs
//! to a season's collection?
//!
//! Two things are not computed here but asked of the libraries that define them:
//! the address at which a token's metadata record lives, and the decoding of that
//! record. Both are functions of their arguments alone; the verdict is stated,
//! and proved, over their results.

use vstd::prelude::*;
use anchor_lang::solana_program::pubkey::Pubkey;
use mpl_token_metadata::accounts::Metadata;
use crate::error::PnlError;
use crate::identity::Identity;

verus! {

/// The collection entry of a metadata record: whether the collection's authority
/// has verified the membership, and the collection's identity.
#[derive(Clone, Copy, Debug)]
pub struct CollectionEntry {
    pub verified: bool,
    pub key: Identity,
}

/// What decoding a metadata record gives, as far as membership depends on it.
#[derive(Clone, Copy, Debug)]
pub enum DecodedMetadata {
    /// The bytes are no metadata record.
    Malformed,
    /// The record names no collection.
    NoCollection,
    /// The record names this collection.
    InCollection(CollectionEntry),
}

impl DecodedMetadata {
    /// The same outcome in plain values.
    pub open spec fn plain(&self) -> Option<Option<(bool, Seq<u8>)>> {
        match self {
            DecodedMetadata::Malformed => None,
            DecodedMetadata::NoCollection => Some(None),
            DecodedMetadata::InCollection(entry) => Some(Some((entry.verified, entry.key@))),
        }
    }
}

/// The program-derived address for `seeds` under `program`, with its bump seed:
/// what `Pubkey::try_find_program_address` returns for them.
pub uninterp spec fn program_address_of(seeds: Seq<Seq<u8>>, program: Seq<u8>) -> Option<
    (Seq<u8>, u8),
>;

/// What `Metadata::from_bytes` makes of `data`, as far as membership depends on
/// it: `None` where the bytes are no metadata record, `Some(None)` where the record
/// names no collection, and otherwise whether the entry is verified, and the
/// collection's bytes.
pub uninterp spec fn metadata_collection_of(data: Seq<u8>) -> Option<Option<(bool, Seq<u8>)>>;

/// The seeds as sequences of bytes.
pub open spec fn seeds_view(seeds: Seq<Vec<u8>>) -> Seq<Seq<u8>> {
    Seq::new(seeds.len(), |i: int| seeds[i]@)
}

/// `Pubkey::try_find_program_address` of `solana_program`: the address derived
/// from `seeds` under `program_id` and the bump seed that gave it, or `None` where
/// no bump seed gives one or the seeds are too many or too long. The contract
/// claims only that the result is a function of the seeds and the program id.
#[verifier::external_body]
fn try_find_program_address(seeds: &Vec<Vec<u8>>, program_id: &Identity) -> (found: Option<
    (Identity, u8),
>)
    ensures
        match found {
            Some((address, bump)) => program_address_of(seeds_view(seeds@), program_id@) == Some(
                (address@, bump),
            ),
            None => program_address_of(seeds_view(seeds@), program_id@) is None,
        },
{
    let slices: Vec<&[u8]> = seeds.iter().map(|seed| seed.as_slice()).collect();
    let program = Pubkey::new_from_array(program_id.bytes);
    Pubkey::try_find_program_address(&slices, &program).map(
        |(address, bump)| (Identity { bytes: address.to_bytes() }, bump),
    )
}

/// `Metadata::from_bytes` of `mpl_token_metadata`: decodes a metadata record and
/// hands out its collection entry. The contract claims only that the result is a
/// function of the bytes.
#[verifier::external_body]
fn decode_metadata(data: &[u8]) -> (decoded: DecodedMetadata)
    ensures
        decoded.plain() == metadata_collection_of(data@),
{
    match Metadata::from_bytes(data) {
        Ok(metadata) => match metadata.collection {
            Some(collection) => DecodedMetadata::InCollection(
                CollectionEntry {
                    verified: collection.verified,
                    key: Identity { bytes: collection.key.to_bytes() },
                },
            ),
            None => DecodedMetadata::NoCollection,
        },
        Err(_) => DecodedMetadata::Malformed,
    }
}

/// The identity of the token metadata program.
pub fn metadata_program_id() -> (id: Identity)
    ensures
        id@ == metadata_program_bytes(),
{
    Identity {
        bytes: [
            11, 112, 101, 177, 227, 209, 124, 69, 56, 157, 82, 127, 107, 4, 195, 205, 88, 184, 108,
            115, 26, 160, 253, 181, 73, 182, 209, 188, 3, 248, 41, 70,
        ],
    }
}

/// The bytes of the token metadata program's identity.
pub open spec fn metadata_program_bytes() -> Seq<u8> {
    seq![
        11u8, 112, 101, 177, 227, 209, 124, 69, 56, 157, 82, 127, 107, 4, 195, 205, 88, 184, 108,
        115, 26, 160, 253, 181, 73, 182, 209, 188, 3, 248, 41, 70,
    ]
}

/// The bytes of the word `metadata`, the first seed of every metadata address.
pub open spec fn metadata_prefix() -> Seq<u8> {
    seq![109u8, 101, 116, 97, 100, 97, 116, 97]
}

/// The seeds from which the address of the metadata record of `mint` is derived:
/// the word `metadata`, the metadata program's identity, and the mint.
pub open spec fn metadata_seeds(mint: Seq<u8>) -> Seq<Seq<u8>> {
    seq![metadata_prefix(), metadata_program_bytes(), mint]
}

/// The address at which the metadata record of `mint` lives, where one exists.
pub open spec fn metadata_address_of(mint: Seq<u8>) -> Option<Seq<u8>> {
    match program_address_of(metadata_seeds(mint), metadata_program_bytes()) {
        Some((address, _)) => Some(address),
        None => None,
    }
}

fn bytes_of(id: &Identity) -> (bytes: Vec<u8>)
    ensures
        bytes@ == id@,
{
    let mut bytes: Vec<u8> = Vec::new();
    let mut i: usize = 0;
    while i < 32
        invariant
            i <= 32,
            bytes@.len() == i,
            forall|j: int| 0 <= j < i ==> bytes@[j] == id.bytes@[j],
        decreases 32 - i,
    {
        bytes.push(id.bytes[i]);
        i = i + 1;
    }
    bytes
}

/// The address at which the metadata record of `nft_mint` lives, where one exists.
pub fn derive_metadata_address(nft_mint: &Identity) -> (address: Option<Identity>)
    ensures
        match address {
            Some(a) => metadata_address_of(nft_mint@) == Some(a@),
            None => metadata_address_of(nft_mint@) is None,
        },
{
    let program = metadata_program_id();
    let mut prefix: Vec<u8> = Vec::new();
    prefix.push(109);
    prefix.push(101);
    prefix.push(116);
    prefix.push(97);
    prefix.push(100);
    prefix.push(97);
    prefix.push(116);
    prefix.push(97);
    assert(prefix@ =~= metadata_prefix());
    let mut seeds: Vec<Vec<u8>> = Vec::new();
    seeds.push(prefix);
    seeds.push(bytes_of(&program));
    seeds.push(bytes_of(nft_mint));
    assert(seeds_view(seeds@) =~= metadata_seeds(nft_mint@));
    match try_find_program_address(&seeds, &program) {
        Some((address, _)) => Some(address),
        None => None,
    }
}

/// The verdict on a metadata record found at `metadata_key`, given the
/// address `expected` at which the token's record must live and what the record
/// decodes to. The conditions are tested in this order: the record lives at the
/// expected address, it can be decoded, it names a collection, the entry is
/// verified and names `collection`.
pub open spec fn membership_verdict(
    metadata_key: Seq<u8>,
    expected: Option<Seq<u8>>,
    decoded: Option<Option<(bool, Seq<u8>)>>,
    collection: Seq<u8>,
) -> Result<(), PnlError> {
    if expected != Some(metadata_key) {
        Err(PnlError::InvalidNftOwnership)
    } else {
        match decoded {
            None => Err(PnlError::MalformedMetadata),
            Some(None) => Err(PnlError::InvalidNftOwnership),
            Some(Some((verified, key))) => if verified && key == collection {
                Ok(())
            } else {
                Err(PnlError::InvalidNftOwnership)
            },
        }
    }
}

/// Judges a metadata record that was found at `metadata_key`, from the address
/// derived for the token and from the decoded record.
pub fn judge_membership(
    metadata_key: &Identity,
    expected: Option<Identity>,
    decoded: DecodedMetadata,
    collection_address: &Identity,
) -> (verdict: Result<(), PnlError>)
    ensures
        verdict == membership_verdict(
            metadata_key@,
            match expected {
                Some(e) => Some(e@),
                None => None,
            },
            decoded.plain(),
            collection_address@,
        ),
{
    match expected {
        Some(address) => {
            if !address.same(metadata_key) {
                return Err(PnlError::InvalidNftOwnership);
            }
        },
        None => { return Err(PnlError::InvalidNftOwnership); },
    }
    match decoded {
        DecodedMetadata::Malformed => Err(PnlError::MalformedMetadata),
        DecodedMetadata::NoCollection => Err(PnlError::InvalidNftOwnership),
        DecodedMetadata::InCollection(entry) => {
            if entry.verified && entry.key.same(collection_address) {
                Ok(())
            } else {
                Err(PnlError::InvalidNftOwnership)
            }
        },
    }
}

/// Verifies that the token `nft_mint` belongs to the collection
/// `collection_address`: the record with the bytes `metadata_data`, found at
/// `metadata_key`, must live at the address derived for the token, and must name
/// that collection in a verified entry.
pub fn verify_collection_membership(
    metadata_key: &Identity,
    metadata_data: &[u8],
    nft_mint: &Identity,
    collection_address: &Identity,
) -> (verdict: Result<(), PnlError>)
    ensures
        verdict == membership_verdict(
            metadata_key@,
            metadata_address_of(nft_mint@),
            metadata_collection_of(metadata_data@),
            collection_address@,
        ),
{
    let expected = derive_metadata_address(nft_mint);
    let decoded = decode_metadata(metadata_data);
    judge_membership(metadata_key, expected, decoded, collection_address)
}

} // verus!
