//! The persisted record shapes owned by the two collaborators, and the
//! protocol's rejection reasons.
//!
//! A mint record tracks a supply-counted token type; a holding record tracks
//! that an owner holds units of a mint; a metadata record carries the
//! descriptive state attached one-to-one to a mint, including the optional
//! sized-collection marker and the optional membership link; an edition
//! record carries print-supply semantics. All provenance state is
//! append-only: nothing here is ever deleted.

use vstd::prelude::*;

verus! {

/// A single token type. Decimals are always zero in this protocol; the
/// authority is the only signer allowed to mint new units.
#[derive(Clone, Copy, PartialEq, Eq, Structural, Debug)]
pub struct MintRecord {
    pub decimals: u8,
    pub supply: u64,
    pub authority: u64,
    pub freeze_authority: u64,
}

/// One entry of a metadata record's creator list, with its attestation bit.
#[derive(Clone, Copy, PartialEq, Eq, Structural, Debug)]
pub struct CreatorEntry {
    pub address: u64,
    pub verified: bool,
    pub share: u8,
}

/// A membership reference from an item's metadata record to a collection
/// mint. The verified bit may be set only by the collection authority, and
/// only through the one operation permitted to set it.
#[derive(Clone, Copy, PartialEq, Eq, Structural, Debug)]
pub struct CollectionLink {
    pub key: u64,
    pub verified: bool,
}

/// Descriptive state attached one-to-one to a mint.
#[derive(Debug)]
pub struct MetadataRecord {
    /// The mint this record describes.
    pub mint: u64,
    pub name: String,
    pub symbol: String,
    pub uri: String,
    pub seller_fee_basis_points: u16,
    /// The recorded creator, if any (this protocol records at most one, at a
    /// hundred percent share).
    pub creators: Option<CreatorEntry>,
    /// Present exactly on collection roots: the tracked collection size.
    pub collection_details: Option<u64>,
    /// Present exactly on items that reference a collection.
    pub collection: Option<CollectionLink>,
    /// The only signer allowed to restate this record or to verify
    /// membership against it.
    pub update_authority: u64,
}

/// Print-supply semantics attached one-to-one to a mint. A maximum supply of
/// zero means a single unique printable unit.
#[derive(Clone, Copy, PartialEq, Eq, Structural, Debug)]
pub struct EditionRecord {
    pub max_supply: Option<u64>,
}

/// Why a call was rejected. Every workflow is binary: a rejected call leaves
/// no trace of the attempt.
#[derive(Clone, Copy, PartialEq, Eq, Structural, Debug)]
pub enum Error {
    /// No viable derivation exists for the seed: the bump search space is
    /// exhausted. Fatal, never retried.
    DerivationExhausted,
    /// A supplied address does not match its deterministic derivation.
    AddressMismatch,
    /// An address that had to be fresh is already in use, or two derivations
    /// that had to be distinct landed on one address.
    AlreadyInUse,
    /// An account exists at the expected address but is not the kind of
    /// record, or does not carry the configuration, the step demands.
    IncompatibleAccount,
    /// A record that had to exist is absent.
    MissingAccount,
    /// The signer presented to a step is not the authority that step
    /// requires.
    Unauthorized,
    /// The referenced collection root's metadata record lacks the
    /// sized-collection marker.
    NotSizedCollection,
    /// The item's membership link is already verified and may not be
    /// restated.
    AlreadyVerified,
    /// The metadata record has no creator entry for the signing creator.
    CreatorMissing,
    /// Minting would overflow the mint's supply or the holding's balance.
    SupplyOverflow,
    /// Verifying one more member would overflow the collection's tracked
    /// size.
    SizeOverflow,
}

} // verus!
