//! Issuance of non-fungible tokens that are cryptographically bound to a
//! parent "collection" token.
//!
//! A deterministic, key-less signing authority is derived from a public seed
//! ([`addr`]). A one-time bootstrap workflow establishes the collection root
//! (mint, metadata record marked as a sized collection, edition record, and a
//! self-signed creator attestation), and a repeatable issuance workflow
//! creates one item at a time and links it to the root with a verified
//! membership reference ([`program`]). Both workflows run against a model of
//! the token ledger and metadata registry collaborators ([`ledger`],
//! [`token`], [`registry`]) and are all-or-nothing: a rejected call leaves the
//! ledger exactly as it was.

pub mod addr;
pub mod records;
pub mod ledger;
pub mod token;
pub mod registry;
pub mod program;
pub mod laws;
