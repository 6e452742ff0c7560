//! The metadata registry collaborator: metadata records, edition records,
//! creator attestation, and sized-collection membership verification.
//!
//! Record addresses are always re-derived from the mint and compared, never
//! trusted. Creating a record that already exists is a signed restatement:
//! the descriptive fields are replaced, while the provenance fields — the
//! sized-collection marker and the membership link — are preserved, so a
//! re-run of a workflow cannot erase provenance. The membership link's
//! verified bit is set in exactly one place,
//! [`Ledger::set_and_verify_sized_collection_item`], and never cleared.

use vstd::prelude::*;
use crate::records::{MintRecord, MetadataRecord, EditionRecord, CreatorEntry, CollectionLink, Error};
use crate::ledger::{AccountRecord, AccountEntry, Ledger, lemma_account_push, lemma_account_update};
use crate::addr;

verus! {

impl Ledger {
    /// Rejection reason of [`Ledger::create_metadata`], if any.
    pub open spec fn create_metadata_error(
        &self,
        metadata_address: u64,
        mint: u64,
        update_authority: u64,
        signer: u64,
    ) -> Option<Error> {
        match addr::metadata_address(mint) {
            None => Some(Error::DerivationExhausted),
            Some(d) => if d.0 != metadata_address {
                Some(Error::AddressMismatch)
            } else {
                match self.account_of(mint) {
                    None => Some(Error::MissingAccount),
                    Some(AccountRecord::Mint(m)) => if signer != m.authority {
                        Some(Error::Unauthorized)
                    } else {
                        match self.account_of(metadata_address) {
                            None => None,
                            Some(AccountRecord::Metadata(md)) => if signer
                                == md.update_authority {
                                None
                            } else {
                                Some(Error::Unauthorized)
                            },
                            Some(_) => Some(Error::IncompatibleAccount),
                        }
                    },
                    Some(_) => Some(Error::IncompatibleAccount),
                }
            },
        }
    }

    /// Creates — or, against an existing record, restates — the metadata
    /// record of `mint` at its derived address, signed by the mint authority
    /// (for a restatement, the record's update authority). A restatement
    /// replaces the descriptive fields and keeps the provenance fields: the
    /// sized-collection marker and the membership link.
    pub fn create_metadata(
        &mut self,
        metadata_address: u64,
        mint: u64,
        name: String,
        symbol: String,
        uri: String,
        seller_fee_basis_points: u16,
        creators: Option<CreatorEntry>,
        collection_details: Option<u64>,
        update_authority: u64,
        signer: u64,
    ) -> (r: Result<(), Error>)
        requires
            old(self).wf(),
        ensures
            final(self).wf(),
            r is Ok <==> old(self).create_metadata_error(
                metadata_address,
                mint,
                update_authority,
                signer,
            ) is None,
            r matches Err(e) ==> {
                &&& Some(e) == old(self).create_metadata_error(
                    metadata_address,
                    mint,
                    update_authority,
                    signer,
                )
                &&& *final(self) == *old(self)
            },
            r is Ok ==> {
                &&& final(self).metadata_of(metadata_address) == Some(
                    (MetadataRecord {
                        mint,
                        name,
                        symbol,
                        uri,
                        seller_fee_basis_points,
                        creators,
                        collection_details: (match old(self).metadata_of(
                            metadata_address,
                        ) {
                            Some(md0) => md0.collection_details,
                            None => collection_details,
                        }),
                        collection: (match old(self).metadata_of(
                            metadata_address,
                        ) {
                            Some(md0) => md0.collection,
                            None => None,
                        }),
                        update_authority,
                    }),
                )
                &&& forall|b: u64|
                    b != metadata_address ==> final(self).account_of(b)
                        == old(self).account_of(b)
                &&& final(self).holdings@ == old(self).holdings@
                &&& final(self).accounts@.len() == old(self).accounts@.len() + (
                    if old(self).account_of(metadata_address) is Some {
                        0int
                    } else {
                        1int
                    }
                )
            },
    {
        let derived = match addr::find_metadata_address(mint) {
            Some(d) => d,
            None => {
                return Err(Error::DerivationExhausted);
            },
        };
        if derived.0 != metadata_address {
            return Err(Error::AddressMismatch);
        }
        let mi = match self.find_account(mint) {
            Some(i) => i,
            None => {
                return Err(Error::MissingAccount);
            },
        };
        let m = match &self.accounts[mi].record {
            AccountRecord::Mint(m) => *m,
            _ => {
                return Err(Error::IncompatibleAccount);
            },
        };
        if signer != m.authority {
            return Err(Error::Unauthorized);
        }
        match self.find_account(metadata_address) {
            None => {
                let e = AccountEntry {
                    address: metadata_address,
                    record: AccountRecord::Metadata(
                        MetadataRecord {
                            mint,
                            name,
                            symbol,
                            uri,
                            seller_fee_basis_points,
                            creators,
                            collection_details,
                            collection: None,
                            update_authority,
                        },
                    ),
                };
                proof {
                    lemma_account_push(self.accounts@, e);
                }
                self.accounts.push(e);
                Ok(())
            },
            Some(i) => {
                let (kept_details, kept_collection, old_update_authority) =
                    match &self.accounts[i].record {
                    AccountRecord::Metadata(md) => (
                        md.collection_details,
                        md.collection,
                        md.update_authority,
                    ),
                    _ => {
                        return Err(Error::IncompatibleAccount);
                    },
                };
                if signer != old_update_authority {
                    return Err(Error::Unauthorized);
                }
                let e = AccountEntry {
                    address: metadata_address,
                    record: AccountRecord::Metadata(
                        MetadataRecord {
                            mint,
                            name,
                            symbol,
                            uri,
                            seller_fee_basis_points,
                            creators,
                            collection_details: kept_details,
                            collection: kept_collection,
                            update_authority,
                        },
                    ),
                };
                proof {
                    lemma_account_update(self.accounts@, i as int, e);
                }
                self.accounts.set(i, e);
                Ok(())
            },
        }
    }

    /// Rejection reason of [`Ledger::create_master_edition`], if any.
    pub open spec fn create_master_edition_error(
        &self,
        edition_address: u64,
        mint: u64,
        max_supply: Option<u64>,
        signer: u64,
    ) -> Option<Error> {
        match addr::edition_address(mint) {
            None => Some(Error::DerivationExhausted),
            Some(d) => if d.0 != edition_address {
                Some(Error::AddressMismatch)
            } else {
                match self.account_of(mint) {
                    None => Some(Error::MissingAccount),
                    Some(AccountRecord::Mint(m)) => if signer != m.authority {
                        Some(Error::Unauthorized)
                    } else {
                        match self.account_of(edition_address) {
                            None => if m.decimals == 0 && m.supply == 1 {
                                None
                            } else {
                                Some(Error::IncompatibleAccount)
                            },
                            Some(AccountRecord::Edition(ed)) => if ed.max_supply
                                == max_supply {
                                None
                            } else {
                                Some(Error::IncompatibleAccount)
                            },
                            Some(_) => Some(Error::IncompatibleAccount),
                        }
                    },
                    Some(_) => Some(Error::IncompatibleAccount),
                }
            },
        }
    }

    /// Creates the edition record of `mint` at its derived address, signed
    /// by the mint authority. A fresh creation demands a mint with zero
    /// decimals and a supply of exactly one unit; an existing edition with
    /// the same maximum supply is accepted unchanged, and is never mutated.
    pub fn create_master_edition(
        &mut self,
        edition_address: u64,
        mint: u64,
        max_supply: Option<u64>,
        signer: u64,
    ) -> (r: Result<(), Error>)
        requires
            old(self).wf(),
        ensures
            final(self).wf(),
            r is Ok <==> old(self).create_master_edition_error(
                edition_address,
                mint,
                max_supply,
                signer,
            ) is None,
            r matches Err(e) ==> {
                &&& Some(e) == old(self).create_master_edition_error(
                    edition_address,
                    mint,
                    max_supply,
                    signer,
                )
                &&& *final(self) == *old(self)
            },
            r is Ok ==> {
                &&& final(self).edition_of(edition_address) == Some(
                    (EditionRecord { max_supply }),
                )
                &&& old(self).account_of(edition_address) is Some
                    ==> *final(self) == *old(self)
                &&& old(self).account_of(edition_address) is None ==> {
                    &&& forall|b: u64|
                        b != edition_address ==> final(self).account_of(b)
                            == old(self).account_of(b)
                    &&& final(self).holdings@ == old(self).holdings@
                    &&& final(self).accounts@.len() == old(self).accounts@.len()
                        + 1
                }
            },
    {
        let derived = match addr::find_master_edition_address(mint) {
            Some(d) => d,
            None => {
                return Err(Error::DerivationExhausted);
            },
        };
        if derived.0 != edition_address {
            return Err(Error::AddressMismatch);
        }
        let mi = match self.find_account(mint) {
            Some(i) => i,
            None => {
                return Err(Error::MissingAccount);
            },
        };
        let m = match &self.accounts[mi].record {
            AccountRecord::Mint(m) => *m,
            _ => {
                return Err(Error::IncompatibleAccount);
            },
        };
        if signer != m.authority {
            return Err(Error::Unauthorized);
        }
        match self.find_account(edition_address) {
            None => {
                if !(m.decimals == 0 && m.supply == 1) {
                    return Err(Error::IncompatibleAccount);
                }
                let e = AccountEntry {
                    address: edition_address,
                    record: AccountRecord::Edition(EditionRecord { max_supply }),
                };
                proof {
                    lemma_account_push(self.accounts@, e);
                }
                self.accounts.push(e);
                Ok(())
            },
            Some(i) => {
                match &self.accounts[i].record {
                    AccountRecord::Edition(ed) => {
                        if ed.max_supply == max_supply {
                            Ok(())
                        } else {
                            Err(Error::IncompatibleAccount)
                        }
                    },
                    _ => Err(Error::IncompatibleAccount),
                }
            },
        }
    }

    /// Rejection reason of [`Ledger::sign_metadata`], if any.
    pub open spec fn sign_metadata_error(
        &self,
        metadata_address: u64,
        creator: u64,
    ) -> Option<Error> {
        match self.account_of(metadata_address) {
            None => Some(Error::MissingAccount),
            Some(AccountRecord::Metadata(md)) => match md.creators {
                Some(c) => if c.address == creator {
                    None
                } else {
                    Some(Error::CreatorMissing)
                },
                None => Some(Error::CreatorMissing),
            },
            Some(_) => Some(Error::IncompatibleAccount),
        }
    }

    /// The creator attestation: the creator named in the record signs it,
    /// flipping their entry's verified bit to true. Nothing else changes.
    pub fn sign_metadata(&mut self, metadata_address: u64, creator: u64) -> (r:
        Result<(), Error>)
        requires
            old(self).wf(),
        ensures
            final(self).wf(),
            r is Ok <==> old(self).sign_metadata_error(metadata_address, creator)
                is None,
            r matches Err(e) ==> {
                &&& Some(e) == old(self).sign_metadata_error(
                    metadata_address,
                    creator,
                )
                &&& *final(self) == *old(self)
            },
            r is Ok ==> {
                &&& old(self).metadata_of(metadata_address) matches Some(md0)
                    && md0.creators matches Some(c0) && final(self).metadata_of(
                    metadata_address,
                ) == Some(
                    (MetadataRecord {
                        mint: md0.mint,
                        name: md0.name,
                        symbol: md0.symbol,
                        uri: md0.uri,
                        seller_fee_basis_points: md0.seller_fee_basis_points,
                        creators: Some(
                            (CreatorEntry {
                                address: c0.address,
                                verified: true,
                                share: c0.share,
                            }),
                        ),
                        collection_details: md0.collection_details,
                        collection: md0.collection,
                        update_authority: md0.update_authority,
                    }),
                )
                &&& forall|b: u64|
                    b != metadata_address ==> final(self).account_of(b)
                        == old(self).account_of(b)
                &&& final(self).holdings@ == old(self).holdings@
                &&& final(self).accounts@.len() == old(self).accounts@.len()
            },
    {
        let i = match self.find_account(metadata_address) {
            Some(i) => i,
            None => {
                return Err(Error::MissingAccount);
            },
        };
        let e = match &self.accounts[i].record {
            AccountRecord::Metadata(md) => {
                let c = match md.creators {
                    Some(c) => c,
                    None => {
                        return Err(Error::CreatorMissing);
                    },
                };
                if c.address != creator {
                    return Err(Error::CreatorMissing);
                }
                AccountEntry {
                    address: metadata_address,
                    record: AccountRecord::Metadata(
                        MetadataRecord {
                            mint: md.mint,
                            name: md.name.clone(),
                            symbol: md.symbol.clone(),
                            uri: md.uri.clone(),
                            seller_fee_basis_points: md.seller_fee_basis_points,
                            creators: Some(
                                CreatorEntry {
                                    address: c.address,
                                    verified: true,
                                    share: c.share,
                                },
                            ),
                            collection_details: md.collection_details,
                            collection: md.collection,
                            update_authority: md.update_authority,
                        },
                    ),
                }
            },
            _ => {
                return Err(Error::IncompatibleAccount);
            },
        };
        proof {
            lemma_account_update(self.accounts@, i as int, e);
        }
        self.accounts.set(i, e);
        Ok(())
    }

    /// Rejection reason of
    /// [`Ledger::set_and_verify_sized_collection_item`], if any.
    pub open spec fn set_and_verify_error(
        &self,
        item_metadata_address: u64,
        collection_mint: u64,
        collection_metadata_address: u64,
        collection_edition_address: u64,
        authority: u64,
    ) -> Option<Error> {
        match addr::metadata_address(collection_mint) {
            None => Some(Error::DerivationExhausted),
            Some(dm) => if dm.0 != collection_metadata_address {
                Some(Error::AddressMismatch)
            } else {
                match addr::edition_address(collection_mint) {
                    None => Some(Error::DerivationExhausted),
                    Some(de) => if de.0 != collection_edition_address {
                        Some(Error::AddressMismatch)
                    } else if item_metadata_address
                        == collection_metadata_address {
                        Some(Error::IncompatibleAccount)
                    } else {
                        self.set_and_verify_state_error(
                            item_metadata_address,
                            collection_mint,
                            collection_metadata_address,
                            collection_edition_address,
                            authority,
                        )
                    },
                }
            },
        }
    }

    /// The state-dependent part of [`Ledger::set_and_verify_error`]: the
    /// checks made once the supplied addresses match their derivations.
    pub open spec fn set_and_verify_state_error(
        &self,
        item_metadata_address: u64,
        collection_mint: u64,
        collection_metadata_address: u64,
        collection_edition_address: u64,
        authority: u64,
    ) -> Option<Error> {
        match self.account_of(item_metadata_address) {
            None => Some(Error::MissingAccount),
            Some(AccountRecord::Metadata(imd)) => if imd.collection matches
                Some(link) && link.verified {
                Some(Error::AlreadyVerified)
            } else {
                match self.account_of(collection_metadata_address) {
                    None => Some(Error::MissingAccount),
                    Some(AccountRecord::Metadata(cmd)) => if cmd.mint
                        != collection_mint {
                        Some(Error::IncompatibleAccount)
                    } else if authority != cmd.update_authority {
                        Some(Error::Unauthorized)
                    } else {
                        match cmd.collection_details {
                            None => Some(Error::NotSizedCollection),
                            Some(size) => if size == u64::MAX {
                                Some(Error::SizeOverflow)
                            } else {
                                match self.account_of(
                                    collection_edition_address,
                                ) {
                                    None => Some(Error::MissingAccount),
                                    Some(AccountRecord::Edition(_)) => None,
                                    Some(_) => Some(Error::IncompatibleAccount),
                                }
                            },
                        }
                    },
                    Some(_) => Some(Error::IncompatibleAccount),
                }
            },
            Some(_) => Some(Error::IncompatibleAccount),
        }
    }

    /// The only operation permitted to set a membership link's verified bit:
    /// writes the item's reference to the collection mint and marks it
    /// verified in one step, and counts the new member into the collection
    /// root's sized-collection marker. Demands the collection authority's
    /// signature and a collection root whose metadata record carries the
    /// marker; an already-verified link is never restated.
    pub fn set_and_verify_sized_collection_item(
        &mut self,
        item_metadata_address: u64,
        collection_mint: u64,
        collection_metadata_address: u64,
        collection_edition_address: u64,
        authority: u64,
    ) -> (r: Result<(), Error>)
        requires
            old(self).wf(),
        ensures
            final(self).wf(),
            r is Ok <==> old(self).set_and_verify_error(
                item_metadata_address,
                collection_mint,
                collection_metadata_address,
                collection_edition_address,
                authority,
            ) is None,
            r matches Err(e) ==> {
                &&& Some(e) == old(self).set_and_verify_error(
                    item_metadata_address,
                    collection_mint,
                    collection_metadata_address,
                    collection_edition_address,
                    authority,
                )
                &&& *final(self) == *old(self)
            },
            r is Ok ==> {
                &&& old(self).metadata_of(item_metadata_address) matches Some(
                    imd0,
                ) && final(self).metadata_of(item_metadata_address) == Some(
                    (MetadataRecord {
                        mint: imd0.mint,
                        name: imd0.name,
                        symbol: imd0.symbol,
                        uri: imd0.uri,
                        seller_fee_basis_points: imd0.seller_fee_basis_points,
                        creators: imd0.creators,
                        collection_details: imd0.collection_details,
                        collection: Some(
                            (CollectionLink {
                                key: collection_mint,
                                verified: true,
                            }),
                        ),
                        update_authority: imd0.update_authority,
                    }),
                )
                &&& old(self).metadata_of(collection_metadata_address) matches
                    Some(cmd0) && cmd0.collection_details matches Some(size0)
                    && final(self).metadata_of(collection_metadata_address)
                    == Some(
                    (MetadataRecord {
                        mint: cmd0.mint,
                        name: cmd0.name,
                        symbol: cmd0.symbol,
                        uri: cmd0.uri,
                        seller_fee_basis_points: cmd0.seller_fee_basis_points,
                        creators: cmd0.creators,
                        collection_details: Some((size0 + 1) as u64),
                        collection: cmd0.collection,
                        update_authority: cmd0.update_authority,
                    }),
                )
                &&& forall|b: u64|
                    b != item_metadata_address && b != collection_metadata_address
                        ==> final(self).account_of(b) == old(self).account_of(b)
                &&& final(self).holdings@ == old(self).holdings@
                &&& final(self).accounts@.len() == old(self).accounts@.len()
            },
    {
        let dm = match addr::find_metadata_address(collection_mint) {
            Some(d) => d,
            None => {
                return Err(Error::DerivationExhausted);
            },
        };
        if dm.0 != collection_metadata_address {
            return Err(Error::AddressMismatch);
        }
        let de = match addr::find_master_edition_address(collection_mint) {
            Some(d) => d,
            None => {
                return Err(Error::DerivationExhausted);
            },
        };
        if de.0 != collection_edition_address {
            return Err(Error::AddressMismatch);
        }
        if item_metadata_address == collection_metadata_address {
            return Err(Error::IncompatibleAccount);
        }
        let ii = match self.find_account(item_metadata_address) {
            Some(i) => i,
            None => {
                return Err(Error::MissingAccount);
            },
        };
        let item_entry = match &self.accounts[ii].record {
            AccountRecord::Metadata(imd) => {
                let already = match imd.collection {
                    Some(link) => link.verified,
                    None => false,
                };
                if already {
                    return Err(Error::AlreadyVerified);
                }
                AccountEntry {
                    address: item_metadata_address,
                    record: AccountRecord::Metadata(
                        MetadataRecord {
                            mint: imd.mint,
                            name: imd.name.clone(),
                            symbol: imd.symbol.clone(),
                            uri: imd.uri.clone(),
                            seller_fee_basis_points: imd.seller_fee_basis_points,
                            creators: imd.creators,
                            collection_details: imd.collection_details,
                            collection: Some(
                                CollectionLink {
                                    key: collection_mint,
                                    verified: true,
                                },
                            ),
                            update_authority: imd.update_authority,
                        },
                    ),
                }
            },
            _ => {
                return Err(Error::IncompatibleAccount);
            },
        };
        let ci = match self.find_account(collection_metadata_address) {
            Some(i) => i,
            None => {
                return Err(Error::MissingAccount);
            },
        };
        let coll_entry = match &self.accounts[ci].record {
            AccountRecord::Metadata(cmd) => {
                if cmd.mint != collection_mint {
                    return Err(Error::IncompatibleAccount);
                }
                if authority != cmd.update_authority {
                    return Err(Error::Unauthorized);
                }
                let size = match cmd.collection_details {
                    None => {
                        return Err(Error::NotSizedCollection);
                    },
                    Some(size) => size,
                };
                if size == u64::MAX {
                    return Err(Error::SizeOverflow);
                }
                AccountEntry {
                    address: collection_metadata_address,
                    record: AccountRecord::Metadata(
                        MetadataRecord {
                            mint: cmd.mint,
                            name: cmd.name.clone(),
                            symbol: cmd.symbol.clone(),
                            uri: cmd.uri.clone(),
                            seller_fee_basis_points: cmd.seller_fee_basis_points,
                            creators: cmd.creators,
                            collection_details: Some(size + 1),
                            collection: cmd.collection,
                            update_authority: cmd.update_authority,
                        },
                    ),
                }
            },
            _ => {
                return Err(Error::IncompatibleAccount);
            },
        };
        match self.find_account(collection_edition_address) {
            Some(i) => {
                match &self.accounts[i].record {
                    AccountRecord::Edition(_) => {},
                    _ => {
                        return Err(Error::IncompatibleAccount);
                    },
                }
            },
            None => {
                return Err(Error::MissingAccount);
            },
        };
        proof {
            lemma_account_update(self.accounts@, ii as int, item_entry);
        }
        self.accounts.set(ii, item_entry);
        proof {
            lemma_account_update(self.accounts@, ci as int, coll_entry);
        }
        self.accounts.set(ci, coll_entry);
        Ok(())
    }
}

} // verus!
