//! The two entry points of the protocol.
//!
//! Both workflows re-derive every address they touch and reject a mismatch
//! before any mutation. Both are all-or-nothing: every condition any later
//! step could fail on is established up front, so a call either applies every
//! step or returns its rejection reason with the ledger untouched. The
//! `create_collection_error` and `create_item_error` spec functions give the
//! exact rejection reason for every state, and [`collection_established`] and
//! [`item_established`] say what a successful call leaves behind.

use vstd::prelude::*;
use crate::records::{EditionRecord, MetadataRecord, CreatorEntry, CollectionLink, Error};
use crate::ledger::{AccountRecord, Ledger};
use crate::token::mint_compatible;
use crate::addr;

verus! {

/// The accounts a collection bootstrap runs against: the paying caller, who
/// becomes the recorded creator and receives the one minted unit, and the
/// derived collection mint, metadata and edition addresses.
#[derive(Clone, Copy, PartialEq, Eq, Structural, Debug)]
pub struct CreateCollectionNft {
    pub authority: u64,
    pub mint: u64,
    pub metadata_account: u64,
    pub master_edition: u64,
}

/// The accounts an item issuance runs against: the paying caller, who
/// becomes the owner, the existing collection mint with its derived metadata
/// and edition addresses, and the fresh item mint with its derived metadata
/// and edition addresses.
#[derive(Clone, Copy, PartialEq, Eq, Structural, Debug)]
pub struct CreateNftInCollection {
    pub user: u64,
    pub collection_mint: u64,
    pub collection_metadata_account: u64,
    pub collection_master_edition: u64,
    pub nft_mint: u64,
    pub metadata_account: u64,
    pub master_edition: u64,
}

/// The supply the mint at `mint` already tracks, or zero when it does not
/// exist yet.
pub open spec fn existing_supply(l: Ledger, mint: u64) -> u64 {
    match l.mint_of(mint) {
        Some(m) => m.supply,
        None => 0,
    }
}

/// The balance `owner` already holds in `mint`, or zero when no holding
/// exists yet.
pub open spec fn existing_holding(l: Ledger, owner: u64, mint: u64) -> u64 {
    match l.holding_of(owner, mint) {
        Some(h) => h,
        None => 0,
    }
}

/// Whether whatever sits at the collection metadata address can be restated
/// by `signer`: nothing there yet, or a metadata record whose update
/// authority is `signer`.
pub open spec fn metadata_slot_error(l: Ledger, a: u64, signer: u64) -> Option<Error> {
    match l.account_of(a) {
        None => None,
        Some(AccountRecord::Metadata(md)) => if signer == md.update_authority {
            None
        } else {
            Some(Error::Unauthorized)
        },
        Some(_) => Some(Error::IncompatibleAccount),
    }
}

/// Whether whatever sits at the collection edition address passes for the
/// edition this protocol creates: nothing there yet (then the supply after
/// minting must be exactly one), or an edition with maximum supply zero.
pub open spec fn edition_slot_error(l: Ledger, a: u64, supply_after: u64) -> Option<Error> {
    match l.account_of(a) {
        None => if supply_after == 1 {
            None
        } else {
            Some(Error::IncompatibleAccount)
        },
        Some(AccountRecord::Edition(ed)) => if ed.max_supply == Some(0u64) {
            None
        } else {
            Some(Error::IncompatibleAccount)
        },
        Some(_) => Some(Error::IncompatibleAccount),
    }
}

/// The state-dependent rejection reason of [`create_collection_nft`], checked
/// once every supplied address matches its derivation.
pub open spec fn create_collection_state_error(l: Ledger, ctx: CreateCollectionNft) -> Option<
    Error,
> {
    if l.account_of(ctx.mint) is Some && !mint_compatible(
        l.account_of(ctx.mint).unwrap(),
        ctx.mint,
    ) {
        Some(Error::IncompatibleAccount)
    } else if existing_supply(l, ctx.mint) + 1 > u64::MAX {
        Some(Error::SupplyOverflow)
    } else if existing_holding(l, ctx.authority, ctx.mint) + 1 > u64::MAX {
        Some(Error::SupplyOverflow)
    } else if metadata_slot_error(l, ctx.metadata_account, ctx.mint) is Some {
        metadata_slot_error(l, ctx.metadata_account, ctx.mint)
    } else if edition_slot_error(
        l,
        ctx.master_edition,
        (existing_supply(l, ctx.mint) + 1) as u64,
    ) is Some {
        edition_slot_error(l, ctx.master_edition, (existing_supply(l, ctx.mint) + 1) as u64)
    } else {
        None
    }
}

/// The rejection reason of [`create_collection_nft`], if any.
pub open spec fn create_collection_error(l: Ledger, ctx: CreateCollectionNft) -> Option<Error> {
    match addr::authority_for(addr::collection_seed_spec()) {
        None => Some(Error::DerivationExhausted),
        Some(d) => if d.0 != ctx.mint {
            Some(Error::AddressMismatch)
        } else {
            match addr::metadata_address(ctx.mint) {
                None => Some(Error::DerivationExhausted),
                Some(dm) => if dm.0 != ctx.metadata_account {
                    Some(Error::AddressMismatch)
                } else {
                    match addr::edition_address(ctx.mint) {
                        None => Some(Error::DerivationExhausted),
                        Some(de) => if de.0 != ctx.master_edition {
                            Some(Error::AddressMismatch)
                        } else if ctx.metadata_account == ctx.mint || ctx.master_edition
                            == ctx.mint || ctx.master_edition == ctx.metadata_account {
                            Some(Error::AlreadyInUse)
                        } else {
                            create_collection_state_error(l, ctx)
                        },
                    }
                },
            }
        },
    }
}

/// What a successful collection bootstrap leaves behind: a self-consistent
/// root. The collection mint exists under the derived authority with one more
/// unit minted into the caller's holding; the metadata record carries the
/// given data, the caller as its sole, verified, hundred-percent creator, and
/// the sized-collection marker (size zero when freshly created, the already
/// tracked size when re-run); the edition record caps printing at zero; and
/// nothing else moved.
pub open spec fn collection_established(
    pre: Ledger,
    post: Ledger,
    ctx: CreateCollectionNft,
    uri: Seq<char>,
    name: Seq<char>,
    symbol: Seq<char>,
) -> bool {
    &&& post.wf()
    &&& post.mint_of(ctx.mint) matches Some(m) && m.decimals == 0 && m.authority == ctx.mint
        && m.freeze_authority == ctx.mint && m.supply == existing_supply(pre, ctx.mint) + 1
    &&& post.holding_of(ctx.authority, ctx.mint) == Some(
        (existing_holding(pre, ctx.authority, ctx.mint) + 1) as u64,
    )
    &&& post.metadata_of(ctx.metadata_account) matches Some(md) && {
        &&& md.mint == ctx.mint
        &&& md.name@ == name
        &&& md.symbol@ == symbol
        &&& md.uri@ == uri
        &&& md.seller_fee_basis_points == 0
        &&& md.creators == Some(
            (CreatorEntry { address: ctx.authority, verified: true, share: 100 }),
        )
        &&& md.collection_details == (match pre.metadata_of(ctx.metadata_account) {
            Some(md0) => md0.collection_details,
            None => Some(0u64),
        })
        &&& md.collection == (match pre.metadata_of(ctx.metadata_account) {
            Some(md0) => md0.collection,
            None => None,
        })
        &&& md.update_authority == ctx.mint
    }
    &&& post.edition_of(ctx.master_edition) == Some((EditionRecord { max_supply: Some(0u64) }))
    &&& forall|b: u64|
        b != ctx.mint && b != ctx.metadata_account && b != ctx.master_edition
            ==> post.account_of(b) == pre.account_of(b)
    &&& forall|o: u64, m: u64|
        !(o == ctx.authority && m == ctx.mint) ==> post.holding_of(o, m) == pre.holding_of(o, m)
    &&& post.accounts@.len() == pre.accounts@.len() + (
    if pre.account_of(ctx.mint) is Some {
        0int
    } else {
        1int
    }) + (
    if pre.account_of(ctx.metadata_account) is Some {
        0int
    } else {
        1int
    }) + (
    if pre.account_of(ctx.master_edition) is Some {
        0int
    } else {
        1int
    })
    &&& post.holdings@.len() == pre.holdings@.len() + (
    if pre.holding_of(ctx.authority, ctx.mint) is Some {
        0int
    } else {
        1int
    })
}

/// Collection bootstrap: creates the collection mint (if absent) under the
/// seed-derived authority, mints one unit to the caller, writes the metadata
/// record with the sized-collection marker, writes the edition record, and
/// has the caller sign their creator attestation — as one atomic unit of
/// work.
pub fn create_collection_nft(
    ledger: &mut Ledger,
    ctx: CreateCollectionNft,
    uri: String,
    name: String,
    symbol: String,
) -> (r: Result<(), Error>)
    requires
        old(ledger).wf(),
    ensures
        final(ledger).wf(),
        r is Ok <==> create_collection_error(*old(ledger), ctx) is None,
        r matches Err(e) ==> {
            &&& Some(e) == create_collection_error(*old(ledger), ctx)
            &&& *final(ledger) == *old(ledger)
        },
        r is Ok ==> collection_established(
            *old(ledger),
            *final(ledger),
            ctx,
            uri@,
            name@,
            symbol@,
        ),
{
    let seed = addr::collection_seed();
    let d = match addr::derive_authority(&seed) {
        Some(d) => d,
        None => {
            return Err(Error::DerivationExhausted);
        },
    };
    if d.0 != ctx.mint {
        return Err(Error::AddressMismatch);
    }
    let dm = match addr::find_metadata_address(ctx.mint) {
        Some(d) => d,
        None => {
            return Err(Error::DerivationExhausted);
        },
    };
    if dm.0 != ctx.metadata_account {
        return Err(Error::AddressMismatch);
    }
    let de = match addr::find_master_edition_address(ctx.mint) {
        Some(d) => d,
        None => {
            return Err(Error::DerivationExhausted);
        },
    };
    if de.0 != ctx.master_edition {
        return Err(Error::AddressMismatch);
    }
    if ctx.metadata_account == ctx.mint || ctx.master_edition == ctx.mint || ctx.master_edition
        == ctx.metadata_account {
        return Err(Error::AlreadyInUse);
    }
    // Prevalidation: every condition a later step could fail on is checked
    // here, before the first mutation, so failure leaves no partial state.
    let supply0: u64 = match ledger.find_account(ctx.mint) {
        Some(i) => match &ledger.accounts[i].record {
            AccountRecord::Mint(m) => {
                if !(m.decimals == 0 && m.authority == ctx.mint && m.freeze_authority
                    == ctx.mint) {
                    return Err(Error::IncompatibleAccount);
                }
                m.supply
            },
            _ => {
                return Err(Error::IncompatibleAccount);
            },
        },
        None => 0,
    };
    if supply0 == u64::MAX {
        return Err(Error::SupplyOverflow);
    }
    let h0: u64 = match ledger.find_holding(ctx.authority, ctx.mint) {
        Some(j) => ledger.holdings[j].amount,
        None => 0,
    };
    if h0 == u64::MAX {
        return Err(Error::SupplyOverflow);
    }
    match ledger.find_account(ctx.metadata_account) {
        None => {},
        Some(i) => match &ledger.accounts[i].record {
            AccountRecord::Metadata(md) => {
                if ctx.mint != md.update_authority {
                    return Err(Error::Unauthorized);
                }
            },
            _ => {
                return Err(Error::IncompatibleAccount);
            },
        },
    }
    match ledger.find_account(ctx.master_edition) {
        None => {
            if supply0 + 1 != 1 {
                return Err(Error::IncompatibleAccount);
            }
        },
        Some(i) => match &ledger.accounts[i].record {
            AccountRecord::Edition(ed) => {
                match ed.max_supply {
                    Some(0u64) => {},
                    _ => {
                        return Err(Error::IncompatibleAccount);
                    },
                }
            },
            _ => {
                return Err(Error::IncompatibleAccount);
            },
        },
    }
    // Step 1: the collection mint, created only if absent, and one unit
    // minted into the caller's holding. From here on every step is owed
    // success: each rejection arm is proved unreachable.
    match ledger.create_mint_if_needed(ctx.mint, ctx.mint) {
        Ok(()) => {},
        Err(e) => {
            proof {
                assert(false);
            }
            return Err(e);
        },
    }
    match ledger.create_holding_if_needed(ctx.authority, ctx.mint) {
        Ok(()) => {},
        Err(e) => {
            proof {
                assert(false);
            }
            return Err(e);
        },
    }
    match ledger.mint_to(ctx.mint, ctx.authority, 1, ctx.mint) {
        Ok(()) => {},
        Err(e) => {
            proof {
                assert(false);
            }
            return Err(e);
        },
    }
    // Step 2: the collection metadata record, carrying the caller as sole
    // unverified creator and the size-zero sized-collection marker, signed by
    // the derived authority.
    match ledger.create_metadata(
        ctx.metadata_account,
        ctx.mint,
        name,
        symbol,
        uri,
        0,
        Some(CreatorEntry { address: ctx.authority, verified: false, share: 100 }),
        Some(0),
        ctx.mint,
        ctx.mint,
    ) {
        Ok(()) => {},
        Err(e) => {
            proof {
                assert(false);
            }
            return Err(e);
        },
    }
    // Step 3: the edition record, maximum supply zero.
    match ledger.create_master_edition(ctx.master_edition, ctx.mint, Some(0), ctx.mint) {
        Ok(()) => {},
        Err(e) => {
            proof {
                assert(false);
            }
            return Err(e);
        },
    }
    // Step 4: the caller signs their creator attestation.
    match ledger.sign_metadata(ctx.metadata_account, ctx.authority) {
        Ok(()) => {},
        Err(e) => {
            proof {
                assert(false);
            }
            return Err(e);
        },
    }
    Ok(())
}

/// The state-dependent rejection reason of [`create_nft_in_collection`],
/// checked once every supplied address matches its derivation.
pub open spec fn create_item_state_error(l: Ledger, ctx: CreateNftInCollection) -> Option<
    Error,
> {
    match l.account_of(ctx.collection_mint) {
        None => Some(Error::MissingAccount),
        Some(AccountRecord::Mint(_)) => if l.account_of(ctx.nft_mint) is Some {
            Some(Error::AlreadyInUse)
        } else if l.account_of(ctx.metadata_account) is Some {
            Some(Error::AlreadyInUse)
        } else if l.account_of(ctx.master_edition) is Some {
            Some(Error::AlreadyInUse)
        } else if existing_holding(l, ctx.user, ctx.nft_mint) + 1 > u64::MAX {
            Some(Error::SupplyOverflow)
        } else {
            match l.account_of(ctx.collection_metadata_account) {
                None => Some(Error::MissingAccount),
                Some(AccountRecord::Metadata(cmd)) => if cmd.mint != ctx.collection_mint {
                    Some(Error::IncompatibleAccount)
                } else if ctx.collection_mint != cmd.update_authority {
                    Some(Error::Unauthorized)
                } else {
                    match cmd.collection_details {
                        None => Some(Error::NotSizedCollection),
                        Some(size) => if size == u64::MAX {
                            Some(Error::SizeOverflow)
                        } else {
                            match l.account_of(ctx.collection_master_edition) {
                                None => Some(Error::MissingAccount),
                                Some(AccountRecord::Edition(_)) => None,
                                Some(_) => Some(Error::IncompatibleAccount),
                            }
                        },
                    }
                },
                Some(_) => Some(Error::IncompatibleAccount),
            }
        },
        Some(_) => Some(Error::IncompatibleAccount),
    }
}

/// The rejection reason of [`create_nft_in_collection`], if any.
pub open spec fn create_item_error(l: Ledger, ctx: CreateNftInCollection) -> Option<Error> {
    match addr::authority_for(addr::collection_seed_spec()) {
        None => Some(Error::DerivationExhausted),
        Some(d) => if d.0 != ctx.collection_mint {
            Some(Error::AddressMismatch)
        } else {
            match addr::metadata_address(ctx.collection_mint) {
                None => Some(Error::DerivationExhausted),
                Some(dcm) => if dcm.0 != ctx.collection_metadata_account {
                    Some(Error::AddressMismatch)
                } else {
                    match addr::edition_address(ctx.collection_mint) {
                        None => Some(Error::DerivationExhausted),
                        Some(dce) => if dce.0 != ctx.collection_master_edition {
                            Some(Error::AddressMismatch)
                        } else {
                            match addr::metadata_address(ctx.nft_mint) {
                                None => Some(Error::DerivationExhausted),
                                Some(dim) => if dim.0 != ctx.metadata_account {
                                    Some(Error::AddressMismatch)
                                } else {
                                    match addr::edition_address(ctx.nft_mint) {
                                        None => Some(Error::DerivationExhausted),
                                        Some(die) => if die.0 != ctx.master_edition {
                                            Some(Error::AddressMismatch)
                                        } else if ctx.metadata_account == ctx.nft_mint
                                            || ctx.master_edition == ctx.nft_mint
                                            || ctx.master_edition == ctx.metadata_account {
                                            Some(Error::AlreadyInUse)
                                        } else {
                                            create_item_state_error(l, ctx)
                                        },
                                    }
                                },
                            }
                        },
                    }
                },
            }
        },
    }
}

/// What a successful issuance leaves behind: a verified member of the
/// collection. The fresh item mint exists under the collection authority
/// with exactly one unit, held by the caller; the item's metadata record
/// carries the given data, no creator list, and a membership link to the
/// collection mint with its verified bit set; the item's edition record caps
/// printing at zero; the collection root's tracked size counts one more
/// member; and nothing else moved.
pub open spec fn item_established(
    pre: Ledger,
    post: Ledger,
    ctx: CreateNftInCollection,
    uri: Seq<char>,
    name: Seq<char>,
    symbol: Seq<char>,
) -> bool {
    &&& post.wf()
    &&& post.mint_of(ctx.nft_mint) matches Some(m) && m.decimals == 0 && m.authority
        == ctx.collection_mint && m.freeze_authority == ctx.collection_mint && m.supply == 1
    &&& post.holding_of(ctx.user, ctx.nft_mint) == Some(
        (existing_holding(pre, ctx.user, ctx.nft_mint) + 1) as u64,
    )
    &&& post.metadata_of(ctx.metadata_account) matches Some(md) && {
        &&& md.mint == ctx.nft_mint
        &&& md.name@ == name
        &&& md.symbol@ == symbol
        &&& md.uri@ == uri
        &&& md.seller_fee_basis_points == 0
        &&& md.creators is None
        &&& md.collection_details is None
        &&& md.collection == Some(
            (CollectionLink { key: ctx.collection_mint, verified: true }),
        )
        &&& md.update_authority == ctx.collection_mint
    }
    &&& post.edition_of(ctx.master_edition) == Some((EditionRecord { max_supply: Some(0u64) }))
    &&& pre.metadata_of(ctx.collection_metadata_account) matches Some(cmd0)
        && cmd0.collection_details matches Some(size0) && post.metadata_of(
        ctx.collection_metadata_account,
    ) == Some(
        (MetadataRecord {
            mint: cmd0.mint,
            name: cmd0.name,
            symbol: cmd0.symbol,
            uri: cmd0.uri,
            seller_fee_basis_points: cmd0.seller_fee_basis_points,
            creators: cmd0.creators,
            collection_details: Some((size0 + 1) as u64),
            collection: cmd0.collection,
            update_authority: cmd0.update_authority,
        }),
    )
    &&& forall|b: u64|
        b != ctx.nft_mint && b != ctx.metadata_account && b != ctx.master_edition && b
            != ctx.collection_metadata_account ==> post.account_of(b) == pre.account_of(b)
    &&& forall|o: u64, m: u64|
        !(o == ctx.user && m == ctx.nft_mint) ==> post.holding_of(o, m) == pre.holding_of(o, m)
    &&& post.accounts@.len() == pre.accounts@.len() + 3
    &&& post.holdings@.len() == pre.holdings@.len() + (
    if pre.holding_of(ctx.user, ctx.nft_mint) is Some {
        0int
    } else {
        1int
    })
}

/// Item issuance: creates a fresh item mint under the collection authority,
/// mints its one unit to the caller, writes the item's metadata and edition
/// records, and sets the verified membership link against the collection
/// root — as one atomic unit of work. The collection root must already exist
/// at its seed-derived addresses and carry the sized-collection marker.
pub fn create_nft_in_collection(
    ledger: &mut Ledger,
    ctx: CreateNftInCollection,
    uri: String,
    name: String,
    symbol: String,
) -> (r: Result<(), Error>)
    requires
        old(ledger).wf(),
    ensures
        final(ledger).wf(),
        r is Ok <==> create_item_error(*old(ledger), ctx) is None,
        r matches Err(e) ==> {
            &&& Some(e) == create_item_error(*old(ledger), ctx)
            &&& *final(ledger) == *old(ledger)
        },
        r is Ok ==> item_established(*old(ledger), *final(ledger), ctx, uri@, name@, symbol@),
{
    let seed = addr::collection_seed();
    let d = match addr::derive_authority(&seed) {
        Some(d) => d,
        None => {
            return Err(Error::DerivationExhausted);
        },
    };
    if d.0 != ctx.collection_mint {
        return Err(Error::AddressMismatch);
    }
    let dcm = match addr::find_metadata_address(ctx.collection_mint) {
        Some(d) => d,
        None => {
            return Err(Error::DerivationExhausted);
        },
    };
    if dcm.0 != ctx.collection_metadata_account {
        return Err(Error::AddressMismatch);
    }
    let dce = match addr::find_master_edition_address(ctx.collection_mint) {
        Some(d) => d,
        None => {
            return Err(Error::DerivationExhausted);
        },
    };
    if dce.0 != ctx.collection_master_edition {
        return Err(Error::AddressMismatch);
    }
    let dim = match addr::find_metadata_address(ctx.nft_mint) {
        Some(d) => d,
        None => {
            return Err(Error::DerivationExhausted);
        },
    };
    if dim.0 != ctx.metadata_account {
        return Err(Error::AddressMismatch);
    }
    let die = match addr::find_master_edition_address(ctx.nft_mint) {
        Some(d) => d,
        None => {
            return Err(Error::DerivationExhausted);
        },
    };
    if die.0 != ctx.master_edition {
        return Err(Error::AddressMismatch);
    }
    if ctx.metadata_account == ctx.nft_mint || ctx.master_edition == ctx.nft_mint
        || ctx.master_edition == ctx.metadata_account {
        return Err(Error::AlreadyInUse);
    }
    // Prevalidation: the collection root must be present and marked, and the
    // item's three addresses must be fresh, before the first mutation.
    match ledger.find_account(ctx.collection_mint) {
        None => {
            return Err(Error::MissingAccount);
        },
        Some(i) => match &ledger.accounts[i].record {
            AccountRecord::Mint(_) => {},
            _ => {
                return Err(Error::IncompatibleAccount);
            },
        },
    }
    if ledger.find_account(ctx.nft_mint).is_some() {
        return Err(Error::AlreadyInUse);
    }
    if ledger.find_account(ctx.metadata_account).is_some() {
        return Err(Error::AlreadyInUse);
    }
    if ledger.find_account(ctx.master_edition).is_some() {
        return Err(Error::AlreadyInUse);
    }
    let h0: u64 = match ledger.find_holding(ctx.user, ctx.nft_mint) {
        Some(j) => ledger.holdings[j].amount,
        None => 0,
    };
    if h0 == u64::MAX {
        return Err(Error::SupplyOverflow);
    }
    match ledger.find_account(ctx.collection_metadata_account) {
        None => {
            return Err(Error::MissingAccount);
        },
        Some(i) => match &ledger.accounts[i].record {
            AccountRecord::Metadata(cmd) => {
                if cmd.mint != ctx.collection_mint {
                    return Err(Error::IncompatibleAccount);
                }
                if ctx.collection_mint != cmd.update_authority {
                    return Err(Error::Unauthorized);
                }
                match cmd.collection_details {
                    None => {
                        return Err(Error::NotSizedCollection);
                    },
                    Some(size) => {
                        if size == u64::MAX {
                            return Err(Error::SizeOverflow);
                        }
                    },
                }
            },
            _ => {
                return Err(Error::IncompatibleAccount);
            },
        },
    }
    match ledger.find_account(ctx.collection_master_edition) {
        None => {
            return Err(Error::MissingAccount);
        },
        Some(i) => match &ledger.accounts[i].record {
            AccountRecord::Edition(_) => {},
            _ => {
                return Err(Error::IncompatibleAccount);
            },
        },
    }
    issue_item_steps(ledger, ctx, uri, name, symbol);
    Ok(())
}

/// The mutation phase of [`create_nft_in_collection`]: runs once every
/// precondition has been established, so every step is owed success.
fn issue_item_steps(
    ledger: &mut Ledger,
    ctx: CreateNftInCollection,
    uri: String,
    name: String,
    symbol: String,
)
    requires
        old(ledger).wf(),
        addr::metadata_address(ctx.nft_mint) matches Some(dim) && dim.0 == ctx.metadata_account,
        addr::edition_address(ctx.nft_mint) matches Some(die) && die.0 == ctx.master_edition,
        addr::metadata_address(ctx.collection_mint) matches Some(dcm) && dcm.0
            == ctx.collection_metadata_account,
        addr::edition_address(ctx.collection_mint) matches Some(dce) && dce.0
            == ctx.collection_master_edition,
        ctx.metadata_account != ctx.nft_mint,
        ctx.master_edition != ctx.nft_mint,
        ctx.master_edition != ctx.metadata_account,
        create_item_state_error(*old(ledger), ctx) is None,
    ensures
        final(ledger).wf(),
        item_established(*old(ledger), *final(ledger), ctx, uri@, name@, symbol@),
{
    let ghost l0 = *ledger;
    issue_item_token_phase(ledger, ctx);
    proof {
        assert(ledger.account_of(ctx.collection_metadata_account) == l0.account_of(
            ctx.collection_metadata_account,
        ));
        assert(ledger.account_of(ctx.collection_master_edition) == l0.account_of(
            ctx.collection_master_edition,
        ));
        assert(ledger.account_of(ctx.metadata_account) == l0.account_of(ctx.metadata_account));
        assert(ledger.account_of(ctx.master_edition) == l0.account_of(ctx.master_edition));
    }
    issue_item_registry_phase(ledger, ctx, uri, name, symbol);
}

/// The token-ledger steps of an issuance: the fresh item mint under the
/// collection authority, and its one unit minted into the caller's holding.
fn issue_item_token_phase(ledger: &mut Ledger, ctx: CreateNftInCollection)
    requires
        old(ledger).wf(),
        old(ledger).account_of(ctx.nft_mint) is None,
        existing_holding(*old(ledger), ctx.user, ctx.nft_mint) + 1 <= u64::MAX,
    ensures
        final(ledger).wf(),
        final(ledger).mint_of(ctx.nft_mint) matches Some(m) && m.decimals == 0 && m.authority
            == ctx.collection_mint && m.freeze_authority == ctx.collection_mint && m.supply == 1,
        final(ledger).holding_of(ctx.user, ctx.nft_mint) == Some(
            (existing_holding(*old(ledger), ctx.user, ctx.nft_mint) + 1) as u64,
        ),
        forall|b: u64|
            b != ctx.nft_mint ==> final(ledger).account_of(b) == old(ledger).account_of(b),
        forall|o: u64, m: u64|
            !(o == ctx.user && m == ctx.nft_mint) ==> final(ledger).holding_of(o, m) == old(
                ledger,
            ).holding_of(o, m),
        final(ledger).accounts@.len() == old(ledger).accounts@.len() + 1,
        final(ledger).holdings@.len() == old(ledger).holdings@.len() + (
        if old(ledger).holding_of(ctx.user, ctx.nft_mint) is Some {
            0int
        } else {
            1int
        }),
{
    match ledger.create_mint(ctx.nft_mint, ctx.collection_mint) {
        Ok(()) => {},
        Err(_) => {
            proof {
                assert(false);
            }
            return;
        },
    }
    match ledger.create_holding_if_needed(ctx.user, ctx.nft_mint) {
        Ok(()) => {},
        Err(_) => {
            proof {
                assert(false);
            }
            return;
        },
    }
    match ledger.mint_to(ctx.nft_mint, ctx.user, 1, ctx.collection_mint) {
        Ok(()) => {},
        Err(_) => {
            proof {
                assert(false);
            }
            return;
        },
    }
}

/// The registry steps of an issuance: the item's metadata and edition
/// records, then the verified membership link against the marked collection
/// root.
#[verifier::rlimit(100)]
fn issue_item_registry_phase(
    ledger: &mut Ledger,
    ctx: CreateNftInCollection,
    uri: String,
    name: String,
    symbol: String,
)
    requires
        old(ledger).wf(),
        addr::metadata_address(ctx.nft_mint) matches Some(dim) && dim.0 == ctx.metadata_account,
        addr::edition_address(ctx.nft_mint) matches Some(die) && die.0 == ctx.master_edition,
        addr::metadata_address(ctx.collection_mint) matches Some(dcm) && dcm.0
            == ctx.collection_metadata_account,
        addr::edition_address(ctx.collection_mint) matches Some(dce) && dce.0
            == ctx.collection_master_edition,
        ctx.metadata_account != ctx.nft_mint,
        ctx.master_edition != ctx.nft_mint,
        ctx.master_edition != ctx.metadata_account,
        old(ledger).mint_of(ctx.nft_mint) matches Some(m) && m.decimals == 0 && m.supply == 1
            && m.authority == ctx.collection_mint,
        old(ledger).account_of(ctx.metadata_account) is None,
        old(ledger).account_of(ctx.master_edition) is None,
        old(ledger).metadata_of(ctx.collection_metadata_account) matches Some(cmd) && cmd.mint
            == ctx.collection_mint && cmd.update_authority == ctx.collection_mint
            && (cmd.collection_details matches Some(size) && size < u64::MAX),
        old(ledger).edition_of(ctx.collection_master_edition) is Some,
    ensures
        final(ledger).wf(),
        final(ledger).metadata_of(ctx.metadata_account) matches Some(md) && {
            &&& md.mint == ctx.nft_mint
            &&& md.name@ == name@
            &&& md.symbol@ == symbol@
            &&& md.uri@ == uri@
            &&& md.seller_fee_basis_points == 0
            &&& md.creators is None
            &&& md.collection_details is None
            &&& md.collection == Some(
                (CollectionLink { key: ctx.collection_mint, verified: true }),
            )
            &&& md.update_authority == ctx.collection_mint
        },
        final(ledger).edition_of(ctx.master_edition) == Some(
            (EditionRecord { max_supply: Some(0u64) }),
        ),
        old(ledger).metadata_of(ctx.collection_metadata_account) matches Some(cmd0)
            && cmd0.collection_details matches Some(size0) && final(ledger).metadata_of(
            ctx.collection_metadata_account,
        ) == Some(
            (MetadataRecord {
                mint: cmd0.mint,
                name: cmd0.name,
                symbol: cmd0.symbol,
                uri: cmd0.uri,
                seller_fee_basis_points: cmd0.seller_fee_basis_points,
                creators: cmd0.creators,
                collection_details: Some((size0 + 1) as u64),
                collection: cmd0.collection,
                update_authority: cmd0.update_authority,
            }),
        ),
        forall|b: u64|
            b != ctx.metadata_account && b != ctx.master_edition && b
                != ctx.collection_metadata_account ==> final(ledger).account_of(b) == old(
                ledger,
            ).account_of(b),
        final(ledger).holdings@ == old(ledger).holdings@,
        final(ledger).accounts@.len() == old(ledger).accounts@.len() + 2,
{
    match ledger.create_metadata(
        ctx.metadata_account,
        ctx.nft_mint,
        name,
        symbol,
        uri,
        0,
        None,
        None,
        ctx.collection_mint,
        ctx.collection_mint,
    ) {
        Ok(()) => {},
        Err(_) => {
            proof {
                assert(false);
            }
            return;
        },
    }
    match ledger.create_master_edition(
        ctx.master_edition,
        ctx.nft_mint,
        Some(0),
        ctx.collection_mint,
    ) {
        Ok(()) => {},
        Err(_) => {
            proof {
                assert(false);
            }
            return;
        },
    }
    match ledger.set_and_verify_sized_collection_item(
        ctx.metadata_account,
        ctx.collection_mint,
        ctx.collection_metadata_account,
        ctx.collection_master_edition,
        ctx.collection_mint,
    ) {
        Ok(()) => {},
        Err(_) => {
            proof {
                assert(false);
            }
            return;
        },
    }
}

} // verus!
