use nft_collection::addr::{
    collection_seed, derive_authority, find_master_edition_address, find_metadata_address,
};
use nft_collection::ledger::{AccountRecord, Ledger};
use nft_collection::program::{
    create_collection_nft, create_nft_in_collection, CreateCollectionNft, CreateNftInCollection,
};
use nft_collection::records::{CollectionLink, Error, MetadataRecord};

const CALLER: u64 = 42;
const BUYER: u64 = 77;

fn collection_ctx(authority: u64) -> CreateCollectionNft {
    let seed = collection_seed();
    let (mint, _) = derive_authority(&seed).unwrap();
    let (metadata_account, _) = find_metadata_address(mint).unwrap();
    let (master_edition, _) = find_master_edition_address(mint).unwrap();
    CreateCollectionNft {
        authority,
        mint,
        metadata_account,
        master_edition,
    }
}

fn item_ctx(user: u64, nft_mint: u64) -> CreateNftInCollection {
    let seed = collection_seed();
    let (collection_mint, _) = derive_authority(&seed).unwrap();
    let (collection_metadata_account, _) = find_metadata_address(collection_mint).unwrap();
    let (collection_master_edition, _) = find_master_edition_address(collection_mint).unwrap();
    let (metadata_account, _) = find_metadata_address(nft_mint).unwrap();
    let (master_edition, _) = find_master_edition_address(nft_mint).unwrap();
    CreateNftInCollection {
        user,
        collection_mint,
        collection_metadata_account,
        collection_master_edition,
        nft_mint,
        metadata_account,
        master_edition,
    }
}

fn bootstrapped_ledger() -> Ledger {
    let mut l = Ledger::new();
    let ctx = collection_ctx(CALLER);
    let r = create_collection_nft(
        &mut l,
        ctx,
        "ipfs://coll.json".to_string(),
        "MyColl".to_string(),
        "MC".to_string(),
    );
    assert!(r.is_ok());
    l
}

fn metadata_fields_at(l: &Ledger, address: u64) -> (u64, Option<CollectionLink>, Option<u64>) {
    let i = l.find_account(address).unwrap();
    match &l.accounts[i].record {
        AccountRecord::Metadata(md) => (md.mint, md.collection, md.collection_details),
        _ => panic!("not a metadata record"),
    }
}

#[test]
fn issued_item_is_a_verified_member() {
    let mut l = bootstrapped_ledger();
    let ctx = item_ctx(BUYER, 1000);
    let r = create_nft_in_collection(
        &mut l,
        ctx,
        "ipfs://item1.json".to_string(),
        "Item #1".to_string(),
        "MC".to_string(),
    );
    assert!(r.is_ok());

    let i = l.find_account(ctx.metadata_account).unwrap();
    match &l.accounts[i].record {
        AccountRecord::Metadata(md) => {
            assert_eq!(md.mint, ctx.nft_mint);
            assert_eq!(md.name, "Item #1".to_string());
            assert_eq!(md.uri, "ipfs://item1.json".to_string());
            assert_eq!(md.creators, None);
            assert_eq!(md.collection_details, None);
            assert_eq!(
                md.collection,
                Some(CollectionLink {
                    key: ctx.collection_mint,
                    verified: true,
                })
            );
        }
        _ => panic!("not a metadata record"),
    }

    let e = l.find_account(ctx.master_edition).unwrap();
    match &l.accounts[e].record {
        AccountRecord::Edition(ed) => assert_eq!(ed.max_supply, Some(0)),
        _ => panic!("not an edition record"),
    }

    let j = l.find_holding(BUYER, ctx.nft_mint).unwrap();
    assert_eq!(l.holdings[j].amount, 1);

    // The root now counts one member.
    let (_, _, details) = metadata_fields_at(&l, ctx.collection_metadata_account);
    assert_eq!(details, Some(1));
}

#[test]
fn two_items_link_to_the_same_root_independently() {
    let mut l = bootstrapped_ledger();
    let ctx1 = item_ctx(BUYER, 1000);
    let r1 = create_nft_in_collection(
        &mut l,
        ctx1,
        "ipfs://item1.json".to_string(),
        "Item #1".to_string(),
        "MC".to_string(),
    );
    assert!(r1.is_ok());

    let ctx2 = item_ctx(BUYER, 2000);
    let r2 = create_nft_in_collection(
        &mut l,
        ctx2,
        "ipfs://item2.json".to_string(),
        "Item #2".to_string(),
        "MC".to_string(),
    );
    assert!(r2.is_ok());

    assert_ne!(ctx1.nft_mint, ctx2.nft_mint);
    let (m1, link1, _) = metadata_fields_at(&l, ctx1.metadata_account);
    let (m2, link2, _) = metadata_fields_at(&l, ctx2.metadata_account);
    assert_eq!(m1, ctx1.nft_mint);
    assert_eq!(m2, ctx2.nft_mint);
    let expected = Some(CollectionLink {
        key: ctx1.collection_mint,
        verified: true,
    });
    assert_eq!(link1, expected);
    assert_eq!(link2, expected);

    let (_, _, details) = metadata_fields_at(&l, ctx1.collection_metadata_account);
    assert_eq!(details, Some(2));
}

#[test]
fn reusing_an_item_mint_fails_without_mutation() {
    let mut l = bootstrapped_ledger();
    let ctx = item_ctx(BUYER, 1000);
    let r1 = create_nft_in_collection(
        &mut l,
        ctx,
        "ipfs://item1.json".to_string(),
        "Item #1".to_string(),
        "MC".to_string(),
    );
    assert!(r1.is_ok());
    let accounts_before = l.accounts.len();
    let holdings_before = l.holdings.len();

    let r2 = create_nft_in_collection(
        &mut l,
        ctx,
        "ipfs://item1b.json".to_string(),
        "Item #1b".to_string(),
        "MC".to_string(),
    );
    assert_eq!(r2, Err(Error::AlreadyInUse));
    assert_eq!(l.accounts.len(), accounts_before);
    assert_eq!(l.holdings.len(), holdings_before);
}

#[test]
fn issuance_rejects_wrong_collection_mint_address() {
    let mut l = bootstrapped_ledger();
    let accounts_before = l.accounts.len();
    let holdings_before = l.holdings.len();
    let mut ctx = item_ctx(BUYER, 1000);
    ctx.collection_mint = ctx.collection_mint.wrapping_add(1);
    let r = create_nft_in_collection(
        &mut l,
        ctx,
        "u".to_string(),
        "n".to_string(),
        "s".to_string(),
    );
    assert_eq!(r, Err(Error::AddressMismatch));
    assert_eq!(l.accounts.len(), accounts_before);
    assert_eq!(l.holdings.len(), holdings_before);
}

#[test]
fn issuance_fails_when_collection_metadata_is_absent() {
    let mut l = Ledger::new();
    let seed = collection_seed();
    let (collection_mint, _) = derive_authority(&seed).unwrap();
    // A collection mint exists, but bootstrap never wrote its metadata.
    let r = l.create_mint(collection_mint, collection_mint);
    assert!(r.is_ok());
    let accounts_before = l.accounts.len();

    let ctx = item_ctx(BUYER, 1000);
    let r = create_nft_in_collection(
        &mut l,
        ctx,
        "u".to_string(),
        "n".to_string(),
        "s".to_string(),
    );
    assert_eq!(r, Err(Error::MissingAccount));
    assert_eq!(l.accounts.len(), accounts_before);
    assert_eq!(l.holdings.len(), 0);
}

#[test]
fn issuance_fails_when_root_marker_is_absent() {
    let mut l = bootstrapped_ledger();
    let ctx = item_ctx(BUYER, 1000);
    // Strip the sized-collection marker from the root's metadata record.
    let i = l.find_account(ctx.collection_metadata_account).unwrap();
    if let AccountRecord::Metadata(md) = &mut l.accounts[i].record {
        md.collection_details = None;
    } else {
        panic!("not a metadata record");
    }
    let accounts_before = l.accounts.len();
    let holdings_before = l.holdings.len();

    let r = create_nft_in_collection(
        &mut l,
        ctx,
        "u".to_string(),
        "n".to_string(),
        "s".to_string(),
    );
    assert_eq!(r, Err(Error::NotSizedCollection));
    assert_eq!(l.accounts.len(), accounts_before);
    assert_eq!(l.holdings.len(), holdings_before);
}

#[test]
fn issuance_fails_when_root_size_cannot_grow() {
    let mut l = bootstrapped_ledger();
    let ctx = item_ctx(BUYER, 1000);
    let i = l.find_account(ctx.collection_metadata_account).unwrap();
    if let AccountRecord::Metadata(md) = &mut l.accounts[i].record {
        md.collection_details = Some(u64::MAX);
    } else {
        panic!("not a metadata record");
    }
    let r = create_nft_in_collection(
        &mut l,
        ctx,
        "u".to_string(),
        "n".to_string(),
        "s".to_string(),
    );
    assert_eq!(r, Err(Error::SizeOverflow));
}

#[test]
fn mint_to_rejects_a_foreign_signer() {
    let mut l = bootstrapped_ledger();
    let seed = collection_seed();
    let (collection_mint, _) = derive_authority(&seed).unwrap();
    let r = l.mint_to(collection_mint, CALLER, 1, CALLER);
    assert_eq!(r, Err(Error::Unauthorized));
}

#[test]
fn mint_to_rejects_a_missing_mint() {
    let mut l = Ledger::new();
    let r = l.mint_to(5, CALLER, 1, 5);
    assert_eq!(r, Err(Error::MissingAccount));
}

#[test]
fn sign_metadata_demands_a_recorded_creator() {
    let mut l = bootstrapped_ledger();
    let ctx = item_ctx(BUYER, 1000);
    let r = create_nft_in_collection(
        &mut l,
        ctx,
        "ipfs://item1.json".to_string(),
        "Item #1".to_string(),
        "MC".to_string(),
    );
    assert!(r.is_ok());
    // The item's metadata record carries no creator list.
    let r = l.sign_metadata(ctx.metadata_account, BUYER);
    assert_eq!(r, Err(Error::CreatorMissing));
}

#[test]
fn a_verified_link_cannot_be_restated() {
    let mut l = bootstrapped_ledger();
    let ctx = item_ctx(BUYER, 1000);
    let r = create_nft_in_collection(
        &mut l,
        ctx,
        "ipfs://item1.json".to_string(),
        "Item #1".to_string(),
        "MC".to_string(),
    );
    assert!(r.is_ok());
    let r = l.set_and_verify_sized_collection_item(
        ctx.metadata_account,
        ctx.collection_mint,
        ctx.collection_metadata_account,
        ctx.collection_master_edition,
        ctx.collection_mint,
    );
    assert_eq!(r, Err(Error::AlreadyVerified));
}

#[test]
fn create_metadata_rejects_a_mismatched_address() {
    let mut l = bootstrapped_ledger();
    let seed = collection_seed();
    let (collection_mint, _) = derive_authority(&seed).unwrap();
    let r = l.create_metadata(
        12345,
        collection_mint,
        "n".to_string(),
        "s".to_string(),
        "u".to_string(),
        0,
        None,
        None,
        collection_mint,
        collection_mint,
    );
    assert_eq!(r, Err(Error::AddressMismatch));
}

#[test]
fn a_holding_needs_its_mint() {
    let mut l = Ledger::new();
    let r = l.create_holding_if_needed(CALLER, 5);
    assert_eq!(r, Err(Error::MissingAccount));
    assert_eq!(l.holdings.len(), 0);
}
