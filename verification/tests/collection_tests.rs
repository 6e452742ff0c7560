use nft_collection::addr::{
    collection_seed, derive_authority, find_master_edition_address, find_metadata_address,
};
use nft_collection::ledger::{AccountEntry, AccountRecord, Ledger};
use nft_collection::program::{create_collection_nft, CreateCollectionNft};
use nft_collection::records::{CreatorEntry, Error, MetadataRecord, MintRecord};

const CALLER: u64 = 42;

fn collection_ctx(authority: u64) -> CreateCollectionNft {
    let seed = collection_seed();
    let (mint, _) = derive_authority(&seed).unwrap();
    let (metadata_account, _) = find_metadata_address(mint).unwrap();
    let (master_edition, _) = find_master_edition_address(mint).unwrap();
    CreateCollectionNft {
        authority,
        mint,
        metadata_account,
        master_edition,
    }
}

fn metadata_record_at(l: &Ledger, address: u64) -> MetadataRecord {
    let i = l.find_account(address).unwrap();
    match &l.accounts[i].record {
        AccountRecord::Metadata(md) => MetadataRecord {
            mint: md.mint,
            name: md.name.clone(),
            symbol: md.symbol.clone(),
            uri: md.uri.clone(),
            seller_fee_basis_points: md.seller_fee_basis_points,
            creators: md.creators,
            collection_details: md.collection_details,
            collection: md.collection,
            update_authority: md.update_authority,
        },
        _ => panic!("not a metadata record"),
    }
}

fn mint_record_at(l: &Ledger, address: u64) -> MintRecord {
    let i = l.find_account(address).unwrap();
    match &l.accounts[i].record {
        AccountRecord::Mint(m) => *m,
        _ => panic!("not a mint record"),
    }
}

#[test]
fn derivation_is_deterministic() {
    let seed = collection_seed();
    let a = derive_authority(&seed).unwrap();
    let b = derive_authority(&seed).unwrap();
    assert_eq!(a, b);
    let (mint, _) = a;
    assert_eq!(
        find_metadata_address(mint).unwrap(),
        find_metadata_address(mint).unwrap()
    );
    assert_eq!(
        find_master_edition_address(mint).unwrap(),
        find_master_edition_address(mint).unwrap()
    );
}

#[test]
fn derived_addresses_are_distinct() {
    let ctx = collection_ctx(CALLER);
    assert_ne!(ctx.mint, ctx.metadata_account);
    assert_ne!(ctx.mint, ctx.master_edition);
    assert_ne!(ctx.metadata_account, ctx.master_edition);
}

#[test]
fn create_collection_builds_the_root() {
    let mut l = Ledger::new();
    let ctx = collection_ctx(CALLER);
    let r = create_collection_nft(
        &mut l,
        ctx,
        "ipfs://coll.json".to_string(),
        "MyColl".to_string(),
        "MC".to_string(),
    );
    assert!(r.is_ok());

    let m = mint_record_at(&l, ctx.mint);
    assert_eq!(m.decimals, 0);
    assert_eq!(m.supply, 1);
    assert_eq!(m.authority, ctx.mint);
    assert_eq!(m.freeze_authority, ctx.mint);

    let md = metadata_record_at(&l, ctx.metadata_account);
    assert_eq!(md.mint, ctx.mint);
    assert_eq!(md.name, "MyColl".to_string());
    assert_eq!(md.symbol, "MC".to_string());
    assert_eq!(md.uri, "ipfs://coll.json".to_string());
    assert_eq!(md.seller_fee_basis_points, 0);
    assert_eq!(
        md.creators,
        Some(CreatorEntry {
            address: CALLER,
            verified: true,
            share: 100,
        })
    );
    assert_eq!(md.collection_details, Some(0));
    assert_eq!(md.collection, None);
    assert_eq!(md.update_authority, ctx.mint);

    let i = l.find_account(ctx.master_edition).unwrap();
    match &l.accounts[i].record {
        AccountRecord::Edition(ed) => assert_eq!(ed.max_supply, Some(0)),
        _ => panic!("not an edition record"),
    }

    let j = l.find_holding(CALLER, ctx.mint).unwrap();
    assert_eq!(l.holdings[j].amount, 1);
}

#[test]
fn create_collection_twice_succeeds_without_duplicates() {
    let mut l = Ledger::new();
    let ctx = collection_ctx(CALLER);
    let r1 = create_collection_nft(
        &mut l,
        ctx,
        "ipfs://coll.json".to_string(),
        "MyColl".to_string(),
        "MC".to_string(),
    );
    assert!(r1.is_ok());
    let accounts_after_first = l.accounts.len();
    let holdings_after_first = l.holdings.len();
    assert_eq!(accounts_after_first, 3);

    let r2 = create_collection_nft(
        &mut l,
        ctx,
        "ipfs://coll.json".to_string(),
        "MyColl".to_string(),
        "MC".to_string(),
    );
    assert!(r2.is_ok());
    assert_eq!(l.accounts.len(), accounts_after_first);
    assert_eq!(l.holdings.len(), holdings_after_first);

    let md = metadata_record_at(&l, ctx.metadata_account);
    assert_eq!(md.collection_details, Some(0));
    assert_eq!(
        md.creators,
        Some(CreatorEntry {
            address: CALLER,
            verified: true,
            share: 100,
        })
    );
    let m = mint_record_at(&l, ctx.mint);
    assert_eq!(m.supply, 2);
}

#[test]
fn create_collection_rejects_wrong_mint_address() {
    let mut l = Ledger::new();
    let mut ctx = collection_ctx(CALLER);
    ctx.mint = ctx.mint.wrapping_add(1);
    let r = create_collection_nft(
        &mut l,
        ctx,
        "u".to_string(),
        "n".to_string(),
        "s".to_string(),
    );
    assert_eq!(r, Err(Error::AddressMismatch));
    assert_eq!(l.accounts.len(), 0);
    assert_eq!(l.holdings.len(), 0);
}

#[test]
fn create_collection_rejects_foreign_account_at_mint_address() {
    let mut l = Ledger::new();
    let ctx = collection_ctx(CALLER);
    l.accounts.push(AccountEntry {
        address: ctx.mint,
        record: AccountRecord::Metadata(MetadataRecord {
            mint: 7,
            name: "x".to_string(),
            symbol: "x".to_string(),
            uri: "x".to_string(),
            seller_fee_basis_points: 0,
            creators: None,
            collection_details: None,
            collection: None,
            update_authority: 7,
        }),
    });
    let r = create_collection_nft(
        &mut l,
        ctx,
        "u".to_string(),
        "n".to_string(),
        "s".to_string(),
    );
    assert_eq!(r, Err(Error::IncompatibleAccount));
    assert_eq!(l.accounts.len(), 1);
    assert_eq!(l.holdings.len(), 0);
}

#[test]
fn create_collection_rejects_exhausted_supply() {
    let mut l = Ledger::new();
    let ctx = collection_ctx(CALLER);
    l.accounts.push(AccountEntry {
        address: ctx.mint,
        record: AccountRecord::Mint(MintRecord {
            decimals: 0,
            supply: u64::MAX,
            authority: ctx.mint,
            freeze_authority: ctx.mint,
        }),
    });
    let r = create_collection_nft(
        &mut l,
        ctx,
        "u".to_string(),
        "n".to_string(),
        "s".to_string(),
    );
    assert_eq!(r, Err(Error::SupplyOverflow));
    assert_eq!(l.accounts.len(), 1);
    assert_eq!(l.holdings.len(), 0);
}
