//! The protocol's laws, proved once and for all against the spec functions
//! that the workflows' contracts are stated over.

use vstd::prelude::*;
use crate::records::{CollectionLink, Error};
use crate::ledger::{AccountRecord, Ledger};
use crate::program::{
    CreateCollectionNft, CreateNftInCollection, create_collection_error,
    create_item_error, collection_established, item_established, existing_supply,
    existing_holding,
};
use crate::addr;

verus! {

/// Law: authority derivation is deterministic. Any two results obtained for
/// the same seed — in either workflow or by an outside verifier — are
/// identical, address and bump alike.
pub proof fn lemma_derive_deterministic(
    seed: Seq<u8>,
    r1: Option<(u64, u8)>,
    r2: Option<(u64, u8)>,
)
    requires
        r1 == addr::authority_for(seed),
        r2 == addr::authority_for(seed),
    ensures
        r1 == r2,
{
}

/// Law: collection bootstrap is idempotent. A state left by a successful
/// bootstrap accepts the same bootstrap again, as long as the supply and the
/// caller's balance can still count one more unit.
pub proof fn lemma_bootstrap_idempotent(
    pre: Ledger,
    mid: Ledger,
    ctx: CreateCollectionNft,
    uri: Seq<char>,
    name: Seq<char>,
    symbol: Seq<char>,
)
    requires
        create_collection_error(pre, ctx) is None,
        collection_established(pre, mid, ctx, uri, name, symbol),
        existing_supply(mid, ctx.mint) < u64::MAX,
        existing_holding(mid, ctx.authority, ctx.mint) < u64::MAX,
    ensures
        create_collection_error(mid, ctx) is None,
{
}

/// Law: re-running a bootstrap duplicates nothing. The second success keeps
/// exactly one collection mint, one metadata record and one edition record:
/// the account and holding tables do not grow.
pub proof fn lemma_bootstrap_no_duplication(
    pre: Ledger,
    mid: Ledger,
    post: Ledger,
    ctx: CreateCollectionNft,
    uri1: Seq<char>,
    name1: Seq<char>,
    symbol1: Seq<char>,
    uri2: Seq<char>,
    name2: Seq<char>,
    symbol2: Seq<char>,
)
    requires
        collection_established(pre, mid, ctx, uri1, name1, symbol1),
        collection_established(mid, post, ctx, uri2, name2, symbol2),
    ensures
        post.accounts@.len() == mid.accounts@.len(),
        post.holdings@.len() == mid.holdings@.len(),
{
}

/// Law: every successful issuance leaves the item's metadata record with its
/// verified bit set and its membership reference equal to exactly the
/// collection mint the call was made against.
pub proof fn lemma_item_link_verified(
    pre: Ledger,
    post: Ledger,
    ctx: CreateNftInCollection,
    uri: Seq<char>,
    name: Seq<char>,
    symbol: Seq<char>,
)
    requires
        item_established(pre, post, ctx, uri, name, symbol),
    ensures
        post.metadata_of(ctx.metadata_account) matches Some(md) && md.collection == Some(
            (CollectionLink { key: ctx.collection_mint, verified: true }),
        ),
{
}

/// Law: issuance demands a marked root. Against a collection mint whose
/// metadata record is absent the call is rejected as missing, and against
/// one whose record lacks the sized-collection marker it is rejected as not
/// a sized collection — in both cases before any mutation, by the
/// all-or-nothing contract of `create_nft_in_collection`.
pub proof fn lemma_issuance_requires_marked_root(l: Ledger, ctx: CreateNftInCollection)
    requires
        addr::authority_for(addr::collection_seed_spec()) matches Some(d) && d.0
            == ctx.collection_mint,
        addr::metadata_address(ctx.collection_mint) matches Some(dcm) && dcm.0
            == ctx.collection_metadata_account,
        addr::edition_address(ctx.collection_mint) matches Some(dce) && dce.0
            == ctx.collection_master_edition,
        addr::metadata_address(ctx.nft_mint) matches Some(dim) && dim.0 == ctx.metadata_account,
        addr::edition_address(ctx.nft_mint) matches Some(die) && die.0 == ctx.master_edition,
        ctx.metadata_account != ctx.nft_mint,
        ctx.master_edition != ctx.nft_mint,
        ctx.master_edition != ctx.metadata_account,
        l.account_of(ctx.collection_mint) matches Some(AccountRecord::Mint(_)),
        l.account_of(ctx.nft_mint) is None,
        l.account_of(ctx.metadata_account) is None,
        l.account_of(ctx.master_edition) is None,
        existing_holding(l, ctx.user, ctx.nft_mint) < u64::MAX,
    ensures
        l.account_of(ctx.collection_metadata_account) is None ==> create_item_error(l, ctx)
            == Some(Error::MissingAccount),
        l.metadata_of(ctx.collection_metadata_account) matches Some(cmd) && cmd.mint
            == ctx.collection_mint && cmd.update_authority == ctx.collection_mint
            && cmd.collection_details is None ==> create_item_error(l, ctx) == Some(
            Error::NotSizedCollection,
        ),
{
}

/// Law: a supplied collection mint address that does not match the seed
/// derivation is rejected as a mismatch — before any mutation, by the
/// all-or-nothing contracts of both workflows.
pub proof fn lemma_wrong_address_rejected(
    l: Ledger,
    bctx: CreateCollectionNft,
    ictx: CreateNftInCollection,
)
    requires
        addr::authority_for(addr::collection_seed_spec()) matches Some(d) && d.0 != bctx.mint
            && d.0 != ictx.collection_mint,
    ensures
        create_collection_error(l, bctx) == Some(Error::AddressMismatch),
        create_item_error(l, ictx) == Some(Error::AddressMismatch),
{
}

/// Law: success is owed to a well-formed request against an established
/// root. When every supplied address matches its derivation, the root is
/// present and marked with room to count one more member, and the item's
/// three addresses are fresh, issuance accepts.
pub proof fn lemma_rooted_accepts_issuance(l: Ledger, ctx: CreateNftInCollection)
    requires
        addr::authority_for(addr::collection_seed_spec()) matches Some(d) && d.0
            == ctx.collection_mint,
        addr::metadata_address(ctx.collection_mint) matches Some(dcm) && dcm.0
            == ctx.collection_metadata_account,
        addr::edition_address(ctx.collection_mint) matches Some(dce) && dce.0
            == ctx.collection_master_edition,
        addr::metadata_address(ctx.nft_mint) matches Some(dim) && dim.0 == ctx.metadata_account,
        addr::edition_address(ctx.nft_mint) matches Some(die) && die.0 == ctx.master_edition,
        ctx.metadata_account != ctx.nft_mint,
        ctx.master_edition != ctx.nft_mint,
        ctx.master_edition != ctx.metadata_account,
        l.account_of(ctx.collection_mint) matches Some(AccountRecord::Mint(_)),
        l.account_of(ctx.nft_mint) is None,
        l.account_of(ctx.metadata_account) is None,
        l.account_of(ctx.master_edition) is None,
        existing_holding(l, ctx.user, ctx.nft_mint) < u64::MAX,
        l.metadata_of(ctx.collection_metadata_account) matches Some(cmd) && cmd.mint
            == ctx.collection_mint && cmd.update_authority == ctx.collection_mint
            && (cmd.collection_details matches Some(size) && size < u64::MAX),
        l.edition_of(ctx.collection_master_edition) is Some,
    ensures
        create_item_error(l, ctx) is None,
{
}

/// Law: issuance leaves the root intact. After a successful issuance the
/// collection mint's record is unchanged and the root's metadata record is
/// still marked as a sized collection — now counting one more member — so a
/// further issuance against the same root is still owed success. Two items
/// issued against one root link to it independently.
pub proof fn lemma_issuance_preserves_root(
    pre: Ledger,
    post: Ledger,
    ctx: CreateNftInCollection,
    uri: Seq<char>,
    name: Seq<char>,
    symbol: Seq<char>,
)
    requires
        item_established(pre, post, ctx, uri, name, symbol),
        pre.account_of(ctx.collection_mint) matches Some(AccountRecord::Mint(_)),
        ctx.collection_mint != ctx.nft_mint,
        ctx.collection_mint != ctx.metadata_account,
        ctx.collection_mint != ctx.master_edition,
        ctx.collection_master_edition != ctx.nft_mint,
        ctx.collection_master_edition != ctx.metadata_account,
        ctx.collection_master_edition != ctx.master_edition,
        ctx.collection_master_edition != ctx.collection_metadata_account,
    ensures
        post.account_of(ctx.collection_mint) == pre.account_of(ctx.collection_mint),
        post.metadata_of(ctx.collection_metadata_account) matches Some(cmd) && (
        pre.metadata_of(ctx.collection_metadata_account) matches Some(cmd0) && {
            &&& cmd.mint == cmd0.mint
            &&& cmd.update_authority == cmd0.update_authority
            &&& cmd.collection_details == Some(
                (cmd0.collection_details.unwrap() + 1) as u64,
            )
        }),
        post.account_of(ctx.collection_master_edition) == pre.account_of(
            ctx.collection_master_edition,
        ),
{
}

} // verus!
