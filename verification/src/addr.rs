//! Deterministic address derivation.
//!
//! Every address in the model is a 64-bit value. Program-derived addresses
//! are computed, never drawn from a key: a digest is folded over the seed
//! bytes, combined with the owning program's identity and a one-byte "bump"
//! disambiguator, and the bump search walks upward from zero until the first
//! viable candidate. Re-derivation is a pure function of the inputs, so both
//! workflows and any outside verifier recompute the same address.

use vstd::prelude::*;

verus! {

/// Odd multiplier used by the digest step.
pub const MIX_MULT: u64 = 0x9E37_79B9_7F4A_7C15;

/// Starting value of the byte digest.
pub const DIGEST_INIT: u64 = 0x243F_6A88_85A3_08D3;

/// Identity of the issuance program itself; collection authorities are
/// derived under it.
pub const NFT_PROGRAM_ID: u64 = 0x6CC1_0A2D_41EF_910A;

/// Identity of the metadata registry collaborator; metadata and edition
/// record addresses are derived under it.
pub const METADATA_PROGRAM_ID: u64 = 0x0B7A_55C1_D00C_4E21;

/// Role tag folded into the derivation of a metadata record address.
pub const METADATA_TAG: u64 = 1;

/// Role tag folded into the derivation of an edition record address.
pub const EDITION_TAG: u64 = 2;

/// One digest step: xor the next value in, then multiply modulo 2^64.
pub open spec fn mix_step_spec(h: u64, x: u64) -> u64 {
    ((((h ^ x) as u128) * (MIX_MULT as u128)) % 0x1_0000_0000_0000_0000) as u64
}

/// Executable digest step.
pub fn mix_step(h: u64, x: u64) -> (r: u64)
    ensures
        r == mix_step_spec(h, x),
{
    let y: u64 = h ^ x;
    proof {
        assert((y as int) * (MIX_MULT as int)
            < 0x1_0000_0000_0000_0000_0000_0000_0000_0000) by (nonlinear_arith)
            requires
                y as int <= 0xFFFF_FFFF_FFFF_FFFF,
                MIX_MULT as int <= 0xFFFF_FFFF_FFFF_FFFF,
        ;
    }
    let wide: u128 = (y as u128) * (MIX_MULT as u128);
    let low: u128 = wide % 0x1_0000_0000_0000_0000u128;
    low as u64
}

/// Digest of a byte string, folded left to right.
pub open spec fn bytes_digest(s: Seq<u8>) -> u64
    decreases s.len(),
{
    if s.len() == 0 {
        DIGEST_INIT
    } else {
        mix_step_spec(bytes_digest(s.drop_last()), s.last() as u64)
    }
}

/// Executable digest of a byte string.
pub fn digest_bytes(s: &Vec<u8>) -> (r: u64)
    ensures
        r == bytes_digest(s@),
{
    let mut h: u64 = DIGEST_INIT;
    let mut i: usize = 0;
    while i < s.len()
        invariant
            i <= s.len(),
            h == bytes_digest(s@.subrange(0, i as int)),
        decreases s.len() - i,
    {
        let b = s[i];
        h = mix_step(h, b as u64);
        proof {
            let pre = s@.subrange(0, i as int);
            let post = s@.subrange(0, i + 1 as int);
            assert(post.drop_last() =~= pre);
            assert(post.last() == s@[i as int]);
        }
        i = i + 1;
    }
    proof {
        assert(s@.subrange(0, s@.len() as int) =~= s@);
    }
    h
}

/// The derivation candidate for a program, a seed digest and a bump.
pub open spec fn candidate_spec(program: u64, h: u64, bump: u8) -> u64 {
    mix_step_spec(mix_step_spec(program, h), bump as u64)
}

/// Executable candidate computation.
pub fn candidate(program: u64, h: u64, bump: u8) -> (r: u64)
    ensures
        r == candidate_spec(program, h, bump),
{
    mix_step(mix_step(program, h), bump as u64)
}

/// Whether a candidate address may serve as a key-less authority. One
/// residue class of candidates is reserved and unusable, which is what makes
/// the bump search necessary.
pub open spec fn viable_spec(a: u64) -> bool {
    a % 4 != 3
}

/// Executable viability test.
pub fn viable(a: u64) -> (r: bool)
    ensures
        r == viable_spec(a),
{
    a % 4 != 3
}

/// The bump search from `b` upward: the first viable candidate wins, and the
/// search fails only when every remaining bump is exhausted.
pub open spec fn bump_search(program: u64, h: u64, b: int) -> Option<(u64, u8)>
    decreases 256 - b,
{
    if b < 0 || b > 255 {
        None
    } else if viable_spec(candidate_spec(program, h, b as u8)) {
        Some((candidate_spec(program, h, b as u8), b as u8))
    } else {
        bump_search(program, h, b + 1)
    }
}

/// Derived address of a program for a given seed digest: the address and the
/// bump that produced it, or nothing when the search space is exhausted.
pub open spec fn derived_address(program: u64, h: u64) -> Option<(u64, u8)> {
    bump_search(program, h, 0)
}

/// Executable bump search.
pub fn find_derived_address(program: u64, h: u64) -> (r: Option<(u64, u8)>)
    ensures
        r == derived_address(program, h),
{
    let mut b: usize = 0;
    while b < 256
        invariant
            b <= 256,
            derived_address(program, h) == bump_search(program, h, b as int),
        decreases 256 - b,
    {
        let c = candidate(program, h, b as u8);
        if viable(c) {
            return Some((c, b as u8));
        }
        b = b + 1;
    }
    None
}

/// Authority derivation for a seed: a pure function of the seed bytes and the
/// issuance program's identity.
pub open spec fn authority_for(seed: Seq<u8>) -> Option<(u64, u8)> {
    derived_address(NFT_PROGRAM_ID, bytes_digest(seed))
}

/// Derives the collection authority (also the collection mint address) for a
/// seed. Deterministic: the result depends on the seed bytes alone.
pub fn derive_authority(seed: &Vec<u8>) -> (r: Option<(u64, u8)>)
    ensures
        r == authority_for(seed@),
{
    let h = digest_bytes(seed);
    find_derived_address(NFT_PROGRAM_ID, h)
}

/// Seed digest of the metadata record attached to a mint.
pub open spec fn metadata_digest(mint: u64) -> u64 {
    mix_step_spec(mix_step_spec(DIGEST_INIT, METADATA_TAG), mint)
}

/// Address of the metadata record attached to a mint.
pub open spec fn metadata_address(mint: u64) -> Option<(u64, u8)> {
    derived_address(METADATA_PROGRAM_ID, metadata_digest(mint))
}

/// Derives the address of the metadata record attached to a mint.
pub fn find_metadata_address(mint: u64) -> (r: Option<(u64, u8)>)
    ensures
        r == metadata_address(mint),
{
    let h = mix_step(mix_step(DIGEST_INIT, METADATA_TAG), mint);
    find_derived_address(METADATA_PROGRAM_ID, h)
}

/// Seed digest of the edition record attached to a mint.
pub open spec fn edition_digest(mint: u64) -> u64 {
    mix_step_spec(mix_step_spec(DIGEST_INIT, EDITION_TAG), mint)
}

/// Address of the edition record attached to a mint.
pub open spec fn edition_address(mint: u64) -> Option<(u64, u8)> {
    derived_address(METADATA_PROGRAM_ID, edition_digest(mint))
}

/// Derives the address of the edition record attached to a mint.
pub fn find_master_edition_address(mint: u64) -> (r: Option<(u64, u8)>)
    ensures
        r == edition_address(mint),
{
    let h = mix_step(mix_step(DIGEST_INIT, EDITION_TAG), mint);
    find_derived_address(METADATA_PROGRAM_ID, h)
}

/// Fixed seed naming the one collection this program manages.
pub open spec fn collection_seed_spec() -> Seq<u8> {
    seq![67u8, 111u8, 108u8, 108u8, 101u8, 99u8, 116u8, 105u8, 111u8, 110u8]
}

/// Executable copy of the fixed seed (the bytes of the word "Collection").
pub fn collection_seed() -> (r: Vec<u8>)
    ensures
        r@ == collection_seed_spec(),
{
    let mut v: Vec<u8> = Vec::new();
    v.push(67u8);
    v.push(111u8);
    v.push(108u8);
    v.push(108u8);
    v.push(101u8);
    v.push(99u8);
    v.push(116u8);
    v.push(105u8);
    v.push(111u8);
    v.push(110u8);
    proof {
        assert(v@ =~= collection_seed_spec());
    }
    v
}

} // verus!
