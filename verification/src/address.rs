//! Deterministic storage addresses.
//!
//! Every record lives at an address derived from a namespace tag plus key
//! material (an owning identity's key, a little-endian index), together
//! with a one-byte derivation salt (the "bump"). The derivation itself is
//! a domain-separated cryptographic hash performed by the host SDK; this
//! module names its result, searches the salt space with a verified loop,
//! and re-checks claimed addresses against a re-derivation.

use crate::bytes::bytes_eq;
use crate::bytes::copy_bytes;
use vstd::prelude::*;

verus! {

/// The address, if any, that the host derivation scheme assigns to this
/// seed list under this program id; `None` when the hash lands in the
/// independently-generatable (on-curve) address space.
pub uninterp spec fn pda_of(seeds: Seq<Seq<u8>>, program_id: Seq<u8>) -> Option<Seq<u8>>;

/// The byte strings of a seed list.
pub open spec fn seeds_view(seeds: Seq<Vec<u8>>) -> Seq<Seq<u8>> {
    seeds.map_values(|s: Vec<u8>| s@)
}

/// Relies on `Pubkey::create_program_address` as anchor_lang re-exports it
/// (solana-address): with the bump appended as a final one-byte seed, it
/// returns the SHA-256-based program-derived address, a function of the
/// seeds and the program id alone, or fails when the hash is on-curve.
#[verifier::external_body]
fn derive_with_bump(seeds: &Vec<Vec<u8>>, bump: u8, program_id: &Vec<u8>) -> (r: Option<Vec<u8>>)
    requires
        program_id@.len() == 32,
        seeds@.len() <= 15,
        forall|i: int| 0 <= i < seeds@.len() ==> #[trigger] seeds@[i]@.len() <= 32,
    ensures
        match r {
            Some(a) => pda_of(seeds_view(seeds@).push(seq![bump]), program_id@) == Some(a@)
                && a@.len() == 32,
            None => pda_of(seeds_view(seeds@).push(seq![bump]), program_id@) is None,
        },
{
    let mut refs: Vec<&[u8]> = Vec::new();
    for s in seeds.iter() {
        refs.push(s.as_slice());
    }
    let bump_seed = [bump];
    refs.push(&bump_seed);
    let mut pid_bytes = [0u8; 32];
    pid_bytes.copy_from_slice(program_id.as_slice());
    let pid = anchor_lang::solana_program::pubkey::Pubkey::new_from_array(pid_bytes);
    match anchor_lang::solana_program::pubkey::Pubkey::create_program_address(&refs, &pid) {
        Ok(a) => Some(a.to_bytes().to_vec()),
        Err(_) => None,
    }
}

/// The salt search, one candidate at a time: the first bump at or below
/// `bump` whose derivation succeeds, together with its address.
pub open spec fn find_bump_from(seeds: Seq<Seq<u8>>, program_id: Seq<u8>, bump: int) -> Option<
    (Seq<u8>, u8),
>
    decreases bump + 1,
{
    if bump < 0 {
        None
    } else {
        match pda_of(seeds.push(seq![bump as u8]), program_id) {
            Some(a) => Some((a, bump as u8)),
            None => find_bump_from(seeds, program_id, bump - 1),
        }
    }
}

/// The address and salt that the full search, salts 255 down to 0, yields.
pub open spec fn find_bump(seeds: Seq<Seq<u8>>, program_id: Seq<u8>) -> Option<(Seq<u8>, u8)> {
    find_bump_from(seeds, program_id, 255)
}

/// Searches the salt space, 255 down to 0, for the first salt whose
/// derivation yields an address, and returns that address with its salt.
pub fn find_address(seeds: &Vec<Vec<u8>>, program_id: &Vec<u8>) -> (r: Option<(Vec<u8>, u8)>)
    requires
        program_id@.len() == 32,
        seeds@.len() <= 15,
        forall|i: int| 0 <= i < seeds@.len() ==> #[trigger] seeds@[i]@.len() <= 32,
    ensures
        match r {
            Some(ab) => find_bump(seeds_view(seeds@), program_id@) == Some((ab.0@, ab.1))
                && ab.0@.len() == 32,
            None => find_bump(seeds_view(seeds@), program_id@) is None,
        },
{
    let mut i: u16 = 256;
    while i > 0
        invariant
            i <= 256,
            program_id@.len() == 32,
            seeds@.len() <= 15,
            forall|k: int| 0 <= k < seeds@.len() ==> #[trigger] seeds@[k]@.len() <= 32,
            find_bump(seeds_view(seeds@), program_id@) == find_bump_from(
                seeds_view(seeds@),
                program_id@,
                i - 1,
            ),
        decreases i,
    {
        i = i - 1;
        let bump: u8 = i as u8;
        match derive_with_bump(seeds, bump, program_id) {
            Some(addr) => {
                proof {
                    assert(find_bump_from(seeds_view(seeds@), program_id@, i as int) == Some(
                        (addr@, bump),
                    ));
                }
                return Some((addr, bump));
            },
            None => {
                proof {
                    assert(find_bump_from(seeds_view(seeds@), program_id@, i as int)
                        == find_bump_from(seeds_view(seeds@), program_id@, i - 1));
                }
            },
        }
    }
    proof {
        assert(find_bump_from(seeds_view(seeds@), program_id@, -1) is None);
    }
    None
}

/// Re-derives the address for `seeds` with the claimed salt and checks it
/// against the claimed address; the read path accepts a record only when
/// this holds.
pub fn verify_address(
    seeds: &Vec<Vec<u8>>,
    bump: u8,
    program_id: &Vec<u8>,
    expected: &Vec<u8>,
) -> (r: bool)
    requires
        program_id@.len() == 32,
        seeds@.len() <= 15,
        forall|i: int| 0 <= i < seeds@.len() ==> #[trigger] seeds@[i]@.len() <= 32,
    ensures
        r == (pda_of(seeds_view(seeds@).push(seq![bump]), program_id@) == Some(expected@)),
{
    match derive_with_bump(seeds, bump, program_id) {
        Some(addr) => bytes_eq(&addr, expected),
        None => false,
    }
}

/// The "creator" namespace tag.
pub open spec fn creator_tag() -> Seq<u8> {
    seq![99u8, 114u8, 101u8, 97u8, 116u8, 111u8, 114u8]
}

/// The "content" namespace tag.
pub open spec fn content_tag() -> Seq<u8> {
    seq![99u8, 111u8, 110u8, 116u8, 101u8, 110u8, 116u8]
}

/// The "state" namespace tag.
pub open spec fn state_tag() -> Seq<u8> {
    seq![115u8, 116u8, 97u8, 116u8, 101u8]
}

/// The little-endian bytes of a 64-bit index, used as a seed fragment.
pub open spec fn le_bytes8(v: u64) -> Seq<u8> {
    seq![
        (v & 0xff) as u8,
        ((v >> 8) & 0xff) as u8,
        ((v >> 16) & 0xff) as u8,
        ((v >> 24) & 0xff) as u8,
        ((v >> 32) & 0xff) as u8,
        ((v >> 40) & 0xff) as u8,
        ((v >> 48) & 0xff) as u8,
        ((v >> 56) & 0xff) as u8,
    ]
}

proof fn lemma_byte_mask(x: u64)
    ensures
        x & 0xff < 256,
{
    assert(x & 0xff < 256) by (bit_vector);
}

/// The little-endian bytes of a 64-bit index.
pub fn u64_to_le_bytes(v: u64) -> (r: Vec<u8>)
    ensures
        r@ == le_bytes8(v),
        r@.len() == 8,
{
    proof {
        lemma_byte_mask(v);
        lemma_byte_mask(v >> 8);
        lemma_byte_mask(v >> 16);
        lemma_byte_mask(v >> 24);
        lemma_byte_mask(v >> 32);
        lemma_byte_mask(v >> 40);
        lemma_byte_mask(v >> 48);
        lemma_byte_mask(v >> 56);
    }
    let mut out: Vec<u8> = Vec::new();
    out.push((v & 0xff) as u8);
    out.push(((v >> 8) & 0xff) as u8);
    out.push(((v >> 16) & 0xff) as u8);
    out.push(((v >> 24) & 0xff) as u8);
    out.push(((v >> 32) & 0xff) as u8);
    out.push(((v >> 40) & 0xff) as u8);
    out.push(((v >> 48) & 0xff) as u8);
    out.push(((v >> 56) & 0xff) as u8);
    proof {
        assert(out@ =~= le_bytes8(v));
    }
    out
}

/// The seed list that addresses a creator record: the "creator" tag and
/// the owning identity's key.
pub open spec fn creator_seed_views(authority: Seq<u8>) -> Seq<Seq<u8>> {
    seq![creator_tag(), authority]
}

/// The seed list that addresses a content record: the "content" tag, the
/// owning creator's address, and the content index in little-endian bytes.
pub open spec fn content_seed_views(creator_address: Seq<u8>, index: u64) -> Seq<Seq<u8>> {
    seq![content_tag(), creator_address, le_bytes8(index)]
}

/// The seed list that addresses the program-state singleton: the bare
/// "state" tag, with no variable key fragments.
pub open spec fn state_seed_views() -> Seq<Seq<u8>> {
    seq![state_tag()]
}

/// The "creator" tag as a byte string.
pub fn creator_tag_bytes() -> (r: Vec<u8>)
    ensures
        r@ == creator_tag(),
{
    let mut out: Vec<u8> = Vec::new();
    out.push(99);
    out.push(114);
    out.push(101);
    out.push(97);
    out.push(116);
    out.push(111);
    out.push(114);
    proof {
        assert(out@ =~= creator_tag());
    }
    out
}

/// The "content" tag as a byte string.
pub fn content_tag_bytes() -> (r: Vec<u8>)
    ensures
        r@ == content_tag(),
{
    let mut out: Vec<u8> = Vec::new();
    out.push(99);
    out.push(111);
    out.push(110);
    out.push(116);
    out.push(101);
    out.push(110);
    out.push(116);
    proof {
        assert(out@ =~= content_tag());
    }
    out
}

/// The "state" tag as a byte string.
pub fn state_tag_bytes() -> (r: Vec<u8>)
    ensures
        r@ == state_tag(),
{
    let mut out: Vec<u8> = Vec::new();
    out.push(115);
    out.push(116);
    out.push(97);
    out.push(116);
    out.push(101);
    proof {
        assert(out@ =~= state_tag());
    }
    out
}

/// Searches for the creator record's address under this authority.
pub fn find_creator_address(authority: &Vec<u8>, program_id: &Vec<u8>) -> (r: Option<
    (Vec<u8>, u8),
>)
    requires
        authority@.len() == 32,
        program_id@.len() == 32,
    ensures
        match r {
            Some(ab) => find_bump(creator_seed_views(authority@), program_id@) == Some(
                (ab.0@, ab.1),
            ) && ab.0@.len() == 32,
            None => find_bump(creator_seed_views(authority@), program_id@) is None,
        },
{
    let mut seeds: Vec<Vec<u8>> = Vec::new();
    seeds.push(creator_tag_bytes());
    seeds.push(copy_bytes(authority));
    proof {
        assert(seeds_view(seeds@) =~= creator_seed_views(authority@));
    }
    find_address(&seeds, program_id)
}

/// Searches for a content record's address under this creator and index.
pub fn find_content_address(
    creator_address: &Vec<u8>,
    content_index: u64,
    program_id: &Vec<u8>,
) -> (r: Option<(Vec<u8>, u8)>)
    requires
        creator_address@.len() == 32,
        program_id@.len() == 32,
    ensures
        match r {
            Some(ab) => find_bump(content_seed_views(creator_address@, content_index), program_id@)
                == Some((ab.0@, ab.1)) && ab.0@.len() == 32,
            None => find_bump(content_seed_views(creator_address@, content_index), program_id@)
                is None,
        },
{
    let mut seeds: Vec<Vec<u8>> = Vec::new();
    seeds.push(content_tag_bytes());
    seeds.push(copy_bytes(creator_address));
    seeds.push(u64_to_le_bytes(content_index));
    proof {
        assert(seeds_view(seeds@) =~= content_seed_views(creator_address@, content_index));
    }
    find_address(&seeds, program_id)
}

/// Searches for the program-state singleton's address.
pub fn find_state_address(program_id: &Vec<u8>) -> (r: Option<(Vec<u8>, u8)>)
    requires
        program_id@.len() == 32,
    ensures
        match r {
            Some(ab) => find_bump(state_seed_views(), program_id@) == Some((ab.0@, ab.1))
                && ab.0@.len() == 32,
            None => find_bump(state_seed_views(), program_id@) is None,
        },
{
    let mut seeds: Vec<Vec<u8>> = Vec::new();
    seeds.push(state_tag_bytes());
    proof {
        assert(seeds_view(seeds@) =~= state_seed_views());
    }
    find_address(&seeds, program_id)
}

/// Re-checks a claimed content address against its re-derivation from the
/// owning creator's address, the content index, and the stored salt.
pub fn verify_content_address(
    creator_address: &Vec<u8>,
    content_index: u64,
    bump: u8,
    program_id: &Vec<u8>,
    expected: &Vec<u8>,
) -> (r: bool)
    requires
        creator_address@.len() == 32,
        program_id@.len() == 32,
    ensures
        r == (pda_of(
            content_seed_views(creator_address@, content_index).push(seq![bump]),
            program_id@,
        ) == Some(expected@)),
{
    let mut seeds: Vec<Vec<u8>> = Vec::new();
    seeds.push(content_tag_bytes());
    seeds.push(copy_bytes(creator_address));
    seeds.push(u64_to_le_bytes(content_index));
    proof {
        assert(seeds_view(seeds@) =~= content_seed_views(creator_address@, content_index));
    }
    verify_address(&seeds, bump, program_id, expected)
}

} // verus!
