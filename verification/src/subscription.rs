//! The subscription flow: an earlier, slimmer shape of the registry in
//! which content is referenced by an off-system storage hash and
//! supporters pay through a token transfer.
//!
//! The transfer itself is the host token program's work: it moves the
//! amount between the two token accounts atomically or fails the whole
//! call. This module holds the decisions around it: creating the records
//! and crediting the earnings after a transfer has succeeded.

use crate::bytes::bytes_eq;
use crate::bytes::copy_bytes;
use crate::errors::ErrorCode;
use vstd::prelude::*;

verus! {

/// A creator in the subscription flow.
#[derive(Debug, Clone, PartialEq, Eq)]
pub struct Creator {
    /// The identity allowed to publish under this record; never changes.
    pub owner: Vec<u8>,
    pub content_count: u64,
    pub total_earnings: u64,
}

/// The mathematical image of a subscription-flow creator.
#[verifier::ext_equal]
pub struct CreatorV {
    pub owner: Seq<u8>,
    pub content_count: u64,
    pub total_earnings: u64,
}

impl View for Creator {
    type V = CreatorV;

    open spec fn view(&self) -> CreatorV {
        CreatorV {
            owner: self.owner@,
            content_count: self.content_count,
            total_earnings: self.total_earnings,
        }
    }
}

/// A content record in the subscription flow: a reference to a body kept
/// in off-system storage, plus its accumulated earnings.
#[derive(Debug, Clone, PartialEq, Eq)]
pub struct Content {
    /// The owning creator record's storage address.
    pub creator: Vec<u8>,
    /// The off-system storage hash of the content body.
    pub ipfs_hash: Vec<u8>,
    pub created_at: i64,
    pub earnings: u64,
}

/// The mathematical image of a subscription-flow content record.
#[verifier::ext_equal]
pub struct ContentV {
    pub creator: Seq<u8>,
    pub ipfs_hash: Seq<u8>,
    pub created_at: i64,
    pub earnings: u64,
}

impl View for Content {
    type V = ContentV;

    open spec fn view(&self) -> ContentV {
        ContentV {
            creator: self.creator@,
            ipfs_hash: self.ipfs_hash@,
            created_at: self.created_at,
            earnings: self.earnings,
        }
    }
}

/// Creates a creator record owned by `owner`, with zeroed counters.
pub fn initialize_creator(owner: &Vec<u8>) -> (r: Creator)
    ensures
        r@ == (CreatorV { owner: owner@, content_count: 0, total_earnings: 0 }),
{
    Creator { owner: copy_bytes(owner), content_count: 0, total_earnings: 0 }
}

/// What publication yields: the new record and the creator with its
/// content counter stepped by one, for the owner alone.
pub open spec fn create_content_spec(
    c: CreatorV,
    creator_address: Seq<u8>,
    caller: Seq<u8>,
    ipfs_hash: Seq<u8>,
    now: i64,
) -> Result<(ContentV, CreatorV), ErrorCode> {
    if caller != c.owner {
        Err(ErrorCode::UnauthorizedAccess)
    } else {
        Ok(
            (
                ContentV { creator: creator_address, ipfs_hash, created_at: now, earnings: 0 },
                CreatorV { content_count: (c.content_count + 1) as u64, ..c },
            ),
        )
    }
}

/// Publishes a content record holding an off-system storage hash and
/// steps the creator's content counter; gated on the owner.
pub fn create_content(
    creator: &mut Creator,
    creator_address: &Vec<u8>,
    caller: &Vec<u8>,
    ipfs_hash: Vec<u8>,
    now: i64,
) -> (r: Result<Content, ErrorCode>)
    requires
        old(creator)@.content_count < u64::MAX,
    ensures
        ({
            let s = create_content_spec(
                old(creator)@,
                creator_address@,
                caller@,
                ipfs_hash@,
                now,
            );
            match r {
                Ok(t) => s == Ok::<_, ErrorCode>((t@, final(creator)@)),
                Err(e) => s == Err::<(ContentV, CreatorV), _>(e) && final(creator)@ == old(
                    creator,
                )@,
            }
        }),
{
    if !bytes_eq(caller, &creator.owner) {
        return Err(ErrorCode::UnauthorizedAccess);
    }
    let record = Content {
        creator: copy_bytes(creator_address),
        ipfs_hash,
        created_at: now,
        earnings: 0,
    };
    creator.content_count = creator.content_count + 1;
    Ok(record)
}

/// What a subscription credit yields: both earnings counters raised by
/// the transferred amount.
pub open spec fn subscribe_spec(c: CreatorV, ct: ContentV, amount: u64) -> (CreatorV, ContentV) {
    (
        CreatorV { total_earnings: (c.total_earnings + amount) as u64, ..c },
        ContentV { earnings: (ct.earnings + amount) as u64, ..ct },
    )
}

/// Credits a successful subscription payment of `amount` to the creator
/// and to the content record it supports.
///
/// The token transfer itself is the host's: it has already moved the
/// amount atomically by the time this credit is applied, and a failed
/// transfer fails the whole call before any credit.
pub fn subscribe(creator: &mut Creator, content: &mut Content, amount: u64)
    requires
        old(creator)@.total_earnings + amount <= u64::MAX,
        old(content)@.earnings + amount <= u64::MAX,
    ensures
        (final(creator)@, final(content)@) == subscribe_spec(
            old(creator)@,
            old(content)@,
            amount,
        ),
{
    creator.total_earnings = creator.total_earnings + amount;
    content.earnings = content.earnings + amount;
}

} // verus!
