//! Content records: one per published item, owned by exactly one creator.
//!
//! A content record is created once at the address derived from its
//! owning creator's address and its content index, which must be exactly
//! the next index the creator has to issue. Comments are appended into a
//! capacity-bounded embedded list and never removed or reordered.

use crate::address::content_seed_views;
use crate::address::find_bump;
use crate::address::find_content_address;
use crate::address::pda_of;
use crate::address::verify_content_address;
use crate::bytes::bytes_eq;
use crate::bytes::copy_bytes;
use crate::creator::Creator;
use crate::creator::CreatorV;
use crate::errors::ErrorCode;
use vstd::prelude::*;

verus! {

/// Byte budget of a content title.
pub const MAX_TITLE_LEN: usize = 64;

/// Byte budget of a content description.
pub const MAX_DESCRIPTION_LEN: usize = 256;

/// Byte budget of a content body.
pub const MAX_CONTENT_LEN: usize = 1024;

/// Byte budget of one comment's text.
pub const MAX_COMMENT_LEN: usize = 256;

/// Hard ceiling on the embedded comment list.
pub const MAX_COMMENTS: usize = 10;

/// Worst-case encoded size of one comment slot: commenter key, length
/// prefix and maximum text, timestamp, and the edited flag.
pub const COMMENT_SLOT: usize = 32 + 4 + 256 + 8 + 1;

/// Storage footprint reserved for a content record: discriminator, owner
/// address, then each field at its maximum encoded size, with the full
/// ten comment slots reserved up front.
pub const CONTENT_SPACE: usize = 8 + 32 + (4 + 64) + (4 + 256) + (4 + 1024) + 1 + 8 + 9 + 8 + 8
    + 4 + (32 + 4 + 256 + 8 + 1) * 10 + 8 + 1 + 1;

/// The medium a content record carries.
#[derive(Debug, Clone, Copy, PartialEq, Eq, Structural)]
pub enum ContentType {
    Text,
    Image,
    Video,
    Audio,
}

impl Default for ContentType {
    /// Plain text is the default medium.
    fn default() -> (r: Self)
        ensures
            r == ContentType::Text,
    {
        ContentType::Text
    }
}

/// One comment, embedded in its content record rather than independently
/// addressed. Its `creator` is the commenter, not the content's owner.
#[derive(Debug, Clone, PartialEq, Eq)]
pub struct Comment {
    /// The commenter's identity key.
    pub creator: Vec<u8>,
    pub content: Vec<u8>,
    pub created_at: i64,
    /// Reserved by the schema; no operation sets it.
    pub is_edited: bool,
}

/// The mathematical image of a comment.
#[verifier::ext_equal]
pub struct CommentV {
    pub creator: Seq<u8>,
    pub content: Seq<u8>,
    pub created_at: i64,
    pub is_edited: bool,
}

impl View for Comment {
    type V = CommentV;

    open spec fn view(&self) -> CommentV {
        CommentV {
            creator: self.creator@,
            content: self.content@,
            created_at: self.created_at,
            is_edited: self.is_edited,
        }
    }
}

/// The mathematical image of a comment list.
pub open spec fn comments_view(s: Seq<Comment>) -> Seq<CommentV> {
    s.map_values(|cm: Comment| cm@)
}

impl CommentV {
    /// A well-formed comment: a full-size commenter key and text within
    /// its byte budget.
    pub open spec fn wf(self) -> bool {
        &&& self.creator.len() == 32
        &&& self.content.len() <= MAX_COMMENT_LEN
    }
}

/// One published item.
#[derive(Debug, Clone, PartialEq, Eq)]
pub struct Content {
    /// The owning creator record's storage address; never changes.
    pub creator: Vec<u8>,
    pub title: Vec<u8>,
    pub description: Vec<u8>,
    pub content: Vec<u8>,
    pub content_type: ContentType,
    pub created_at: i64,
    pub updated_at: Option<i64>,
    pub total_views: u64,
    pub total_likes: u64,
    pub comments: Vec<Comment>,
    /// The position issued at creation; never changes.
    pub content_index: u64,
    pub is_active: bool,
    /// The derivation salt the record's address was created with.
    pub bump: u8,
}

/// The mathematical image of a content record.
#[verifier::ext_equal]
pub struct ContentV {
    pub creator: Seq<u8>,
    pub title: Seq<u8>,
    pub description: Seq<u8>,
    pub content: Seq<u8>,
    pub content_type: ContentType,
    pub created_at: i64,
    pub updated_at: Option<i64>,
    pub total_views: u64,
    pub total_likes: u64,
    pub comments: Seq<CommentV>,
    pub content_index: u64,
    pub is_active: bool,
    pub bump: u8,
}

impl View for Content {
    type V = ContentV;

    open spec fn view(&self) -> ContentV {
        ContentV {
            creator: self.creator@,
            title: self.title@,
            description: self.description@,
            content: self.content@,
            content_type: self.content_type,
            created_at: self.created_at,
            updated_at: self.updated_at,
            total_views: self.total_views,
            total_likes: self.total_likes,
            comments: comments_view(self.comments@),
            content_index: self.content_index,
            is_active: self.is_active,
            bump: self.bump,
        }
    }
}

impl ContentV {
    /// A well-formed content record: a full-size owner address, every
    /// text field within its byte budget, and the comment list within its
    /// ceiling with every entry well-formed.
    pub open spec fn wf(self) -> bool {
        &&& self.creator.len() == 32
        &&& self.title.len() <= MAX_TITLE_LEN
        &&& self.description.len() <= MAX_DESCRIPTION_LEN
        &&& self.content.len() <= MAX_CONTENT_LEN
        &&& self.comments.len() <= MAX_COMMENTS
        &&& (forall|i: int| 0 <= i < self.comments.len() ==> (#[trigger] self.comments[i]).wf())
    }
}

impl Content {
    /// A well-formed content record.
    pub open spec fn wf(self) -> bool {
        self@.wf()
    }
}

/// What creation yields: the new record's derived address, the record
/// itself, and the creator with its content counter stepped by one; or
/// the error telling which gate rejected the request.
pub open spec fn create_content_spec(
    c: CreatorV,
    creator_address: Seq<u8>,
    caller: Seq<u8>,
    title: Seq<u8>,
    description: Seq<u8>,
    content: Seq<u8>,
    content_type: ContentType,
    content_index: u64,
    now: i64,
    program_id: Seq<u8>,
) -> Result<(Seq<u8>, ContentV, CreatorV), ErrorCode> {
    if caller != c.authority {
        Err(ErrorCode::UnauthorizedAccess)
    } else if !c.is_active {
        Err(ErrorCode::CreatorNotActive)
    } else if content_index != c.total_content {
        Err(ErrorCode::InvalidContentIndex)
    } else if title.len() == 0 {
        Err(ErrorCode::EmptyTitle)
    } else if content.len() == 0 {
        Err(ErrorCode::EmptyContent)
    } else if title.len() > MAX_TITLE_LEN {
        Err(ErrorCode::ContentTooLong)
    } else if description.len() > MAX_DESCRIPTION_LEN {
        Err(ErrorCode::ContentTooLong)
    } else if content.len() > MAX_CONTENT_LEN {
        Err(ErrorCode::ContentTooLong)
    } else {
        match find_bump(content_seed_views(creator_address, content_index), program_id) {
            Some((addr, bump)) => {
                if c.total_content == u64::MAX {
                    Err(ErrorCode::MathOverflow)
                } else {
                    Ok(
                        (
                            addr,
                            ContentV {
                                creator: creator_address,
                                title,
                                description,
                                content,
                                content_type,
                                created_at: now,
                                updated_at: None,
                                total_views: 0,
                                total_likes: 0,
                                comments: Seq::empty(),
                                content_index,
                                is_active: true,
                                bump,
                            },
                            CreatorV { total_content: (c.total_content + 1) as u64, ..c },
                        ),
                    )
                }
            },
            None => Err(ErrorCode::BumpNotFound),
        }
    }
}

/// Publishes a content record for this creator.
///
/// The request must come from the creator's authority while the creator
/// is active, carry exactly the next content index, and fit every byte
/// budget; the record is then created at the address derived from the
/// creator's address and the index, and the creator's content counter is
/// stepped by one with overflow-checked arithmetic. All-or-nothing: on
/// any failure the creator record is unchanged.
pub fn create_content(
    creator: &mut Creator,
    creator_address: &Vec<u8>,
    caller: &Vec<u8>,
    title: Vec<u8>,
    description: Vec<u8>,
    content: Vec<u8>,
    content_type: ContentType,
    content_index: u64,
    now: i64,
    program_id: &Vec<u8>,
) -> (r: Result<(Vec<u8>, Content), ErrorCode>)
    requires
        old(creator).wf(),
        creator_address@.len() == 32,
        program_id@.len() == 32,
    ensures
        ({
            let s = create_content_spec(
                old(creator)@,
                creator_address@,
                caller@,
                title@,
                description@,
                content@,
                content_type,
                content_index,
                now,
                program_id@,
            );
            match r {
                Ok(t) => s == Ok::<_, ErrorCode>((t.0@, t.1@, final(creator)@)) && t.1.wf(),
                Err(e) => s == Err::<(Seq<u8>, ContentV, CreatorV), _>(e) && final(creator)@ == old(
                    creator,
                )@,
            }
        }),
        final(creator).wf(),
        final(creator)@.authority == old(creator)@.authority,
{
    if !bytes_eq(caller, &creator.authority) {
        return Err(ErrorCode::UnauthorizedAccess);
    }
    if !creator.is_active {
        return Err(ErrorCode::CreatorNotActive);
    }
    if content_index != creator.total_content {
        return Err(ErrorCode::InvalidContentIndex);
    }
    if title.len() == 0 {
        return Err(ErrorCode::EmptyTitle);
    }
    if content.len() == 0 {
        return Err(ErrorCode::EmptyContent);
    }
    if title.len() > MAX_TITLE_LEN {
        return Err(ErrorCode::ContentTooLong);
    }
    if description.len() > MAX_DESCRIPTION_LEN {
        return Err(ErrorCode::ContentTooLong);
    }
    if content.len() > MAX_CONTENT_LEN {
        return Err(ErrorCode::ContentTooLong);
    }
    match find_content_address(creator_address, content_index, program_id) {
        Some((addr, bump)) => {
            if creator.total_content == u64::MAX {
                return Err(ErrorCode::MathOverflow);
            }
            let record = Content {
                creator: copy_bytes(creator_address),
                title,
                description,
                content,
                content_type,
                created_at: now,
                updated_at: None,
                total_views: 0,
                total_likes: 0,
                comments: Vec::new(),
                content_index,
                is_active: true,
                bump,
            };
            creator.total_content = creator.total_content + 1;
            proof {
                assert(record@.comments =~= Seq::<CommentV>::empty());
            }
            Ok((addr, record))
        },
        None => Err(ErrorCode::BumpNotFound),
    }
}

/// What an insert yields: the record with one comment appended at the
/// end, the rest untouched; or the error telling which gate rejected it.
pub open spec fn insert_comment_spec(
    c: ContentV,
    commenter: Seq<u8>,
    text: Seq<u8>,
    now: i64,
) -> Result<ContentV, ErrorCode> {
    if text.len() == 0 {
        Err(ErrorCode::EmptyComment)
    } else if text.len() > MAX_COMMENT_LEN {
        Err(ErrorCode::CommentTooLong)
    } else if c.comments.len() >= MAX_COMMENTS {
        Err(ErrorCode::TooManyComments)
    } else {
        Ok(
            ContentV {
                comments: c.comments.push(
                    CommentV { creator: commenter, content: text, created_at: now, is_edited: false },
                ),
                ..c
            },
        )
    }
}

/// Appends a comment by `commenter`. The bound is a hard ceiling: at the
/// full capacity the comment is discarded with `TooManyComments`, with no
/// eviction and no overwrite; nothing already stored ever moves.
pub fn insert_comment(content: &mut Content, commenter: &Vec<u8>, text: Vec<u8>, now: i64) -> (r:
    Result<(), ErrorCode>)
    requires
        old(content).wf(),
        commenter@.len() == 32,
    ensures
        ({
            let s = insert_comment_spec(old(content)@, commenter@, text@, now);
            match r {
                Ok(_) => s == Ok::<_, ErrorCode>(final(content)@),
                Err(e) => s == Err::<ContentV, _>(e) && final(content)@ == old(content)@,
            }
        }),
        final(content).wf(),
{
    if text.len() == 0 {
        return Err(ErrorCode::EmptyComment);
    }
    if text.len() > MAX_COMMENT_LEN {
        return Err(ErrorCode::CommentTooLong);
    }
    if content.comments.len() >= MAX_COMMENTS {
        return Err(ErrorCode::TooManyComments);
    }
    let comment = Comment {
        creator: copy_bytes(commenter),
        content: text,
        created_at: now,
        is_edited: false,
    };
    content.comments.push(comment);
    proof {
        assert(final(content)@.comments =~= insert_comment_spec(
            old(content)@,
            commenter@,
            text@,
            now,
        )->Ok_0.comments);
        assert(final(content)@ =~= insert_comment_spec(old(content)@, commenter@, text@, now)
            ->Ok_0);
    }
    Ok(())
}

/// The full projection a fetch returns: the stored fields plus the
/// record's own address, minus the derivation salt.
#[derive(Debug, Clone, PartialEq, Eq)]
pub struct ContentDetails {
    /// The content record's storage address.
    pub id: Vec<u8>,
    pub creator: Vec<u8>,
    pub title: Vec<u8>,
    pub description: Vec<u8>,
    pub content: Vec<u8>,
    pub content_type: ContentType,
    pub created_at: i64,
    pub updated_at: Option<i64>,
    pub total_views: u64,
    pub total_likes: u64,
    pub comments: Vec<Comment>,
    pub content_index: u64,
    pub is_active: bool,
}

/// The mathematical image of a content projection.
#[verifier::ext_equal]
pub struct ContentDetailsV {
    pub id: Seq<u8>,
    pub creator: Seq<u8>,
    pub title: Seq<u8>,
    pub description: Seq<u8>,
    pub content: Seq<u8>,
    pub content_type: ContentType,
    pub created_at: i64,
    pub updated_at: Option<i64>,
    pub total_views: u64,
    pub total_likes: u64,
    pub comments: Seq<CommentV>,
    pub content_index: u64,
    pub is_active: bool,
}

impl View for ContentDetails {
    type V = ContentDetailsV;

    open spec fn view(&self) -> ContentDetailsV {
        ContentDetailsV {
            id: self.id@,
            creator: self.creator@,
            title: self.title@,
            description: self.description@,
            content: self.content@,
            content_type: self.content_type,
            created_at: self.created_at,
            updated_at: self.updated_at,
            total_views: self.total_views,
            total_likes: self.total_likes,
            comments: comments_view(self.comments@),
            content_index: self.content_index,
            is_active: self.is_active,
        }
    }
}

/// The projection of a content record at a given address.
pub open spec fn content_details_of(
    c: ContentV,
    content_address: Seq<u8>,
    content_index: u64,
) -> ContentDetailsV {
    ContentDetailsV {
        id: content_address,
        creator: c.creator,
        title: c.title,
        description: c.description,
        content: c.content,
        content_type: c.content_type,
        created_at: c.created_at,
        updated_at: c.updated_at,
        total_views: c.total_views,
        total_likes: c.total_likes,
        comments: c.comments,
        content_index,
        is_active: c.is_active,
    }
}

/// What a fetch yields: the full projection, but only when the claimed
/// address re-derives from the claimed creator, index, and stored salt.
pub open spec fn fetch_content_spec(
    c: ContentV,
    content_address: Seq<u8>,
    creator_address: Seq<u8>,
    content_index: u64,
    program_id: Seq<u8>,
) -> Result<ContentDetailsV, ErrorCode> {
    if pda_of(content_seed_views(creator_address, content_index).push(seq![c.bump]), program_id)
        == Some(content_address) {
        Ok(content_details_of(c, content_address, content_index))
    } else {
        Err(ErrorCode::BumpNotFound)
    }
}

/// A fresh copy of a comment list.
fn copy_comments(src: &Vec<Comment>) -> (r: Vec<Comment>)
    ensures
        comments_view(r@) == comments_view(src@),
{
    let mut out: Vec<Comment> = Vec::new();
    let mut i: usize = 0;
    while i < src.len()
        invariant
            i <= src@.len(),
            out@.len() == i,
            forall|j: int| 0 <= j < i ==> #[trigger] out@[j]@ == src@[j]@,
        decreases src@.len() - i,
    {
        let cm = Comment {
            creator: copy_bytes(&src[i].creator),
            content: copy_bytes(&src[i].content),
            created_at: src[i].created_at,
            is_edited: src[i].is_edited,
        };
        proof {
            assert(cm@ =~= src@[i as int]@);
        }
        out.push(cm);
        i += 1;
    }
    proof {
        assert(comments_view(out@) =~= comments_view(src@));
    }
    out
}

/// Returns the full projection of a content record, comments included.
///
/// The caller presents the record's claimed address together with the
/// owning creator's address and the content index; the address must
/// re-derive from those keys and the stored salt, or the request is
/// rejected with no read.
pub fn fetch_content_by_index(
    content: &Content,
    content_address: &Vec<u8>,
    creator_address: &Vec<u8>,
    content_index: u64,
    program_id: &Vec<u8>,
) -> (r: Result<ContentDetails, ErrorCode>)
    requires
        content.wf(),
        creator_address@.len() == 32,
        program_id@.len() == 32,
    ensures
        ({
            let s = fetch_content_spec(
                content@,
                content_address@,
                creator_address@,
                content_index,
                program_id@,
            );
            match r {
                Ok(d) => s == Ok::<_, ErrorCode>(d@),
                Err(e) => s == Err::<ContentDetailsV, _>(e),
            }
        }),
{
    if !verify_content_address(creator_address, content_index, content.bump, program_id,
        content_address) {
        return Err(ErrorCode::BumpNotFound);
    }
    let details = ContentDetails {
        id: copy_bytes(content_address),
        creator: copy_bytes(&content.creator),
        title: copy_bytes(&content.title),
        description: copy_bytes(&content.description),
        content: copy_bytes(&content.content),
        content_type: content.content_type,
        created_at: content.created_at,
        updated_at: content.updated_at,
        total_views: content.total_views,
        total_likes: content.total_likes,
        comments: copy_comments(&content.comments),
        content_index,
        is_active: content.is_active,
    };
    proof {
        assert(details@ =~= content_details_of(content@, content_address@, content_index));
    }
    Ok(details)
}

/// Law: issuing content indices is strictly monotonic and gapless. A
/// request from the active creator's authority with any index other than
/// the next one fails with `InvalidContentIndex`; with exactly the next
/// index and valid payload, the counter steps by one and the new record
/// carries that index.
pub proof fn lemma_content_index_gate(
    c: CreatorV,
    creator_address: Seq<u8>,
    title: Seq<u8>,
    description: Seq<u8>,
    content: Seq<u8>,
    content_type: ContentType,
    content_index: u64,
    now: i64,
    program_id: Seq<u8>,
)
    requires
        c.is_active,
    ensures
        content_index != c.total_content ==> create_content_spec(
            c,
            creator_address,
            c.authority,
            title,
            description,
            content,
            content_type,
            content_index,
            now,
            program_id,
        ) == Err::<(Seq<u8>, ContentV, CreatorV), _>(ErrorCode::InvalidContentIndex),
        ({
            let s = create_content_spec(
                c,
                creator_address,
                c.authority,
                title,
                description,
                content,
                content_type,
                content_index,
                now,
                program_id,
            );
            s is Ok ==> {
                &&& content_index == c.total_content
                &&& s->Ok_0.2.total_content == c.total_content + 1
                &&& s->Ok_0.2.authority == c.authority
                &&& s->Ok_0.1.content_index == c.total_content
            }
        }),
{
}

/// Law: no request creates content for a deactivated creator. The
/// authority's own requests fail with `CreatorNotActive` regardless of
/// the payload; everyone else's fail with `UnauthorizedAccess`.
pub proof fn lemma_deactivation_gate(
    c: CreatorV,
    creator_address: Seq<u8>,
    caller: Seq<u8>,
    title: Seq<u8>,
    description: Seq<u8>,
    content: Seq<u8>,
    content_type: ContentType,
    content_index: u64,
    now: i64,
    program_id: Seq<u8>,
)
    requires
        !c.is_active,
    ensures
        create_content_spec(
            c,
            creator_address,
            caller,
            title,
            description,
            content,
            content_type,
            content_index,
            now,
            program_id,
        ) == Err::<(Seq<u8>, ContentV, CreatorV), _>(
            if caller == c.authority {
                ErrorCode::CreatorNotActive
            } else {
                ErrorCode::UnauthorizedAccess
            },
        ),
{
}

/// Law: the comment list is a hard-capped append log. Below the ceiling
/// a valid comment lands at the end and every stored entry keeps its
/// place; at the ceiling the insert fails with `TooManyComments` and the
/// list is exactly what it was.
pub proof fn lemma_comment_capacity(c: ContentV, commenter: Seq<u8>, text: Seq<u8>, now: i64)
    requires
        0 < text.len() <= MAX_COMMENT_LEN,
    ensures
        c.comments.len() >= MAX_COMMENTS ==> insert_comment_spec(c, commenter, text, now) == Err::<
            ContentV,
            _,
        >(ErrorCode::TooManyComments),
        c.comments.len() < MAX_COMMENTS ==> {
            let s = insert_comment_spec(c, commenter, text, now);
            &&& s is Ok
            &&& s->Ok_0.comments.len() == c.comments.len() + 1
            &&& (forall|i: int|
                0 <= i < c.comments.len() ==> #[trigger] s->Ok_0.comments[i] == c.comments[i])
            &&& s->Ok_0.comments.last() == CommentV {
                creator: commenter,
                content: text,
                created_at: now,
                is_edited: false,
            }
        },
{
}

/// Law: a fetch neither takes nor leaves any mark on the record; two
/// fetches of the same record with the same claim return the same value.
pub proof fn lemma_fetch_content_idempotent(
    c: ContentV,
    content_address: Seq<u8>,
    creator_address: Seq<u8>,
    content_index: u64,
    program_id: Seq<u8>,
    first: Result<ContentDetailsV, ErrorCode>,
    second: Result<ContentDetailsV, ErrorCode>,
)
    requires
        first == fetch_content_spec(c, content_address, creator_address, content_index, program_id),
        second == fetch_content_spec(
            c,
            content_address,
            creator_address,
            content_index,
            program_id,
        ),
    ensures
        first == second,
{
}

} // verus!
