//! Record schema and space budgeting.
//!
//! Each record serializes as an 8-byte type discriminator followed by
//! the fields in declared order: fixed-width integers at their natural
//! width, optional fields as one presence byte plus their payload,
//! variable-length byte strings as a 4-byte length prefix plus the
//! bytes, and embedded lists as a 4-byte count plus the elements.
//!
//! Storage is allocated exactly once at record creation, at the
//! worst-case footprint; the lemmas here prove that every well-formed
//! record's encoding stays inside that footprint, so no later operation
//! can overrun the slot.

use crate::content::CommentV;
use crate::content::ContentV;
use crate::content::CONTENT_SPACE;
use crate::content::COMMENT_SLOT;
use crate::content::MAX_COMMENTS;
use crate::creator::CreatorV;
use crate::creator::CREATOR_SPACE;
use crate::state::ProgramStateV;
use crate::state::STATE_SPACE;
use vstd::prelude::*;

verus! {

/// Encoded size of an optional byte-string field: one presence byte,
/// plus a length prefix and the bytes when present.
pub open spec fn opt_bytes_enc_len(o: Option<Seq<u8>>) -> int {
    match o {
        Some(s) => 1 + 4 + s.len() as int,
        None => 1int,
    }
}

/// Encoded size of an optional 64-bit field: one presence byte, plus
/// eight bytes when present.
pub open spec fn opt_i64_enc_len(o: Option<i64>) -> int {
    match o {
        Some(_) => (1 + 8) as int,
        None => 1int,
    }
}

/// Encoded size of a creator record.
pub open spec fn creator_enc_len(c: CreatorV) -> int {
    8 + 32 + (4 + c.name.len() as int) + opt_bytes_enc_len(c.email) + opt_bytes_enc_len(c.bio)
        + opt_bytes_enc_len(c.avatar) + 8 + 1 + 8 + 8
}

/// Encoded size of one comment inside its content record.
pub open spec fn comment_enc_len(cm: CommentV) -> int {
    32 + (4 + cm.content.len() as int) + 8 + 1
}

/// Encoded size of an embedded comment list, element by element.
pub open spec fn comments_enc_len(s: Seq<CommentV>) -> int
    decreases s.len(),
{
    if s.len() == 0 {
        0int
    } else {
        comment_enc_len(s[0]) + comments_enc_len(s.drop_first())
    }
}

/// Encoded size of a content record.
pub open spec fn content_enc_len(c: ContentV) -> int {
    8 + 32 + (4 + c.title.len() as int) + (4 + c.description.len() as int) + (4 + c.content.len() as int) + 1 + 8
        + opt_i64_enc_len(c.updated_at) + 8 + 8 + (4 + comments_enc_len(c.comments)) + 8 + 1 + 1
}

/// Encoded size of the program-state record; every field is fixed-width.
pub open spec fn state_enc_len(s: ProgramStateV) -> int {
    (8 + 32 + 8 + 8 + 1) as int
}

/// A list of well-formed comments encodes within one full slot per
/// entry, and never negatively.
pub proof fn lemma_comments_enc_len_bound(s: Seq<CommentV>)
    requires
        forall|i: int| 0 <= i < s.len() ==> (#[trigger] s[i]).wf(),
    ensures
        0 <= comments_enc_len(s) <= s.len() * (COMMENT_SLOT as int),
    decreases s.len(),
{
    if s.len() == 0 {
    } else {
        assert(s[0].wf());
        assert forall|i: int|
            0 <= i < s.drop_first().len() implies (#[trigger] s.drop_first()[i]).wf() by {
            assert(s.drop_first()[i] == s[i + 1]);
        }
        lemma_comments_enc_len_bound(s.drop_first());
        let n: int = s.len() as int;
        assert((n - 1) * (COMMENT_SLOT as int) + (COMMENT_SLOT as int) == n * (
        COMMENT_SLOT as int)) by (nonlinear_arith);
    }
}

/// Every well-formed creator record fits the footprint reserved for it.
pub proof fn lemma_creator_record_fits(c: CreatorV)
    requires
        c.wf(),
    ensures
        creator_enc_len(c) <= CREATOR_SPACE as int,
{
}

/// Every well-formed content record fits the footprint reserved for it,
/// comments included.
pub proof fn lemma_content_record_fits(c: ContentV)
    requires
        c.wf(),
    ensures
        content_enc_len(c) <= CONTENT_SPACE as int,
{
    lemma_comments_enc_len_bound(c.comments);
    assert(c.comments.len() * (COMMENT_SLOT as int) <= (MAX_COMMENTS as int) * (
    COMMENT_SLOT as int)) by (nonlinear_arith)
        requires
            c.comments.len() <= MAX_COMMENTS as int,
    ;
}

/// The program-state record encodes to exactly its reserved footprint.
pub proof fn lemma_state_record_fits(s: ProgramStateV)
    ensures
        state_enc_len(s) == STATE_SPACE as int,
{
}

} // verus!
