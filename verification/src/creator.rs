//! Creator records: one per registered identity.
//!
//! A creator is created once at the address derived from its authority's
//! key, and afterwards mutated only by operations gated on that authority.
//! Every operation is all-or-nothing: a failed validation leaves the
//! record exactly as it was.

use crate::address::creator_seed_views;
use crate::address::find_bump;
use crate::address::find_creator_address;
use crate::bytes::bytes_eq;
use crate::bytes::copy_bytes;
use crate::bytes::copy_opt_bytes;
use crate::bytes::opt_bytes_view;
use crate::errors::ErrorCode;
use vstd::prelude::*;

verus! {

/// Byte budget of a creator's name.
pub const MAX_NAME_LEN: usize = 64;

/// Byte budget of a creator's email.
pub const MAX_EMAIL_LEN: usize = 64;

/// Byte budget of a creator's bio.
pub const MAX_BIO_LEN: usize = 256;

/// Byte budget of a creator's avatar reference.
pub const MAX_AVATAR_LEN: usize = 256;

/// Storage footprint reserved for a creator record: discriminator,
/// authority key, then each field at its maximum encoded size.
pub const CREATOR_SPACE: usize = 8 + 32 + (4 + 64) + (1 + 4 + 64) + (1 + 4 + 256) + (1 + 4 + 256)
    + 8 + 1 + 8 + 8;

/// One registered identity.
#[derive(Debug, Clone, PartialEq, Eq)]
pub struct Creator {
    /// The identity allowed to mutate this record; never changes.
    pub authority: Vec<u8>,
    pub name: Vec<u8>,
    pub email: Option<Vec<u8>>,
    pub bio: Option<Vec<u8>>,
    pub avatar: Option<Vec<u8>>,
    pub registered_at: i64,
    pub is_active: bool,
    pub total_supporters: u64,
    /// Doubles as the next content index to be issued.
    pub total_content: u64,
}

/// The mathematical image of a creator record.
#[verifier::ext_equal]
pub struct CreatorV {
    pub authority: Seq<u8>,
    pub name: Seq<u8>,
    pub email: Option<Seq<u8>>,
    pub bio: Option<Seq<u8>>,
    pub avatar: Option<Seq<u8>>,
    pub registered_at: i64,
    pub is_active: bool,
    pub total_supporters: u64,
    pub total_content: u64,
}

impl View for Creator {
    type V = CreatorV;

    open spec fn view(&self) -> CreatorV {
        CreatorV {
            authority: self.authority@,
            name: self.name@,
            email: opt_bytes_view(self.email),
            bio: opt_bytes_view(self.bio),
            avatar: opt_bytes_view(self.avatar),
            registered_at: self.registered_at,
            is_active: self.is_active,
            total_supporters: self.total_supporters,
            total_content: self.total_content,
        }
    }
}

impl CreatorV {
    /// A well-formed creator: a full-size authority key and every text
    /// field within its byte budget.
    pub open spec fn wf(self) -> bool {
        &&& self.authority.len() == 32
        &&& self.name.len() <= MAX_NAME_LEN
        &&& (self.email is Some ==> self.email->Some_0.len() <= MAX_EMAIL_LEN)
        &&& (self.bio is Some ==> self.bio->Some_0.len() <= MAX_BIO_LEN)
        &&& (self.avatar is Some ==> self.avatar->Some_0.len() <= MAX_AVATAR_LEN)
    }
}

impl Creator {
    /// A well-formed creator record.
    pub open spec fn wf(self) -> bool {
        self@.wf()
    }
}

/// A read-only projection of a creator record: the stored fields minus
/// the owning key.
#[derive(Debug, Clone, PartialEq, Eq)]
pub struct CreatorInfo {
    pub name: Vec<u8>,
    pub email: Option<Vec<u8>>,
    pub bio: Option<Vec<u8>>,
    pub avatar: Option<Vec<u8>>,
    pub registered_at: i64,
    pub is_active: bool,
    pub total_supporters: u64,
    pub total_content: u64,
}

/// The mathematical image of a creator projection.
#[verifier::ext_equal]
pub struct CreatorInfoV {
    pub name: Seq<u8>,
    pub email: Option<Seq<u8>>,
    pub bio: Option<Seq<u8>>,
    pub avatar: Option<Seq<u8>>,
    pub registered_at: i64,
    pub is_active: bool,
    pub total_supporters: u64,
    pub total_content: u64,
}

impl View for CreatorInfo {
    type V = CreatorInfoV;

    open spec fn view(&self) -> CreatorInfoV {
        CreatorInfoV {
            name: self.name@,
            email: opt_bytes_view(self.email),
            bio: opt_bytes_view(self.bio),
            avatar: opt_bytes_view(self.avatar),
            registered_at: self.registered_at,
            is_active: self.is_active,
            total_supporters: self.total_supporters,
            total_content: self.total_content,
        }
    }
}

/// Whether an optional field, when supplied, stays within `max` bytes.
pub open spec fn opt_within(o: Option<Seq<u8>>, max: int) -> bool {
    o is Some ==> o->Some_0.len() <= max
}

/// What registration yields: the record's derived address and salt, and
/// the fresh record itself, active with zeroed counters; or the error
/// telling which validation failed.
pub open spec fn register_creator_spec(
    authority: Seq<u8>,
    name: Seq<u8>,
    email: Option<Seq<u8>>,
    bio: Option<Seq<u8>>,
    avatar: Option<Seq<u8>>,
    now: i64,
    program_id: Seq<u8>,
) -> Result<(Seq<u8>, u8, CreatorV), ErrorCode> {
    if name.len() > MAX_NAME_LEN {
        Err(ErrorCode::ContentTooLong)
    } else if !opt_within(email, MAX_EMAIL_LEN as int) {
        Err(ErrorCode::ContentTooLong)
    } else if !opt_within(bio, MAX_BIO_LEN as int) {
        Err(ErrorCode::ContentTooLong)
    } else if !opt_within(avatar, MAX_AVATAR_LEN as int) {
        Err(ErrorCode::ContentTooLong)
    } else {
        match find_bump(creator_seed_views(authority), program_id) {
            Some((addr, bump)) => Ok(
                (
                    addr,
                    bump,
                    CreatorV {
                        authority,
                        name,
                        email,
                        bio,
                        avatar,
                        registered_at: now,
                        is_active: true,
                        total_supporters: 0,
                        total_content: 0,
                    },
                ),
            ),
            None => Err(ErrorCode::BumpNotFound),
        }
    }
}

/// Registers a creator: validates every field against its byte budget,
/// derives the record's address from the "creator" tag and the caller's
/// key, and returns the address, its salt, and the fresh record.
pub fn register_creator(
    authority: &Vec<u8>,
    name: Vec<u8>,
    email: Option<Vec<u8>>,
    bio: Option<Vec<u8>>,
    avatar: Option<Vec<u8>>,
    now: i64,
    program_id: &Vec<u8>,
) -> (r: Result<(Vec<u8>, u8, Creator), ErrorCode>)
    requires
        authority@.len() == 32,
        program_id@.len() == 32,
    ensures
        ({
            let s = register_creator_spec(
                authority@,
                name@,
                opt_bytes_view(email),
                opt_bytes_view(bio),
                opt_bytes_view(avatar),
                now,
                program_id@,
            );
            match r {
                Ok(t) => s == Ok::<_, ErrorCode>((t.0@, t.1, t.2@)) && t.2.wf(),
                Err(e) => s == Err::<(Seq<u8>, u8, CreatorV), _>(e),
            }
        }),
{
    if name.len() > MAX_NAME_LEN {
        return Err(ErrorCode::ContentTooLong);
    }
    if match &email {
        Some(e) => e.len() > MAX_EMAIL_LEN,
        None => false,
    } {
        return Err(ErrorCode::ContentTooLong);
    }
    if match &bio {
        Some(b) => b.len() > MAX_BIO_LEN,
        None => false,
    } {
        return Err(ErrorCode::ContentTooLong);
    }
    if match &avatar {
        Some(a) => a.len() > MAX_AVATAR_LEN,
        None => false,
    } {
        return Err(ErrorCode::ContentTooLong);
    }
    match find_creator_address(authority, program_id) {
        Some((addr, bump)) => {
            let creator = Creator {
                authority: copy_bytes(authority),
                name,
                email,
                bio,
                avatar,
                registered_at: now,
                is_active: true,
                total_supporters: 0,
                total_content: 0,
            };
            Ok((addr, bump, creator))
        },
        None => Err(ErrorCode::BumpNotFound),
    }
}

/// What an update yields: the record with exactly the supplied fields
/// overwritten, or the error telling which validation failed; an update
/// from anyone but the recorded authority changes nothing.
pub open spec fn update_creator_spec(
    c: CreatorV,
    caller: Seq<u8>,
    name: Option<Seq<u8>>,
    email: Option<Seq<u8>>,
    bio: Option<Seq<u8>>,
    avatar: Option<Seq<u8>>,
) -> Result<CreatorV, ErrorCode> {
    if caller != c.authority {
        Err(ErrorCode::UnauthorizedAccess)
    } else if !opt_within(name, MAX_NAME_LEN as int) {
        Err(ErrorCode::ContentTooLong)
    } else if !opt_within(email, MAX_EMAIL_LEN as int) {
        Err(ErrorCode::ContentTooLong)
    } else if !opt_within(bio, MAX_BIO_LEN as int) {
        Err(ErrorCode::ContentTooLong)
    } else if !opt_within(avatar, MAX_AVATAR_LEN as int) {
        Err(ErrorCode::ContentTooLong)
    } else {
        Ok(
            CreatorV {
                name: if name is Some {
                    name->Some_0
                } else {
                    c.name
                },
                email: if email is Some {
                    email
                } else {
                    c.email
                },
                bio: if bio is Some {
                    bio
                } else {
                    c.bio
                },
                avatar: if avatar is Some {
                    avatar
                } else {
                    c.avatar
                },
                ..c
            },
        )
    }
}

/// Overwrites only the fields explicitly supplied, leaving the others at
/// their previous values; gated on the recorded authority, and
/// all-or-nothing: on any failure the record is unchanged.
pub fn update_creator(
    creator: &mut Creator,
    caller: &Vec<u8>,
    name: Option<Vec<u8>>,
    email: Option<Vec<u8>>,
    bio: Option<Vec<u8>>,
    avatar: Option<Vec<u8>>,
) -> (r: Result<(), ErrorCode>)
    requires
        old(creator).wf(),
    ensures
        ({
            let s = update_creator_spec(
                old(creator)@,
                caller@,
                opt_bytes_view(name),
                opt_bytes_view(email),
                opt_bytes_view(bio),
                opt_bytes_view(avatar),
            );
            match r {
                Ok(_) => s == Ok::<_, ErrorCode>(final(creator)@),
                Err(e) => s == Err::<CreatorV, _>(e) && final(creator)@ == old(creator)@,
            }
        }),
        final(creator).wf(),
        final(creator)@.authority == old(creator)@.authority,
        final(creator)@.total_content == old(creator)@.total_content,
        final(creator)@.total_supporters == old(creator)@.total_supporters,
{
    if !bytes_eq(caller, &creator.authority) {
        return Err(ErrorCode::UnauthorizedAccess);
    }
    if match &name {
        Some(n) => n.len() > MAX_NAME_LEN,
        None => false,
    } {
        return Err(ErrorCode::ContentTooLong);
    }
    if match &email {
        Some(e) => e.len() > MAX_EMAIL_LEN,
        None => false,
    } {
        return Err(ErrorCode::ContentTooLong);
    }
    if match &bio {
        Some(b) => b.len() > MAX_BIO_LEN,
        None => false,
    } {
        return Err(ErrorCode::ContentTooLong);
    }
    if match &avatar {
        Some(a) => a.len() > MAX_AVATAR_LEN,
        None => false,
    } {
        return Err(ErrorCode::ContentTooLong);
    }
    if let Some(n) = name {
        creator.name = n;
    }
    if let Some(e) = email {
        creator.email = Some(e);
    }
    if let Some(b) = bio {
        creator.bio = Some(b);
    }
    if let Some(a) = avatar {
        creator.avatar = Some(a);
    }
    Ok(())
}

/// What deactivation yields: the same record with `is_active` false.
pub open spec fn deactivate_creator_spec(c: CreatorV, caller: Seq<u8>) -> Result<
    CreatorV,
    ErrorCode,
> {
    if caller != c.authority {
        Err(ErrorCode::UnauthorizedAccess)
    } else {
        Ok(CreatorV { is_active: false, ..c })
    }
}

/// Soft-deletes the creator; reversible, gated on the authority.
pub fn deactivate_creator(creator: &mut Creator, caller: &Vec<u8>) -> (r: Result<(), ErrorCode>)
    requires
        old(creator).wf(),
    ensures
        ({
            let s = deactivate_creator_spec(old(creator)@, caller@);
            match r {
                Ok(_) => s == Ok::<_, ErrorCode>(final(creator)@),
                Err(e) => s == Err::<CreatorV, _>(e) && final(creator)@ == old(creator)@,
            }
        }),
        final(creator).wf(),
{
    if !bytes_eq(caller, &creator.authority) {
        return Err(ErrorCode::UnauthorizedAccess);
    }
    creator.is_active = false;
    Ok(())
}

/// What reactivation yields: the same record with `is_active` true.
pub open spec fn reactivate_creator_spec(c: CreatorV, caller: Seq<u8>) -> Result<
    CreatorV,
    ErrorCode,
> {
    if caller != c.authority {
        Err(ErrorCode::UnauthorizedAccess)
    } else {
        Ok(CreatorV { is_active: true, ..c })
    }
}

/// Reverses a deactivation; gated on the authority.
pub fn reactivate_creator(creator: &mut Creator, caller: &Vec<u8>) -> (r: Result<(), ErrorCode>)
    requires
        old(creator).wf(),
    ensures
        ({
            let s = reactivate_creator_spec(old(creator)@, caller@);
            match r {
                Ok(_) => s == Ok::<_, ErrorCode>(final(creator)@),
                Err(e) => s == Err::<CreatorV, _>(e) && final(creator)@ == old(creator)@,
            }
        }),
        final(creator).wf(),
{
    if !bytes_eq(caller, &creator.authority) {
        return Err(ErrorCode::UnauthorizedAccess);
    }
    creator.is_active = true;
    Ok(())
}

/// What a supporter-credit increment yields: the counter one higher, via
/// checked arithmetic; at the counter's ceiling the call fails and the
/// record keeps its pre-call state.
pub open spec fn increment_supporters_spec(c: CreatorV, caller: Seq<u8>) -> Result<
    CreatorV,
    ErrorCode,
> {
    if caller != c.authority {
        Err(ErrorCode::UnauthorizedAccess)
    } else if c.total_supporters == u64::MAX {
        Err(ErrorCode::MathOverflow)
    } else {
        Ok(CreatorV { total_supporters: (c.total_supporters + 1) as u64, ..c })
    }
}

/// Adds one supporter credit with overflow-checked arithmetic; gated on
/// the authority.
pub fn increment_supporters(creator: &mut Creator, caller: &Vec<u8>) -> (r: Result<(), ErrorCode>)
    requires
        old(creator).wf(),
    ensures
        ({
            let s = increment_supporters_spec(old(creator)@, caller@);
            match r {
                Ok(_) => s == Ok::<_, ErrorCode>(final(creator)@),
                Err(e) => s == Err::<CreatorV, _>(e) && final(creator)@ == old(creator)@,
            }
        }),
        final(creator).wf(),
{
    if !bytes_eq(caller, &creator.authority) {
        return Err(ErrorCode::UnauthorizedAccess);
    }
    if creator.total_supporters == u64::MAX {
        return Err(ErrorCode::MathOverflow);
    }
    creator.total_supporters = creator.total_supporters + 1;
    Ok(())
}

/// The projection a fetch returns: every stored field minus the owning
/// key.
pub open spec fn creator_info_of(c: CreatorV) -> CreatorInfoV {
    CreatorInfoV {
        name: c.name,
        email: c.email,
        bio: c.bio,
        avatar: c.avatar,
        registered_at: c.registered_at,
        is_active: c.is_active,
        total_supporters: c.total_supporters,
        total_content: c.total_content,
    }
}

/// What a private fetch yields: the projection, for the authority alone.
pub open spec fn fetch_creator_spec(c: CreatorV, caller: Seq<u8>) -> Result<
    CreatorInfoV,
    ErrorCode,
> {
    if caller != c.authority {
        Err(ErrorCode::UnauthorizedAccess)
    } else {
        Ok(creator_info_of(c))
    }
}

/// Returns the read-only projection of this creator's profile; scoped to
/// the record's own authority.
pub fn fetch_creator(creator: &Creator, caller: &Vec<u8>) -> (r: Result<CreatorInfo, ErrorCode>)
    ensures
        ({
            let s = fetch_creator_spec(creator@, caller@);
            match r {
                Ok(info) => s == Ok::<_, ErrorCode>(info@),
                Err(e) => s == Err::<CreatorInfoV, _>(e),
            }
        }),
{
    if !bytes_eq(caller, &creator.authority) {
        return Err(ErrorCode::UnauthorizedAccess);
    }
    let info = CreatorInfo {
        name: copy_bytes(&creator.name),
        email: copy_opt_bytes(&creator.email),
        bio: copy_opt_bytes(&creator.bio),
        avatar: copy_opt_bytes(&creator.avatar),
        registered_at: creator.registered_at,
        is_active: creator.is_active,
        total_supporters: creator.total_supporters,
        total_content: creator.total_content,
    };
    proof {
        assert(info@ =~= creator_info_of(creator@));
    }
    Ok(info)
}

/// Law: for every profile within its byte budgets, registering and then
/// fetching as the same authority returns exactly the submitted values,
/// with the record active and both counters zero.
pub proof fn lemma_register_then_fetch(
    authority: Seq<u8>,
    name: Seq<u8>,
    email: Option<Seq<u8>>,
    bio: Option<Seq<u8>>,
    avatar: Option<Seq<u8>>,
    now: i64,
    program_id: Seq<u8>,
    addr: Seq<u8>,
    bump: u8,
    c: CreatorV,
)
    requires
        register_creator_spec(authority, name, email, bio, avatar, now, program_id) == Ok::<
            _,
            ErrorCode,
        >((addr, bump, c)),
    ensures
        fetch_creator_spec(c, authority) == Ok::<_, ErrorCode>(
            CreatorInfoV {
                name,
                email,
                bio,
                avatar,
                registered_at: now,
                is_active: true,
                total_supporters: 0,
                total_content: 0,
            },
        ),
{
    assert(fetch_creator_spec(c, authority)->Ok_0 =~= CreatorInfoV {
        name,
        email,
        bio,
        avatar,
        registered_at: now,
        is_active: true,
        total_supporters: 0,
        total_content: 0,
    });
}

/// Law: an update presented by any identity other than the recorded
/// authority is rejected with `UnauthorizedAccess`, whatever the payload.
pub proof fn lemma_update_requires_authority(
    c: CreatorV,
    caller: Seq<u8>,
    name: Option<Seq<u8>>,
    email: Option<Seq<u8>>,
    bio: Option<Seq<u8>>,
    avatar: Option<Seq<u8>>,
)
    requires
        caller != c.authority,
    ensures
        update_creator_spec(c, caller, name, email, bio, avatar) == Err::<CreatorV, _>(
            ErrorCode::UnauthorizedAccess,
        ),
{
}

/// Law: no creator operation ever changes the record's authority, and
/// both counters are monotonically non-decreasing: an update touches
/// neither, a flip of the active flag touches neither, and a successful
/// supporter increment raises its counter by exactly one.
pub proof fn lemma_creator_invariants(
    c: CreatorV,
    caller: Seq<u8>,
    name: Option<Seq<u8>>,
    email: Option<Seq<u8>>,
    bio: Option<Seq<u8>>,
    avatar: Option<Seq<u8>>,
)
    ensures
        ({
            let s = update_creator_spec(c, caller, name, email, bio, avatar);
            s is Ok ==> {
                &&& s->Ok_0.authority == c.authority
                &&& s->Ok_0.total_content == c.total_content
                &&& s->Ok_0.total_supporters == c.total_supporters
            }
        }),
        ({
            let s = deactivate_creator_spec(c, caller);
            s is Ok ==> {
                &&& s->Ok_0.authority == c.authority
                &&& s->Ok_0.total_content == c.total_content
                &&& s->Ok_0.total_supporters == c.total_supporters
            }
        }),
        ({
            let s = reactivate_creator_spec(c, caller);
            s is Ok ==> {
                &&& s->Ok_0.authority == c.authority
                &&& s->Ok_0.total_content == c.total_content
                &&& s->Ok_0.total_supporters == c.total_supporters
            }
        }),
        ({
            let s = increment_supporters_spec(c, caller);
            s is Ok ==> {
                &&& s->Ok_0.authority == c.authority
                &&& s->Ok_0.total_content == c.total_content
                &&& s->Ok_0.total_supporters == c.total_supporters + 1
            }
        }),
{
}

/// Law: with the supporter counter at its ceiling, an increment by the
/// authority fails with `MathOverflow`, and the counter stays put.
pub proof fn lemma_increment_supporters_overflow(c: CreatorV)
    requires
        c.total_supporters == u64::MAX,
    ensures
        increment_supporters_spec(c, c.authority) == Err::<CreatorV, _>(ErrorCode::MathOverflow),
{
}

} // verus!
