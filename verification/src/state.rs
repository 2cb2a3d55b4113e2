//! The program-state singleton.
//!
//! Exactly one instance exists for the whole system: its address is
//! derived from the bare "state" tag, with no variable key fragments, so
//! every initialization attempt lands on the same address and the host's
//! occupancy check rejects every attempt after the first.

use crate::address::find_bump;
use crate::address::find_state_address;
use crate::address::state_seed_views;
use crate::bytes::copy_bytes;
use crate::errors::ErrorCode;
use vstd::prelude::*;

verus! {

/// Storage footprint reserved for the program state: discriminator,
/// authority key, two counters, and the derivation salt.
pub const STATE_SPACE: usize = 8 + 32 + 8 + 8 + 1;

/// The global singleton record.
#[derive(Debug, Clone, PartialEq, Eq)]
pub struct ProgramState {
    /// The deployer's identity key.
    pub authority: Vec<u8>,
    pub total_creators: u64,
    pub total_content: u64,
    /// The derivation salt the singleton's address was created with.
    pub bump: u8,
}

/// The mathematical image of the program state.
#[verifier::ext_equal]
pub struct ProgramStateV {
    pub authority: Seq<u8>,
    pub total_creators: u64,
    pub total_content: u64,
    pub bump: u8,
}

impl View for ProgramState {
    type V = ProgramStateV;

    open spec fn view(&self) -> ProgramStateV {
        ProgramStateV {
            authority: self.authority@,
            total_creators: self.total_creators,
            total_content: self.total_content,
            bump: self.bump,
        }
    }
}

impl ProgramStateV {
    /// A well-formed program state: a full-size authority key.
    pub open spec fn wf(self) -> bool {
        self.authority.len() == 32
    }
}

impl ProgramState {
    /// A well-formed program state record.
    pub open spec fn wf(self) -> bool {
        self@.wf()
    }
}

/// What initialization yields: the singleton's derived address and the
/// fresh record, counters zeroed, owned by the deployer.
pub open spec fn initialize_spec(authority: Seq<u8>, program_id: Seq<u8>) -> Result<
    (Seq<u8>, ProgramStateV),
    ErrorCode,
> {
    match find_bump(state_seed_views(), program_id) {
        Some((addr, bump)) => Ok(
            (addr, ProgramStateV { authority, total_creators: 0, total_content: 0, bump }),
        ),
        None => Err(ErrorCode::BumpNotFound),
    }
}

/// Creates the program-state singleton with zeroed counters at the
/// address derived from the bare "state" tag.
///
/// The host commits the record only if that address is still empty;
/// because the derivation has no variable key fragments, a second
/// initialization re-derives the same address and is rejected there.
pub fn initialize(authority: &Vec<u8>, program_id: &Vec<u8>) -> (r: Result<
    (Vec<u8>, ProgramState),
    ErrorCode,
>)
    requires
        authority@.len() == 32,
        program_id@.len() == 32,
    ensures
        ({
            let s = initialize_spec(authority@, program_id@);
            match r {
                Ok(t) => s == Ok::<_, ErrorCode>((t.0@, t.1@)) && t.1.wf(),
                Err(e) => s == Err::<(Seq<u8>, ProgramStateV), _>(e),
            }
        }),
{
    match find_state_address(program_id) {
        Some((addr, bump)) => {
            let state = ProgramState {
                authority: copy_bytes(authority),
                total_creators: 0,
                total_content: 0,
                bump,
            };
            Ok((addr, state))
        },
        None => Err(ErrorCode::BumpNotFound),
    }
}

/// Law: initialization is deterministic. Every attempt under the same
/// program derives the same singleton address, whoever the deployer is;
/// that is what makes the occupancy check at that address an effective
/// create-exactly-once guard.
pub proof fn lemma_singleton_address(
    authority_a: Seq<u8>,
    authority_b: Seq<u8>,
    program_id: Seq<u8>,
    a: (Seq<u8>, ProgramStateV),
    b: (Seq<u8>, ProgramStateV),
)
    requires
        initialize_spec(authority_a, program_id) == Ok::<_, ErrorCode>(a),
        initialize_spec(authority_b, program_id) == Ok::<_, ErrorCode>(b),
    ensures
        a.0 == b.0,
        a.1.bump == b.1.bump,
        a.1.total_creators == 0 && a.1.total_content == 0,
{
}

} // verus!
