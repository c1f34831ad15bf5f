//! Scoring-mint account model: a fixed-layout, length-checked account codec
//! and the single state transition that initializes a scoring mint record.

pub mod error;
pub mod instruction;
pub mod processor;
pub mod state;
pub mod utils;
pub mod validate;

use vstd::prelude::*;

use crate::error::ProgramError;
use crate::state::Identity;

verus! {

/// Checks that the supplied program identity is the scoring program's own,
/// as configured by the surrounding dispatch layer.
pub fn check_program_account(solana_program_id: &Identity, scoring_program_id: &Identity) -> (r:
    Result<(), ProgramError>)
    ensures
        r matches Ok(()) <==> solana_program_id@ == scoring_program_id@,
        solana_program_id@ != scoring_program_id@ ==> (r matches Err(e) && e
            == ProgramError::IncorrectProgramId),
{
    if !(solana_program_id == scoring_program_id) {
        return Err(ProgramError::IncorrectProgramId);
    }
    Ok(())
}

} // verus!
