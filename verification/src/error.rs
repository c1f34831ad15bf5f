//! Error types

use vstd::prelude::*;

verus! {

/// Errors that may be returned by the scoring program's core logic.
#[derive(Clone, Debug, PartialEq, Eq, Structural)]
pub enum ScoreError {
    /// Incorrect authority provided on update or freeze.
    /// Reserved for authority-checked operations; the initialize transition
    /// never returns it.
    IncorrectAuthority,
    /// A value's byte length does not match what its fixed layout demands.
    DataTypeMismatch,
    /// The mint exists and cannot be re-initialized.
    MintExists,
    /// Scoring mint account is not rent-exempt as required.
    ScoringMintNotRentExempt,
}

/// Failures surfaced to the dispatch layer that drives the program.
#[derive(Clone, Debug, PartialEq, Eq, Structural)]
pub enum ProgramError {
    /// The supplied program identity is not the scoring program's.
    IncorrectProgramId,
    /// The instruction bytes do not decode to a known instruction.
    InvalidInstructionData,
    /// The account bytes have the right length but are not a valid record.
    InvalidAccountData,
    /// A failure specific to the scoring program.
    Custom(ScoreError),
}

impl From<ScoreError> for ProgramError {
    fn from(e: ScoreError) -> (r: Self) {
        ProgramError::Custom(e)
    }
}

impl vstd::std_specs::convert::FromSpecImpl<ScoreError> for ProgramError {
    open spec fn obeys_from_spec() -> bool {
        true
    }

    open spec fn from_spec(e: ScoreError) -> Self {
        ProgramError::Custom(e)
    }
}

} // verus!
