//! Program state processor: the single allowed transition of a scoring mint
//! record, `Uninitialized` to `Initialized`.
//!
//! The surrounding host owns access control and rent accounting: it hands the
//! processor an already-authorized record buffer together with the account's
//! lamport balance and the externally computed rent-exemption minimum for an
//! account of that length, and it persists the buffer afterwards.

use crate::error::{ProgramError, ScoreError};
use crate::instruction::{parse_instruction, ScoreInstruction};
use crate::state::{
    identity_opt_view, lemma_mint_round_trip, mint_bytes, parse_mint, uri_encodable, Identity,
    Mint, MintState, MintView,
};
use crate::utils::try_from_slice_checked;
use vstd::prelude::*;

verus! {

/// What one initialize call does to a record, given the caller-supplied
/// parameters and funding facts. The preconditions fail in a fixed order,
/// each with its own error, and a failure leaves the record untouched:
/// a buffer that is not 194 bytes long is a `DataTypeMismatch`; 194 bytes
/// that are not a valid record are `InvalidAccountData`; a record that is
/// not `Uninitialized` is `MintExists`; an underfunded account is
/// `ScoringMintNotRentExempt`; a URI the fixed layout cannot store is a
/// `DataTypeMismatch`. Otherwise the record becomes the packed form of the
/// fully initialized mint.
pub open spec fn initialize_outcome(
    record: Seq<u8>,
    score_authority: Seq<u8>,
    freeze_authority: Option<Seq<u8>>,
    metadata_uri: Seq<u8>,
    rent_exempt_minimum: u64,
    account_lamports: u64,
) -> Result<Seq<u8>, ProgramError> {
    if record.len() != 194 {
        Err(ProgramError::Custom(ScoreError::DataTypeMismatch))
    } else {
        match parse_mint(record) {
            None => Err(ProgramError::InvalidAccountData),
            Some(m) => {
                if m.state != MintState::Uninitialized {
                    Err(ProgramError::Custom(ScoreError::MintExists))
                } else if account_lamports < rent_exempt_minimum {
                    Err(ProgramError::Custom(ScoreError::ScoringMintNotRentExempt))
                } else if !uri_encodable(metadata_uri) {
                    Err(ProgramError::Custom(ScoreError::DataTypeMismatch))
                } else {
                    Ok(
                        mint_bytes(
                            MintView {
                                score_authority,
                                freeze_authority,
                                state: MintState::Initialized,
                                metadata_uri,
                            },
                        ),
                    )
                }
            },
        }
    }
}

/// Checks that a URI fits the record's fixed 128-byte region: at most 128
/// bytes, none of them zero.
fn uri_fits(u: &Vec<u8>) -> (r: bool)
    ensures
        r == uri_encodable(u@),
{
    if u.len() > 128 {
        return false;
    }
    let mut i: usize = 0;
    while i < u.len()
        invariant
            i <= u@.len(),
            forall|k: int| 0 <= k < i ==> u@[k] != 0,
        decreases u@.len() - i,
    {
        if u[i] == 0 {
            return false;
        }
        i += 1;
    }
    true
}

/// Performs the `Uninitialized` to `Initialized` transition on a mint
/// record, writing the updated record back in place.
///
/// Either every precondition holds and the whole record is replaced by the
/// packed initialized mint, or the call fails with the first violated
/// precondition's error and the record is unchanged.
pub fn process_initialize_score_mint(
    record: &mut Vec<u8>,
    score_authority: &Identity,
    freeze_authority: Option<Identity>,
    metadata_uri: Vec<u8>,
    rent_exempt_minimum: u64,
    account_lamports: u64,
) -> (r: Result<(), ProgramError>)
    ensures
        match initialize_outcome(
            old(record)@,
            score_authority@,
            identity_opt_view(freeze_authority),
            metadata_uri@,
            rent_exempt_minimum,
            account_lamports,
        ) {
            Ok(bytes) => r matches Ok(()) && final(record)@ == bytes,
            Err(e) => r matches Err(got) && got == e && final(record)@ == old(record)@,
        },
{
    let mut mintdata = match try_from_slice_checked(record.as_slice(), Mint::SIZE) {
        Ok(m) => m,
        Err(e) => {
            return Err(e);
        },
    };
    if mintdata.state != MintState::Uninitialized {
        return Err(ProgramError::from(ScoreError::MintExists));
    }
    if account_lamports < rent_exempt_minimum {
        return Err(ProgramError::from(ScoreError::ScoringMintNotRentExempt));
    }
    if !uri_fits(&metadata_uri) {
        return Err(ProgramError::from(ScoreError::DataTypeMismatch));
    }
    mintdata.score_authority = *score_authority;
    mintdata.freeze_authority = freeze_authority;
    mintdata.state = MintState::Initialized;
    mintdata.metadata_uri = metadata_uri;

    let packed = mintdata.pack();
    *record = packed;
    Ok(())
}

/// Decodes an instruction and dispatches it against the given account
/// record and its funding facts.
pub fn process_instruction(
    record: &mut Vec<u8>,
    account_lamports: u64,
    rent_exempt_minimum: u64,
    input: &[u8],
) -> (r: Result<(), ProgramError>)
    ensures
        match parse_instruction(input@) {
            None => r matches Err(e) && e == ProgramError::InvalidInstructionData
                && final(record)@ == old(record)@,
            Some(iv) => match initialize_outcome(
                old(record)@,
                iv.score_authority,
                iv.freeze_authority,
                iv.metadata_uri,
                rent_exempt_minimum,
                account_lamports,
            ) {
                Ok(bytes) => r matches Ok(()) && final(record)@ == bytes,
                Err(e) => r matches Err(got) && got == e && final(record)@ == old(record)@,
            },
        },
{
    let instruction = match ScoreInstruction::unpack(input) {
        Ok(ins) => ins,
        Err(e) => {
            return Err(e);
        },
    };
    match instruction {
        ScoreInstruction::InitializeScoreMint { score_authority, freeze_authority, metadata_uri } =>
            process_initialize_score_mint(
            record,
            &score_authority,
            freeze_authority,
            metadata_uri,
            rent_exempt_minimum,
            account_lamports,
        ),
    }
}

/// Single-writer law: when an initialize call succeeds, any further
/// initialize call on the resulting record fails with `MintExists`, whatever
/// parameters it carries — and, by the contract of
/// `process_initialize_score_mint`, leaves the record byte-identical.
pub proof fn lemma_single_writer(
    record: Seq<u8>,
    score_authority: Seq<u8>,
    freeze_authority: Option<Seq<u8>>,
    metadata_uri: Seq<u8>,
    rent_exempt_minimum: u64,
    account_lamports: u64,
    next: Seq<u8>,
    score_authority2: Seq<u8>,
    freeze_authority2: Option<Seq<u8>>,
    metadata_uri2: Seq<u8>,
    rent_exempt_minimum2: u64,
    account_lamports2: u64,
)
    requires
        score_authority.len() == 32,
        freeze_authority matches Some(f) ==> f.len() == 32,
        initialize_outcome(
            record,
            score_authority,
            freeze_authority,
            metadata_uri,
            rent_exempt_minimum,
            account_lamports,
        ) == Ok::<Seq<u8>, ProgramError>(next),
    ensures
        initialize_outcome(
            next,
            score_authority2,
            freeze_authority2,
            metadata_uri2,
            rent_exempt_minimum2,
            account_lamports2,
        ) == Err::<Seq<u8>, ProgramError>(ProgramError::Custom(ScoreError::MintExists)),
{
    let v = MintView {
        score_authority,
        freeze_authority,
        state: MintState::Initialized,
        metadata_uri,
    };
    lemma_mint_round_trip(v);
}

/// Rent gate law: an initialize call on an `Uninitialized` record whose
/// account holds fewer lamports than the rent-exemption minimum fails with
/// `ScoringMintNotRentExempt` — and, by the contract of
/// `process_initialize_score_mint`, leaves the record unchanged, so it still
/// parses as `Uninitialized`.
pub proof fn lemma_rent_gate(
    record: Seq<u8>,
    score_authority: Seq<u8>,
    freeze_authority: Option<Seq<u8>>,
    metadata_uri: Seq<u8>,
    rent_exempt_minimum: u64,
    account_lamports: u64,
)
    requires
        parse_mint(record) matches Some(m) && m.state == MintState::Uninitialized,
        account_lamports < rent_exempt_minimum,
    ensures
        initialize_outcome(
            record,
            score_authority,
            freeze_authority,
            metadata_uri,
            rent_exempt_minimum,
            account_lamports,
        ) == Err::<Seq<u8>, ProgramError>(
            ProgramError::Custom(ScoreError::ScoringMintNotRentExempt),
        ),
{
}

} // verus!
