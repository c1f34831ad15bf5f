//! Utilities for the scoring program

use crate::error::{ProgramError, ScoreError};
use crate::state::{
    parse_mint, lemma_stored_uri_len_is, stored_uri, Identity, Mint, MintState,
};
use vstd::prelude::*;

verus! {

/// Deserializes a Mint record from a byte buffer, after checking that the
/// buffer's length matches the expected data size exactly.
///
/// A length mismatch fails with `DataTypeMismatch`; a buffer of the right
/// length whose content is not a valid record fails with
/// `InvalidAccountData`.
pub fn try_from_slice_checked(data: &[u8], data_size: usize) -> (r: Result<Mint, ProgramError>)
    ensures
        data@.len() != data_size ==> r == Err::<Mint, ProgramError>(
            ProgramError::Custom(ScoreError::DataTypeMismatch),
        ),
        data@.len() == data_size ==> match parse_mint(data@) {
            Some(v) => r matches Ok(m) && m@ == v,
            None => r == Err::<Mint, ProgramError>(ProgramError::InvalidAccountData),
        },
{
    if data.len() != data_size {
        return Err(ProgramError::Custom(ScoreError::DataTypeMismatch));
    }
    if data.len() != 194 {
        return Err(ProgramError::InvalidAccountData);
    }
    let flag = data[32];
    if flag != 0 && flag != 1 {
        return Err(ProgramError::InvalidAccountData);
    }
    let tag = data[65];
    if tag != 0 && tag != 1 && tag != 2 {
        return Err(ProgramError::InvalidAccountData);
    }

    let mut score_bytes = [0u8; 32];
    let mut i: usize = 0;
    while i < 32
        invariant
            i <= 32,
            data@.len() == 194,
            forall|k: int| 0 <= k < i ==> score_bytes@[k] == data@[k],
        decreases 32 - i,
    {
        score_bytes[i] = data[i];
        i += 1;
    }
    let score_authority = Identity { bytes: score_bytes };
    proof {
        assert(score_authority@ =~= data@.subrange(0, 32));
    }

    let freeze_authority = if flag == 1 {
        let mut freeze_bytes = [0u8; 32];
        let mut i: usize = 0;
        while i < 32
            invariant
                i <= 32,
                data@.len() == 194,
                forall|k: int| 0 <= k < i ==> freeze_bytes@[k] == data@[33 + k],
            decreases 32 - i,
        {
            freeze_bytes[i] = data[33 + i];
            i += 1;
        }
        proof {
            assert(freeze_bytes@ =~= data@.subrange(33, 65));
        }
        Some(Identity { bytes: freeze_bytes })
    } else {
        None
    };

    let state = if tag == 0 {
        MintState::Uninitialized
    } else if tag == 1 {
        MintState::Initialized
    } else {
        MintState::Frozen
    };

    let mut metadata_uri: Vec<u8> = Vec::new();
    let mut j: usize = 66;
    loop
        invariant
            66 <= j <= 194,
            data@.len() == 194,
            metadata_uri@ =~= data@.subrange(66, j as int),
            forall|k: int| 66 <= k < j ==> data@[k] != 0,
        ensures
            66 <= j <= 194,
            metadata_uri@ == data@.subrange(66, j as int),
            forall|k: int| 66 <= k < j ==> data@[k] != 0,
            j == 194 || data@[j as int] == 0,
        decreases 194 - j,
    {
        if j == 194 {
            break;
        }
        let b = data[j];
        if b == 0 {
            break;
        }
        metadata_uri.push(b);
        j += 1;
    }
    proof {
        let region = data@.subrange(66, 194);
        assert(forall|k: int| 0 <= k < j - 66 ==> region[k] != 0);
        lemma_stored_uri_len_is(region, j - 66);
        assert(metadata_uri@ =~= stored_uri(region));
    }

    let mint = Mint { score_authority, freeze_authority, state, metadata_uri };
    proof {
        assert(parse_mint(data@) matches Some(v) && mint@ =~= v);
    }
    Ok(mint)
}

} // verus!
