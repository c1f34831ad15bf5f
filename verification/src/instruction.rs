//! Program instructions and their wire encoding.
//!
//! An instruction travels as a deterministic, versionless byte string: a
//! one-byte variant tag, the 32 score-authority bytes, a one-byte
//! freeze-authority presence flag followed by the 32 authority bytes only
//! when present, and the metadata URI as a four-byte little-endian length
//! prefix followed by exactly that many bytes. Decoding consumes the whole
//! input or fails.

use crate::check_program_account;
use crate::error::ProgramError;
use crate::state::{identity_opt_view, Identity};
use vstd::prelude::*;

verus! {

/// Instructions supported by the scoring program.
pub enum ScoreInstruction {
    /// Create a new score type's mint.
    ///
    /// The instruction must reach the program within the same transaction as
    /// the system-level account creation for the mint account it initializes;
    /// otherwise another party can acquire ownership of the uninitialized
    /// account first.
    InitializeScoreMint {
        /// The authority permitted to issue or slash scores.
        score_authority: Identity,
        /// The optional freeze authority of the scoring mint.
        freeze_authority: Option<Identity>,
        /// UTF-8 bytes of the URI to JSON metadata for the score type.
        metadata_uri: Vec<u8>,
    },
}

/// The mathematical content of a `ScoreInstruction`.
#[verifier::ext_equal]
pub ghost struct ScoreInstructionView {
    /// The 32 score-authority bytes.
    pub score_authority: Seq<u8>,
    /// The freeze-authority bytes, when a freeze authority is present.
    pub freeze_authority: Option<Seq<u8>>,
    /// The metadata URI bytes.
    pub metadata_uri: Seq<u8>,
}

impl View for ScoreInstruction {
    type V = ScoreInstructionView;

    open spec fn view(&self) -> ScoreInstructionView {
        match self {
            ScoreInstruction::InitializeScoreMint {
                score_authority,
                freeze_authority,
                metadata_uri,
            } => ScoreInstructionView {
                score_authority: score_authority@,
                freeze_authority: identity_opt_view(*freeze_authority),
                metadata_uri: metadata_uri@,
            },
        }
    }
}

/// The four little-endian bytes of a length `n`; exact for `n < 2^32`.
pub open spec fn le32_bytes(n: int) -> Seq<u8> {
    seq![
        (n % 256) as u8,
        ((n / 256) % 256) as u8,
        ((n / 65536) % 256) as u8,
        ((n / 16777216) % 256) as u8,
    ]
}

/// The length encoded by the first four bytes of `b`, little endian.
pub open spec fn le32_value(b: Seq<u8>) -> int {
    b[0] + 256 * b[1] + 65536 * b[2] + 16777216 * b[3]
}

/// The wire form of an optional identity: a presence flag, followed by the
/// identity bytes only when present.
pub open spec fn option_identity_bytes(f: Option<Seq<u8>>) -> Seq<u8> {
    match f {
        Some(s) => seq![1u8] + s,
        None => seq![0u8],
    }
}

/// The wire encoding of an instruction.
pub open spec fn instruction_bytes(v: ScoreInstructionView) -> Seq<u8> {
    seq![0u8] + v.score_authority + option_identity_bytes(v.freeze_authority) + le32_bytes(
        v.metadata_uri.len() as int,
    ) + v.metadata_uri
}

/// What the tail of the wire form after the authorities parses to: a
/// length-prefixed URI that must consume the rest of the input exactly.
pub open spec fn parse_uri_tail(
    score_authority: Seq<u8>,
    freeze_authority: Option<Seq<u8>>,
    rest: Seq<u8>,
) -> Option<ScoreInstructionView> {
    if rest.len() < 4 {
        None
    } else if rest.len() - 4 == le32_value(rest) {
        Some(
            ScoreInstructionView {
                score_authority,
                freeze_authority,
                metadata_uri: rest.subrange(4, rest.len() as int),
            },
        )
    } else {
        None
    }
}

/// What a byte string parses to as an instruction, or `None` when it is not
/// the exact wire form of one.
pub open spec fn parse_instruction(b: Seq<u8>) -> Option<ScoreInstructionView> {
    if b.len() < 34 || b[0] != 0 {
        None
    } else {
        let score_authority = b.subrange(1, 33);
        if b[33] == 0 {
            parse_uri_tail(score_authority, None, b.subrange(34, b.len() as int))
        } else if b[33] == 1 {
            if b.len() < 66 {
                None
            } else {
                parse_uri_tail(
                    score_authority,
                    Some(b.subrange(34, 66)),
                    b.subrange(66, b.len() as int),
                )
            }
        } else {
            None
        }
    }
}

impl ScoreInstruction {
    /// Packs the instruction into its wire form.
    pub fn pack(&self) -> (r: Vec<u8>)
        requires
            self@.metadata_uri.len() <= 0xffff_ffff,
        ensures
            r@ == instruction_bytes(self@),
    {
        match self {
            ScoreInstruction::InitializeScoreMint {
                score_authority,
                freeze_authority,
                metadata_uri,
            } => {
                let mut out: Vec<u8> = Vec::new();
                out.push(0);
                let mut i: usize = 0;
                while i < 32
                    invariant
                        i <= 32,
                        out@ =~= seq![0u8] + score_authority@.subrange(0, i as int),
                    decreases 32 - i,
                {
                    out.push(score_authority.bytes[i]);
                    i += 1;
                }
                assert(out@ =~= seq![0u8] + score_authority@);
                match freeze_authority {
                    Some(f) => {
                        out.push(1);
                        let mut j: usize = 0;
                        while j < 32
                            invariant
                                j <= 32,
                                out@ =~= seq![0u8] + score_authority@ + seq![1u8] + f@.subrange(
                                    0,
                                    j as int,
                                ),
                            decreases 32 - j,
                        {
                            out.push(f.bytes[j]);
                            j += 1;
                        }
                    },
                    None => {
                        out.push(0);
                    },
                }
                let ghost head = seq![0u8] + score_authority@ + option_identity_bytes(
                    identity_opt_view(*freeze_authority),
                );
                assert(out@ =~= head);
                let n = metadata_uri.len() as u32;
                out.push((n % 256) as u8);
                out.push(((n / 256) % 256) as u8);
                out.push(((n / 65536) % 256) as u8);
                out.push(((n / 16777216) % 256) as u8);
                assert(out@ =~= head + le32_bytes(metadata_uri@.len() as int));
                let ghost head = head + le32_bytes(metadata_uri@.len() as int);
                let mut k: usize = 0;
                while k < metadata_uri.len()
                    invariant
                        k <= metadata_uri@.len(),
                        out@ =~= head + metadata_uri@.subrange(0, k as int),
                    decreases metadata_uri@.len() - k,
                {
                    out.push(metadata_uri[k]);
                    k += 1;
                }
                proof {
                    assert(out@ =~= instruction_bytes(self@));
                }
                out
            },
        }
    }

    /// Decodes an instruction from its wire form; fails with
    /// `InvalidInstructionData` on anything that is not the exact wire form
    /// of an instruction.
    pub fn unpack(input: &[u8]) -> (r: Result<ScoreInstruction, ProgramError>)
        ensures
            match parse_instruction(input@) {
                Some(v) => r matches Ok(ins) && ins@ == v,
                None => r == Err::<ScoreInstruction, ProgramError>(
                    ProgramError::InvalidInstructionData,
                ),
            },
    {
        if input.len() < 38 {
            return Err(ProgramError::InvalidInstructionData);
        }
        if input[0] != 0 {
            return Err(ProgramError::InvalidInstructionData);
        }
        let mut score_bytes = [0u8; 32];
        let mut i: usize = 0;
        while i < 32
            invariant
                i <= 32,
                input@.len() >= 38,
                forall|k: int| 0 <= k < i ==> score_bytes@[k] == input@[1 + k],
            decreases 32 - i,
        {
            score_bytes[i] = input[1 + i];
            i += 1;
        }
        let score_authority = Identity { bytes: score_bytes };
        proof {
            assert(score_authority@ =~= input@.subrange(1, 33));
        }

        let flag = input[33];
        let (freeze_authority, offset): (Option<Identity>, usize) = if flag == 0 {
            (None, 34)
        } else if flag == 1 {
            if input.len() < 70 {
                return Err(ProgramError::InvalidInstructionData);
            }
            let mut freeze_bytes = [0u8; 32];
            let mut i: usize = 0;
            while i < 32
                invariant
                    i <= 32,
                    input@.len() >= 70,
                    forall|k: int| 0 <= k < i ==> freeze_bytes@[k] == input@[34 + k],
                decreases 32 - i,
            {
                freeze_bytes[i] = input[34 + i];
                i += 1;
            }
            proof {
                assert(freeze_bytes@ =~= input@.subrange(34, 66));
            }
            (Some(Identity { bytes: freeze_bytes }), 66)
        } else {
            return Err(ProgramError::InvalidInstructionData);
        };

        let ghost tail = input@.subrange(offset as int, input@.len() as int);
        let n: u32 = input[offset] as u32 + 256 * (input[offset + 1] as u32) + 65536 * (input[
            offset + 2
        ] as u32) + 16777216 * (input[offset + 3] as u32);
        proof {
            assert(tail[0] == input@[offset as int]);
            assert(tail[1] == input@[offset + 1]);
            assert(tail[2] == input@[offset + 2]);
            assert(tail[3] == input@[offset + 3]);
            assert(n == le32_value(tail));
        }
        let uri_len = n as usize;
        if input.len() - (offset + 4) != uri_len {
            return Err(ProgramError::InvalidInstructionData);
        }

        let mut metadata_uri: Vec<u8> = Vec::new();
        let mut k: usize = offset + 4;
        while k < input.len()
            invariant
                offset + 4 <= k <= input@.len(),
                metadata_uri@ =~= input@.subrange(offset + 4, k as int),
            decreases input@.len() - k,
        {
            metadata_uri.push(input[k]);
            k += 1;
        }
        proof {
            assert(metadata_uri@ =~= tail.subrange(4, tail.len() as int));
        }

        let ins = ScoreInstruction::InitializeScoreMint {
            score_authority,
            freeze_authority,
            metadata_uri,
        };
        proof {
            assert(parse_instruction(input@) matches Some(v) && ins@ =~= v);
        }
        Ok(ins)
    }
}

/// The four-byte little-endian length prefix decodes to the length it was
/// made from, for lengths below 2^32.
proof fn lemma_le32_round_trip(n: int)
    requires
        0 <= n < 0x1_0000_0000,
    ensures
        le32_value(le32_bytes(n)) == n,
{
    assert(le32_value(le32_bytes(n)) == n % 256 + 256 * ((n / 256) % 256) + 65536 * ((n / 65536)
        % 256) + 16777216 * ((n / 16777216) % 256));
    let m = n as u32;
    assert(m % 256 + 256 * ((m / 256) % 256) + 65536 * ((m / 65536) % 256) + 16777216 * ((m
        / 16777216) % 256) == m) by (bit_vector);
}

/// Round-trip law for the instruction codec: every representable instruction
/// parses back from its wire form unchanged.
pub proof fn lemma_instruction_round_trip(v: ScoreInstructionView)
    requires
        v.score_authority.len() == 32,
        v.freeze_authority matches Some(f) ==> f.len() == 32,
        v.metadata_uri.len() < 0x1_0000_0000,
    ensures
        parse_instruction(instruction_bytes(v)) == Some(v),
{
    let b = instruction_bytes(v);
    let option_part = option_identity_bytes(v.freeze_authority);
    let prefix = le32_bytes(v.metadata_uri.len() as int);
    lemma_le32_round_trip(v.metadata_uri.len() as int);
    assert(b[0] == 0);
    assert(b.subrange(1, 33) =~= v.score_authority);
    match v.freeze_authority {
        Some(f) => {
            assert(b[33] == 1);
            assert(b.len() == 70 + v.metadata_uri.len());
            assert(b.subrange(34, 66) =~= f);
            let tail = b.subrange(66, b.len() as int);
            assert(tail =~= prefix + v.metadata_uri);
            assert(le32_value(tail) == le32_value(prefix));
            assert(tail.subrange(4, tail.len() as int) =~= v.metadata_uri);
        },
        None => {
            assert(b[33] == 0);
            assert(b.len() == 38 + v.metadata_uri.len());
            let tail = b.subrange(34, b.len() as int);
            assert(tail =~= prefix + v.metadata_uri);
            assert(le32_value(tail) == le32_value(prefix));
            assert(tail.subrange(4, tail.len() as int) =~= v.metadata_uri);
        },
    }
    assert(parse_instruction(b) matches Some(p) && p =~= v);
}

/// One account's role in an instruction.
pub struct AccountMeta {
    /// The account's address.
    pub pubkey: Identity,
    /// Whether the transaction must carry this account's signature.
    pub is_signer: bool,
    /// Whether the program may write to the account.
    pub is_writable: bool,
}

/// A program invocation: the program to run, the accounts it touches, and
/// the instruction's wire-encoded data.
pub struct Instruction {
    /// The identity of the program to invoke.
    pub program_id: Identity,
    /// The accounts the instruction touches, in order.
    pub accounts: Vec<AccountMeta>,
    /// The wire-encoded instruction data.
    pub data: Vec<u8>,
}

/// Creates an `InitializeScoreMint` instruction addressed to the scoring
/// program whose configured identity is `expected_program_id`.
pub fn initialize_score_mint(
    scoring_program_id: &Identity,
    expected_program_id: &Identity,
    mint_pubkey: &Identity,
    score_authority_pubkey: &Identity,
    freeze_authority_pubkey: Option<&Identity>,
    metadata_uri: Vec<u8>,
) -> (r: Result<Instruction, ProgramError>)
    requires
        metadata_uri@.len() <= 0xffff_ffff,
    ensures
        scoring_program_id@ != expected_program_id@ ==> (r matches Err(e) && e
            == ProgramError::IncorrectProgramId),
        scoring_program_id@ == expected_program_id@ ==> (r matches Ok(ins) && {
            &&& ins.program_id@ == scoring_program_id@
            &&& ins.accounts@.len() == 1
            &&& ins.accounts@[0].pubkey@ == mint_pubkey@
            &&& ins.accounts@[0].is_signer == false
            &&& ins.accounts@[0].is_writable == true
            &&& ins.data@ == instruction_bytes(
                ScoreInstructionView {
                    score_authority: score_authority_pubkey@,
                    freeze_authority: match freeze_authority_pubkey {
                        Some(f) => Some(f@),
                        None => None,
                    },
                    metadata_uri: metadata_uri@,
                },
            )
        }),
{
    match check_program_account(scoring_program_id, expected_program_id) {
        Ok(()) => (),
        Err(e) => {
            return Err(e);
        },
    }
    let freeze_authority = match freeze_authority_pubkey {
        Some(f) => Some(*f),
        None => None,
    };
    let data = ScoreInstruction::InitializeScoreMint {
        score_authority: *score_authority_pubkey,
        freeze_authority,
        metadata_uri,
    }.pack();

    let mut accounts: Vec<AccountMeta> = Vec::new();
    accounts.push(
        AccountMeta { pubkey: *mint_pubkey, is_signer: false, is_writable: true },
    );

    Ok(Instruction { program_id: *scoring_program_id, accounts, data })
}

} // verus!
