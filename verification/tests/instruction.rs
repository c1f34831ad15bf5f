use solana_scoring::check_program_account;
use solana_scoring::error::{ProgramError, ScoreError};
use solana_scoring::instruction::{initialize_score_mint, ScoreInstruction};
use solana_scoring::processor::process_instruction;
use solana_scoring::state::{Identity, Mint, MintState};
use solana_scoring::utils::try_from_slice_checked;

fn identity(n: u8) -> Identity {
    Identity { bytes: [n; 32] }
}

const RENT_EXEMPT_MINIMUM: u64 = 2_039_280;

#[test]
fn check_program_account_accepts_the_configured_id() {
    assert_eq!(check_program_account(&identity(9), &identity(9)), Ok(()));
    assert_eq!(
        check_program_account(&identity(9), &identity(8)),
        Err(ProgramError::IncorrectProgramId)
    );
}

#[test]
fn instruction_pack_unpack_round_trip() {
    let ins = ScoreInstruction::InitializeScoreMint {
        score_authority: identity(21),
        freeze_authority: Some(identity(22)),
        metadata_uri: b"https://example.org/m.json".to_vec(),
    };
    let wire = ins.pack();
    let back = ScoreInstruction::unpack(&wire).unwrap();
    let ScoreInstruction::InitializeScoreMint { score_authority, freeze_authority, metadata_uri } =
        back;
    assert_eq!(score_authority, identity(21));
    assert_eq!(freeze_authority, Some(identity(22)));
    assert_eq!(metadata_uri, b"https://example.org/m.json".to_vec());
}

#[test]
fn instruction_wire_layout() {
    let ins = ScoreInstruction::InitializeScoreMint {
        score_authority: identity(1),
        freeze_authority: None,
        metadata_uri: b"hi".to_vec(),
    };
    let wire = ins.pack();
    assert_eq!(wire.len(), 40);
    assert_eq!(wire[0], 0);
    assert_eq!(&wire[1..33], &[1u8; 32]);
    assert_eq!(wire[33], 0);
    assert_eq!(&wire[34..38], &[2, 0, 0, 0]);
    assert_eq!(&wire[38..40], b"hi");
}

#[test]
fn trailing_bytes_are_rejected() {
    let ins = ScoreInstruction::InitializeScoreMint {
        score_authority: identity(1),
        freeze_authority: None,
        metadata_uri: b"hi".to_vec(),
    };
    let mut wire = ins.pack();
    wire.push(0);
    assert!(matches!(
        ScoreInstruction::unpack(&wire),
        Err(ProgramError::InvalidInstructionData)
    ));
}

#[test]
fn builder_rejects_a_wrong_program_id() {
    let r = initialize_score_mint(
        &identity(40),
        &identity(41),
        &identity(1),
        &identity(2),
        None,
        b"https://example.org/m.json".to_vec(),
    );
    assert!(matches!(r, Err(ProgramError::IncorrectProgramId)));
}

#[test]
fn builder_output_drives_the_processor() {
    let program_id = identity(40);
    let mint_pubkey = identity(1);
    let authority = identity(2);
    let freeze = identity(3);
    let ins = initialize_score_mint(
        &program_id,
        &program_id,
        &mint_pubkey,
        &authority,
        Some(&freeze),
        b"https://example.org/m.json".to_vec(),
    )
    .unwrap();
    assert_eq!(ins.program_id, program_id);
    assert_eq!(ins.accounts.len(), 1);
    assert_eq!(ins.accounts[0].pubkey, mint_pubkey);
    assert!(!ins.accounts[0].is_signer);
    assert!(ins.accounts[0].is_writable);

    let mut record = vec![0u8; 194];
    let r = process_instruction(&mut record, RENT_EXEMPT_MINIMUM, RENT_EXEMPT_MINIMUM, &ins.data);
    assert_eq!(r, Ok(()));
    let mint = try_from_slice_checked(&record, Mint::SIZE).unwrap();
    assert_eq!(mint.state, MintState::Initialized);
    assert_eq!(mint.score_authority, authority);
    assert_eq!(mint.freeze_authority, Some(freeze));
    assert_eq!(mint.metadata_uri, b"https://example.org/m.json".to_vec());
}

#[test]
fn garbage_input_is_invalid_instruction_data() {
    let mut record = vec![0u8; 194];
    let r = process_instruction(&mut record, RENT_EXEMPT_MINIMUM, RENT_EXEMPT_MINIMUM, &[7, 7, 7]);
    assert_eq!(r, Err(ProgramError::InvalidInstructionData));
    assert_eq!(record, vec![0u8; 194]);
}

#[test]
fn processor_reports_the_rent_gate_through_dispatch() {
    let ins = ScoreInstruction::InitializeScoreMint {
        score_authority: identity(2),
        freeze_authority: None,
        metadata_uri: b"https://example.org/m.json".to_vec(),
    };
    let wire = ins.pack();
    let mut record = vec![0u8; 194];
    let r = process_instruction(&mut record, RENT_EXEMPT_MINIMUM - 1, RENT_EXEMPT_MINIMUM, &wire);
    assert_eq!(
        r,
        Err(ProgramError::Custom(ScoreError::ScoringMintNotRentExempt))
    );
    assert_eq!(record, vec![0u8; 194]);
}
