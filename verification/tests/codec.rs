use solana_scoring::error::{ProgramError, ScoreError};
use solana_scoring::state::{Identity, Mint, MintState};
use solana_scoring::utils::try_from_slice_checked;

fn identity(n: u8) -> Identity {
    Identity { bytes: [n; 32] }
}

#[test]
fn round_trip_no_freeze_authority() {
    let mint = Mint {
        score_authority: identity(7),
        freeze_authority: None,
        state: MintState::Initialized,
        metadata_uri: b"https://example.org/m.json".to_vec(),
    };
    let packed = mint.pack();
    assert_eq!(packed.len(), Mint::SIZE);
    let decoded = try_from_slice_checked(&packed, Mint::SIZE).unwrap();
    assert_eq!(decoded, mint);
}

#[test]
fn round_trip_with_freeze_authority() {
    let mint = Mint {
        score_authority: identity(1),
        freeze_authority: Some(identity(2)),
        state: MintState::Frozen,
        metadata_uri: b"https://example.org/frozen.json".to_vec(),
    };
    let packed = mint.pack();
    assert_eq!(packed.len(), Mint::SIZE);
    let decoded = try_from_slice_checked(&packed, Mint::SIZE).unwrap();
    assert_eq!(decoded, mint);
}

#[test]
fn fixed_length_enforcement() {
    for len in [0usize, 193, 195] {
        let buffer = vec![0u8; len];
        let r = try_from_slice_checked(&buffer, Mint::SIZE);
        assert_eq!(r, Err(ProgramError::Custom(ScoreError::DataTypeMismatch)));
    }
}

#[test]
fn fresh_account_decode() {
    let buffer = vec![0u8; 194];
    let decoded = try_from_slice_checked(&buffer, Mint::SIZE).unwrap();
    assert_eq!(decoded.state, MintState::Uninitialized);
    assert_eq!(decoded.score_authority, identity(0));
    assert!(decoded.freeze_authority.is_none());
    assert!(decoded.metadata_uri.is_empty());
}

#[test]
fn malformed_freeze_flag_is_invalid_account_data() {
    let mut buffer = vec![0u8; 194];
    buffer[32] = 2;
    let r = try_from_slice_checked(&buffer, Mint::SIZE);
    assert_eq!(r, Err(ProgramError::InvalidAccountData));
}

#[test]
fn malformed_state_tag_is_invalid_account_data() {
    let mut buffer = vec![0u8; 194];
    buffer[65] = 3;
    let r = try_from_slice_checked(&buffer, Mint::SIZE);
    assert_eq!(r, Err(ProgramError::InvalidAccountData));
}

#[test]
fn ignored_freeze_bytes_do_not_block_decoding() {
    let mut buffer = vec![0u8; 194];
    buffer[40] = 9;
    let decoded = try_from_slice_checked(&buffer, Mint::SIZE).unwrap();
    assert!(decoded.freeze_authority.is_none());
}

#[test]
fn uri_capacity_boundary_round_trips() {
    let mint = Mint {
        score_authority: identity(3),
        freeze_authority: None,
        state: MintState::Initialized,
        metadata_uri: vec![b'a'; 128],
    };
    let packed = mint.pack();
    assert_eq!(packed.len(), Mint::SIZE);
    let decoded = try_from_slice_checked(&packed, Mint::SIZE).unwrap();
    assert_eq!(decoded.metadata_uri.len(), 128);
    assert_eq!(decoded, mint);
}

#[test]
fn packed_layout_matches_field_offsets() {
    let mint = Mint {
        score_authority: identity(5),
        freeze_authority: Some(identity(6)),
        state: MintState::Initialized,
        metadata_uri: b"hi".to_vec(),
    };
    let packed = mint.pack();
    assert_eq!(&packed[0..32], &[5u8; 32]);
    assert_eq!(packed[32], 1);
    assert_eq!(&packed[33..65], &[6u8; 32]);
    assert_eq!(packed[65], 1);
    assert_eq!(&packed[66..68], b"hi");
    assert!(packed[68..194].iter().all(|b| *b == 0));
}
