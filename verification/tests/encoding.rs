use namada_airdrop::claim::AirdropClaimData;
use namada_airdrop::encoding::{decimal, hex_decode, length_text, to_array, to_bytes};
use namada_airdrop::error::VpError;

fn invalid(message: &str) -> VpError {
    VpError::InvalidHex(message.to_string())
}

#[test]
fn hex_decode_reads_both_cases() {
    assert_eq!(hex_decode::<4>("DEADbeef"), Ok([0xde, 0xad, 0xbe, 0xef]));
    assert_eq!(hex_decode::<4>("deadBEEF"), Ok([0xde, 0xad, 0xbe, 0xef]));
    assert_eq!(hex_decode::<2>("0a10"), Ok([0x0a, 0x10]));
}

#[test]
fn hex_decode_of_nothing() {
    assert_eq!(hex_decode::<0>(""), Ok([]));
    assert_eq!(hex_decode::<1>(""), Err(invalid("expected 1 bytes, got 0")));
}

#[test]
fn hex_decode_full_width() {
    let text = "000102030405060708090a0b0c0d0e0f101112131415161718191a1b1c1d1e1f";
    let bytes = hex_decode::<32>(text).unwrap();
    for (i, byte) in bytes.iter().enumerate() {
        assert_eq!(*byte, i as u8);
    }
}

#[test]
fn hex_decode_too_short_is_not_padded() {
    assert_eq!(hex_decode::<32>("abcd"), Err(invalid("expected 32 bytes, got 2")));
    assert_eq!(hex_decode::<192>(&"00".repeat(191)), Err(invalid("expected 192 bytes, got 191")));
}

#[test]
fn hex_decode_too_long_is_not_truncated() {
    assert_eq!(hex_decode::<1>("abcd"), Err(invalid("expected 1 bytes, got 2")));
    assert_eq!(hex_decode::<32>(&"00".repeat(33)), Err(invalid("expected 32 bytes, got 33")));
}

#[test]
fn hex_decode_odd_length() {
    assert_eq!(hex_decode::<2>("abc"), Err(invalid("abc: Odd number of digits")));
}

#[test]
fn hex_decode_bad_character() {
    assert_eq!(
        hex_decode::<1>("zz"),
        Err(invalid("zz: Invalid character 'z' at position 0"))
    );
    assert_eq!(
        hex_decode::<2>("0a1g"),
        Err(invalid("0a1g: Invalid character 'g' at position 3"))
    );
}

#[test]
fn hex_decode_turns_down_text_beyond_ascii() {
    assert!(matches!(hex_decode::<1>("\u{e9}"), Err(VpError::InvalidHex(_))));
    assert!(matches!(hex_decode::<2>("\u{e9}\u{e9}"), Err(VpError::InvalidHex(_))));
}

#[test]
fn decimal_writes_numbers() {
    assert_eq!(decimal(0), "0");
    assert_eq!(decimal(7), "7");
    assert_eq!(decimal(9), "9");
    assert_eq!(decimal(10), "10");
    assert_eq!(decimal(32), "32");
    assert_eq!(decimal(192), "192");
    assert_eq!(decimal(255), "255");
    assert_eq!(decimal(1000), "1000");
    assert_eq!(decimal(1234567890), "1234567890");
    assert_eq!(decimal(usize::MAX), usize::MAX.to_string());
}

#[test]
fn to_array_needs_exact_length() {
    assert_eq!(to_array::<3>(&vec![1, 2, 3]), Some([1, 2, 3]));
    assert_eq!(to_array::<3>(&vec![1, 2]), None);
    assert_eq!(to_array::<3>(&vec![1, 2, 3, 4]), None);
    assert_eq!(to_array::<0>(&vec![]), Some([]));
}

#[test]
fn to_bytes_copies() {
    assert_eq!(to_bytes(&[9u8, 8, 7]), vec![9, 8, 7]);
    assert_eq!(to_bytes::<0>(&[]), Vec::<u8>::new());
}

#[test]
fn from_hex_decodes_every_field() {
    let data = AirdropClaimData::from_hex(
        &"01".repeat(192),
        &"02".repeat(32),
        Some(&"03".repeat(32)),
        None,
        "000102030405060708090a0b0c0d0e0f101112131415161718191a1b1c1d1e1f",
    )
    .unwrap();
    assert_eq!(data.zkproof, [1u8; 192]);
    assert_eq!(data.rk, [2u8; 32]);
    assert_eq!(data.cv, Some([3u8; 32]));
    assert_eq!(data.cv_sha256, None);
    assert_eq!(data.airdrop_nullifier[0], 0);
    assert_eq!(data.airdrop_nullifier[1], 1);
    assert_eq!(data.airdrop_nullifier[31], 31);
}

#[test]
fn from_hex_keeps_both_commitments() {
    let data = AirdropClaimData::from_hex(
        &"01".repeat(192),
        &"02".repeat(32),
        Some(&"03".repeat(32)),
        Some(&"04".repeat(32)),
        &"05".repeat(32),
    )
    .unwrap();
    assert_eq!(data.cv, Some([3u8; 32]));
    assert_eq!(data.cv_sha256, Some([4u8; 32]));
}

#[test]
fn from_hex_holds_the_proof_to_192_bytes() {
    let r = AirdropClaimData::from_hex(
        &"01".repeat(32),
        &"02".repeat(32),
        None,
        None,
        &"05".repeat(32),
    );
    assert_eq!(r, Err(invalid("expected 192 bytes, got 32")));
}

#[test]
fn from_hex_holds_the_others_to_32_bytes() {
    let proof = "01".repeat(192);
    let good = "02".repeat(32);
    let short = "02".repeat(31);
    let long = "02".repeat(33);
    assert_eq!(
        AirdropClaimData::from_hex(&proof, &short, None, None, &good),
        Err(invalid("expected 32 bytes, got 31"))
    );
    assert_eq!(
        AirdropClaimData::from_hex(&proof, &good, Some(&long), None, &good),
        Err(invalid("expected 32 bytes, got 33"))
    );
    assert_eq!(
        AirdropClaimData::from_hex(&proof, &good, None, Some(&short), &good),
        Err(invalid("expected 32 bytes, got 31"))
    );
    assert_eq!(
        AirdropClaimData::from_hex(&proof, &good, None, None, &long),
        Err(invalid("expected 32 bytes, got 33"))
    );
}

#[test]
fn from_hex_reports_the_first_malformed_field() {
    let r = AirdropClaimData::from_hex("xy", "q", Some("r"), Some("s"), "t");
    assert_eq!(r, Err(invalid("xy: Invalid character 'x' at position 0")));
    let r = AirdropClaimData::from_hex(&"01".repeat(192), "q", Some("r"), Some("s"), "t");
    assert_eq!(r, Err(invalid("q: Odd number of digits")));
    let r = AirdropClaimData::from_hex(
        &"01".repeat(192),
        &"02".repeat(32),
        Some("r"),
        Some("s"),
        "t",
    );
    assert_eq!(r, Err(invalid("r: Odd number of digits")));
    let r = AirdropClaimData::from_hex(
        &"01".repeat(192),
        &"02".repeat(32),
        None,
        Some("s"),
        "t",
    );
    assert_eq!(r, Err(invalid("s: Odd number of digits")));
}

#[test]
fn from_hex_reads_back_what_was_written() {
    let mut nullifier = [0u8; 32];
    for (i, byte) in nullifier.iter_mut().enumerate() {
        *byte = (i as u8).wrapping_mul(7);
    }
    let mut zkproof = [0u8; 192];
    for (i, byte) in zkproof.iter_mut().enumerate() {
        *byte = 255 - i as u8;
    }
    let data = AirdropClaimData {
        zkproof,
        rk: [0x9c; 32],
        cv: None,
        cv_sha256: Some([0x0f; 32]),
        airdrop_nullifier: nullifier,
    };
    let decoded = AirdropClaimData::from_hex(
        &hex::encode(data.zkproof),
        &hex::encode(data.rk),
        None,
        Some(&hex::encode([0x0f; 32])),
        &hex::encode(data.airdrop_nullifier),
    );
    assert_eq!(decoded, Ok(data));
    let upper = AirdropClaimData::from_hex(
        &hex::encode_upper(data.zkproof),
        &hex::encode_upper(data.rk),
        None,
        Some(&hex::encode_upper([0x0f; 32])),
        &hex::encode_upper(data.airdrop_nullifier),
    );
    assert_eq!(upper, Ok(data));
}

#[test]
fn length_text_names_both_lengths() {
    assert_eq!(length_text(32, 31), "expected 32 bytes, got 31");
    assert_eq!(length_text(1, 2), "expected 1 bytes, got 2");
    assert_eq!(length_text(192, 0), "expected 192 bytes, got 0");
}
