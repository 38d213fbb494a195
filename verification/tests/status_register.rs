use hart_cs::status::{
    decode_token, disable_bits, disable_master, restore_bits, restore_master, MaskPattern,
};

#[test]
fn imm_encodes_each_pattern() {
    assert_eq!(MaskPattern::MasterAndDelegate.imm(), 0b1010);
    assert_eq!(MaskPattern::MasterOnly.imm(), 0b1000);
    assert_eq!(MaskPattern::DelegateOnly.imm(), 0b0010);
    assert_eq!(MaskPattern::Neither.imm(), 0b0000);
}

#[test]
fn decode_accepts_each_recognized_pattern() {
    assert_eq!(decode_token(0b1010).unwrap(), MaskPattern::MasterAndDelegate);
    assert_eq!(decode_token(0b1000).unwrap(), MaskPattern::MasterOnly);
    assert_eq!(decode_token(0b0010).unwrap(), MaskPattern::DelegateOnly);
    assert_eq!(decode_token(0b0000).unwrap(), MaskPattern::Neither);
}

#[test]
fn decode_ignores_high_bits() {
    assert_eq!(decode_token(0xFFFF_FFA8).unwrap(), MaskPattern::MasterOnly);
    assert_eq!(decode_token(0xABCD_0002).unwrap(), MaskPattern::DelegateOnly);
}

#[test]
fn decode_rejects_forged_tokens() {
    for bad in [0b0001u64, 0b0100, 0b0101, 0b0111, 0b1011, 0b1111, 0b1101] {
        let e = decode_token(bad).unwrap_err();
        assert_eq!(e.token, bad);
        let e = decode_token(0x5000_0000_0000_0000 | bad).unwrap_err();
        assert_eq!(e.token, 0x5000_0000_0000_0000 | bad);
    }
}

#[test]
fn disable_clears_exactly_the_configured_bits() {
    let (masked, token) = disable_bits(0xFFAA, MaskPattern::MasterAndDelegate);
    assert_eq!(masked, 0xFFA0);
    assert_eq!(token, 0xFFAA);

    let (masked, token) = disable_bits(0xFFAA, MaskPattern::MasterOnly);
    assert_eq!(masked, 0xFFA2);
    assert_eq!(token, 0xFFAA);

    let (masked, token) = disable_bits(0xFFAA, MaskPattern::DelegateOnly);
    assert_eq!(masked, 0xFFA8);
    assert_eq!(token, 0xFFAA);

    let (masked, token) = disable_bits(0xFFAA, MaskPattern::Neither);
    assert_eq!(masked, 0xFFAA);
    assert_eq!(token, 0xFFAA);
}

#[test]
fn restore_sets_exactly_the_decoded_bits() {
    assert_eq!(restore_bits(0xFFA0, MaskPattern::MasterAndDelegate), 0xFFAA);
    assert_eq!(restore_bits(0xFFA0, MaskPattern::MasterOnly), 0xFFA8);
    assert_eq!(restore_bits(0xFFA0, MaskPattern::DelegateOnly), 0xFFA2);
    assert_eq!(restore_bits(0xFFA0, MaskPattern::Neither), 0xFFA0);
}

#[test]
fn full_pattern_round_trip_is_exact() {
    let configs = [
        MaskPattern::MasterAndDelegate,
        MaskPattern::MasterOnly,
        MaskPattern::DelegateOnly,
        MaskPattern::Neither,
    ];
    // Every initial register whose never-targeted low bits are clear.
    let regs = [0u64, 0b0010, 0b1000, 0b1010, 0xFFA8, 0x8000_0000_0000_000A, 0xDEAD_BEE0];
    for &cfg in &configs {
        for &reg in &regs {
            let (masked, token) = disable_bits(reg, cfg);
            let decoded = decode_token(token).unwrap();
            assert_eq!(restore_bits(masked, decoded), reg);
        }
    }
}

#[test]
fn boolean_token_round_trip_is_exact() {
    // This encoding round-trips every register value, reserved bits included.
    let regs = [0u64, 0b1000, 0b0111, 0b1111, 0xFFAF, u64::MAX, 0x1234_5678_9ABC_DEF5];
    for &reg in &regs {
        let (masked, was_enabled) = disable_master(reg);
        assert_eq!(masked & 0b1000, 0);
        assert_eq!(was_enabled, reg & 0b1000 != 0);
        assert_eq!(restore_master(masked, was_enabled), reg);
    }
}
