use komsi::komsi::{build_komsi_command, build_komsi_command_eol, build_komsi_command_u8, KomsiCommandKind};

#[test]
fn test_build_komsi_command() {
    let cmd = KomsiCommandKind::Speed;
    let value = 100;
    let result = build_komsi_command(cmd, value);
    // Speed (121) + "100" (ASCII: 49, 48, 48)
    assert_eq!(result, vec![121, 49, 48, 48]);
}

#[test]
fn test_build_komsi_command_u8() {
    let cmd = KomsiCommandKind::Ignition;
    let value = 1;
    let result = build_komsi_command_u8(cmd, value);
    // Ignition (65) + "1" (ASCII: 49)
    assert_eq!(result, vec![65, 49]);
}

#[test]
fn test_build_komsi_command_eol() {
    let result = build_komsi_command_eol();
    assert_eq!(result, vec![10]);
}

#[test]
fn test_enum_values() {
    assert_eq!(KomsiCommandKind::EOL.code(), 10);
    assert_eq!(KomsiCommandKind::Ignition.code(), 65);
    assert_eq!(KomsiCommandKind::Speed.code(), 121);
}

#[test]
fn zero_value_is_code_and_single_zero_digit() {
    assert_eq!(build_komsi_command_u8(KomsiCommandKind::Engine, 0), vec![66, 48]);
    assert_eq!(build_komsi_command(KomsiCommandKind::Fuel, 0), vec![120, 48]);
}

#[test]
fn largest_values_are_written_in_full() {
    let mut expected = vec![121u8];
    expected.extend_from_slice(b"4294967295");
    assert_eq!(build_komsi_command(KomsiCommandKind::Speed, u32::MAX), expected);
    assert_eq!(build_komsi_command_u8(KomsiCommandKind::Indicator, 255), vec![68, 50, 53, 53]);
}

#[test]
fn u8_and_u32_builders_agree() {
    for v in [0u8, 7, 10, 99, 100, 200, 255] {
        assert_eq!(
            build_komsi_command_u8(KomsiCommandKind::LightsMain, v),
            build_komsi_command(KomsiCommandKind::LightsMain, v as u32)
        );
    }
}

#[test]
fn codes_never_collide_with_digits_or_line_feed() {
    let kinds = [
        KomsiCommandKind::Ignition,
        KomsiCommandKind::DoorEnable,
        KomsiCommandKind::A26,
        KomsiCommandKind::MaxSpeed,
        KomsiCommandKind::RPM,
        KomsiCommandKind::Water,
    ];
    let codes: Vec<u8> = kinds.iter().map(|k| k.code()).collect();
    assert_eq!(codes, vec![65, 80, 90, 115, 116, 122]);
    for c in codes {
        assert!(!(48..=57).contains(&c));
        assert_ne!(c, 10);
    }
}
