use buzz_ui::color::{hex_of, parse_hex, Rgba8};

fn rgba(r: u8, g: u8, b: u8, a: u8) -> Rgba8 {
    Rgba8 { r, g, b, a }
}

#[test]
fn a_colour_can_be_typed_as_well_as_picked() {
    assert_eq!(parse_hex("#FF0066"), Some(rgba(0xFF, 0x00, 0x66, 0xFF)));
    // Without the hash, and in lower case.
    assert_eq!(parse_hex("ff0066"), Some(rgba(0xFF, 0x00, 0x66, 0xFF)));
    // The short form: each digit stands for a pair.
    assert_eq!(parse_hex("#f06"), Some(rgba(0xFF, 0x00, 0x66, 0xFF)));
    // With alpha.
    assert_eq!(parse_hex("#10203040"), Some(rgba(0x10, 0x20, 0x30, 0x40)));
    // And nonsense is refused rather than guessed at.
    for bad in ["", "#", "12345", "#GGGGGG", "not a colour"] {
        assert!(parse_hex(bad).is_none(), "{bad:?} was accepted");
    }

    // Round trip: what is shown can be typed back.
    for c in [
        rgba(0, 0, 0, 255),
        rgba(255, 255, 255, 255),
        rgba(0x12, 0x34, 0x56, 0xFF),
        rgba(0x12, 0x34, 0x56, 0x78),
    ] {
        assert_eq!(
            parse_hex(&hex_of(c)),
            Some(c),
            "{} did not survive being written out and read back",
            hex_of(c)
        );
    }
}

#[test]
fn opaque_colours_are_written_without_alpha() {
    assert_eq!(hex_of(rgba(0x12, 0x34, 0x56, 0xFF)), "#123456");
    assert_eq!(hex_of(rgba(0x0A, 0xBC, 0xDE, 0x7F)), "#0ABCDE7F");
}

#[test]
fn white_space_and_extra_hashes_are_forgiven() {
    assert_eq!(parse_hex("  ##abc \n"), Some(rgba(0xAA, 0xBB, 0xCC, 0xFF)));
}

#[test]
fn a_sign_or_a_character_beyond_ascii_is_no_digit() {
    assert_eq!(parse_hex("+F0000"), None);
    assert_eq!(parse_hex("+F+F+F"), None);
    assert_eq!(parse_hex("+00"), None);
    assert_eq!(parse_hex("\u{e9}12"), None);
    assert_eq!(parse_hex("#12\u{e9}4"), None);
    assert_eq!(parse_hex("\u{ff41}\u{ff42}\u{ff43}"), None);
}
