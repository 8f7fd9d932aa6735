use eye_hal::pixel_format::{PixelFormat, Unrepresentable};

#[test]
fn known_codes_round_trip() {
    let table: [(&[u8; 4], PixelFormat); 8] = [
        (b"GREY", PixelFormat::Gray(8)),
        (b"Y16 ", PixelFormat::Gray(16)),
        (b"Z16 ", PixelFormat::Depth(16)),
        (b"BGR3", PixelFormat::Bgr(24)),
        (b"AR24", PixelFormat::Bgra(32)),
        (b"RGB3", PixelFormat::Rgb(24)),
        (b"AB24", PixelFormat::Rgba(32)),
        (b"MJPG", PixelFormat::Jpeg),
    ];
    for (code, portable) in table {
        let decoded = PixelFormat::decode(code);
        assert_eq!(decoded, portable);
        assert_eq!(decoded.encode(), Ok(*code));
    }
}

#[test]
fn unknown_code_decodes_to_custom_text() {
    let decoded = PixelFormat::decode(b"YUYV");
    assert_eq!(decoded, PixelFormat::Custom(String::from("YUYV")));
    assert_eq!(decoded.encode(), Err(Unrepresentable));
}

#[test]
fn non_text_code_decodes_to_lossy_custom_text() {
    let decoded = PixelFormat::decode(&[0x47, 0xFF, 0x00, 0x59]);
    assert_eq!(
        decoded,
        PixelFormat::Custom(String::from("G\u{FFFD}\u{0}Y"))
    );
    assert_eq!(decoded.encode(), Err(Unrepresentable));
}

#[test]
fn custom_payload_never_encodes() {
    let spoofed = PixelFormat::Custom(String::from("GREY"));
    assert_eq!(spoofed.encode(), Err(Unrepresentable));
    let empty = PixelFormat::Custom(String::new());
    assert_eq!(empty.encode(), Err(Unrepresentable));
}

#[test]
fn unmapped_bit_depths_never_encode() {
    assert_eq!(PixelFormat::Gray(12).encode(), Err(Unrepresentable));
    assert_eq!(PixelFormat::Depth(8).encode(), Err(Unrepresentable));
    assert_eq!(PixelFormat::Bgr(32).encode(), Err(Unrepresentable));
    assert_eq!(PixelFormat::Bgra(24).encode(), Err(Unrepresentable));
    assert_eq!(PixelFormat::Rgb(32).encode(), Err(Unrepresentable));
    assert_eq!(PixelFormat::Rgba(24).encode(), Err(Unrepresentable));
}
