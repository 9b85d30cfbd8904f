use qwen_studio::icon::load_icon;

const PNG_2X1: [u8; 71] = [
    137, 80, 78, 71, 13, 10, 26, 10, 0, 0, 0, 13, 73, 72, 68, 82, 0, 0, 0, 2, 0, 0, 0, 1, 8, 6, 0,
    0, 0, 244, 34, 127, 138, 0, 0, 0, 14, 73, 68, 65, 84, 120, 156, 99, 248, 207, 192, 0, 66, 13,
    0, 15, 122, 3, 126, 119, 233, 127, 151, 0, 0, 0, 0, 73, 69, 78, 68, 174, 66, 96, 130,
];

#[test]
fn png_icon_decodes_to_rgba() {
    let icon = load_icon(&PNG_2X1).unwrap();
    assert_eq!((icon.width, icon.height), (2, 1));
    assert_eq!(icon.rgba, vec![255, 0, 0, 255, 0, 0, 255, 128]);
}

#[test]
fn garbage_is_not_an_icon() {
    assert!(load_icon(b"not an image").is_none());
    assert!(load_icon(&[]).is_none());
}

const BMP_1X1: [u8; 58] = [66, 77, 58, 0, 0, 0, 0, 0, 0, 0, 54, 0, 0, 0, 40, 0, 0, 0, 1, 0, 0, 0, 1, 0, 0, 0, 1, 0, 24, 0, 0, 0, 0, 0, 4, 0, 0, 0, 19, 11, 0, 0, 19, 11, 0, 0, 0, 0, 0, 0, 0, 0, 0, 0, 1, 2, 3, 0];

#[test]
fn other_formats_decode_too() {
    let icon = load_icon(&BMP_1X1).unwrap();
    assert_eq!((icon.width, icon.height), (1, 1));
    assert_eq!(icon.rgba, vec![3, 2, 1, 255]);
}

#[test]
fn decoded_buffer_holds_every_pixel() {
    for bytes in [&PNG_2X1[..], &BMP_1X1[..]] {
        let icon = load_icon(bytes).unwrap();
        assert!(icon.rgba.len() >= 4 * icon.width as usize * icon.height as usize);
    }
}
