use qwen_studio::clipboard::read_clipboard_image;

#[test]
fn image_bytes_become_base64() {
    assert_eq!(read_clipboard_image(Ok(b"hello".to_vec())), Ok("aGVsbG8=".to_string()));
    assert_eq!(read_clipboard_image(Ok(vec![0, 255, 16, 1])), Ok("AP8QAQ==".to_string()));
    assert_eq!(read_clipboard_image(Ok(b"abc".to_vec())), Ok("YWJj".to_string()));
    assert_eq!(read_clipboard_image(Ok(vec![])), Ok(String::new()));
}

#[test]
fn read_errors_pass_through() {
    assert_eq!(
        read_clipboard_image(Err("No image in clipboard".to_string())),
        Err("No image in clipboard".to_string())
    );
}
