use prediction_guard::image::encode_downloaded;

#[test]
fn failed_download_yields_absent_image() {
    assert!(encode_downloaded(None).is_none());
}

#[test]
fn downloaded_bytes_are_base64_encoded() {
    let encoded = encode_downloaded(Some(vec![1, 2, 3])).expect("an encoded image");
    assert_eq!(encoded, "AQID");

    let empty = encode_downloaded(Some(Vec::new())).expect("an encoded image");
    assert_eq!(empty, "");

    let padded = encode_downloaded(Some(b"hello world~".to_vec())).expect("an encoded image");
    assert_eq!(padded, "aGVsbG8gd29ybGR+");
}
