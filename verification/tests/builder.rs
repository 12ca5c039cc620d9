use form_data_builder::FormData;
use form_data_builder::FormError;

#[test]
fn boundary_shape() {
    let form = FormData::new(Vec::new());
    let b = form.boundary();
    assert_eq!(b.len(), 68);
    assert_eq!(&b[..36], "-".repeat(36));
    for c in b[36..].chars() {
        assert!(c.is_ascii_alphanumeric() || c == '-' || c == '_' || c == '=');
    }
}

#[test]
fn content_type_header_reports_boundary() {
    let mut form = FormData::with_boundary(Vec::new(), "B");
    assert_eq!(form.content_type_header(), "multipart/form-data; boundary=B");
    form.write_field("a", "x").unwrap();
    assert_eq!(form.content_type_header(), "multipart/form-data; boundary=B");
    form.finish().unwrap();
    assert_eq!(form.content_type_header(), "multipart/form-data; boundary=B");
}

#[test]
fn content_type_header_matches_generated_boundary() {
    let form = FormData::new(Vec::new());
    let expected = format!("multipart/form-data; boundary={}", form.boundary());
    assert_eq!(form.content_type_header(), expected);
}

#[test]
fn finish_twice() {
    let mut form = FormData::with_boundary(Vec::new(), "B");
    let doc = form.finish().unwrap();
    assert_eq!(doc, b"--B--\r\n".to_vec());
    let second = form.finish();
    assert!(matches!(second, Err(FormError::AlreadyFinished)));
}

#[test]
fn writes_after_finish_fail() {
    let mut form = FormData::with_boundary(Vec::new(), "B");
    form.finish().unwrap();
    assert!(matches!(form.write_field("a", "x"), Err(FormError::AlreadyFinished)));
    assert!(matches!(
        form.write_file("a", b"data", None, "text/plain"),
        Err(FormError::AlreadyFinished)
    ));
    assert_eq!(form.content_type_header(), "multipart/form-data; boundary=B");
}

#[test]
fn error_message() {
    let mut form = FormData::with_boundary(Vec::new(), "B");
    form.finish().unwrap();
    let err = form.finish().unwrap_err();
    assert_eq!(err.message(), "builder already finished");
}

#[test]
fn field_part_layout() {
    let mut form = FormData::with_boundary(Vec::new(), "B");
    form.write_field("text-a", "hello").unwrap();
    let doc = form.finish().unwrap();
    let expected =
        b"--B\r\nContent-Disposition: form-data; name=\"text-a\"\r\n\r\nhello\r\n--B--\r\n"
            .to_vec();
    assert_eq!(doc, expected);
}

#[test]
fn end_to_end_document() {
    let png: &[u8] = &[0x89, 0x50, 0x4e, 0x47, 0x0d, 0x0a, 0x1a, 0x0a, 0x00];
    let svg: &[u8] = b"<svg xmlns=\"http://www.w3.org/2000/svg\"></svg>";
    let boundary = "---------------------------20598614689265574691413388431";
    let mut form = FormData::with_boundary(Vec::new(), boundary);
    form.write_file("file-a", png, Some("rustacean-flat-noshadow.png"), "image/png").unwrap();
    form.write_field("text-a", "hello").unwrap();
    form.write_file("file-b", svg, Some("corro.svg"), "image/svg+xml").unwrap();
    form.write_field("text-b", "world").unwrap();
    let doc = form.finish().unwrap();

    let mut expected: Vec<u8> = Vec::new();
    expected.extend_from_slice(
        format!(
            "--{}\r\nContent-Disposition: form-data; name=\"file-a\"; filename=\"rustacean-flat-noshadow.png\"\r\nContent-Type: image/png\r\n\r\n",
            boundary
        )
        .as_bytes(),
    );
    expected.extend_from_slice(png);
    expected.extend_from_slice(b"\r\n");
    expected.extend_from_slice(
        format!(
            "--{}\r\nContent-Disposition: form-data; name=\"text-a\"\r\n\r\nhello\r\n",
            boundary
        )
        .as_bytes(),
    );
    expected.extend_from_slice(
        format!(
            "--{}\r\nContent-Disposition: form-data; name=\"file-b\"; filename=\"corro.svg\"\r\nContent-Type: image/svg+xml\r\n\r\n",
            boundary
        )
        .as_bytes(),
    );
    expected.extend_from_slice(svg);
    expected.extend_from_slice(b"\r\n");
    expected.extend_from_slice(
        format!(
            "--{}\r\nContent-Disposition: form-data; name=\"text-b\"\r\n\r\nworld\r\n",
            boundary
        )
        .as_bytes(),
    );
    expected.extend_from_slice(format!("--{}--\r\n", boundary).as_bytes());
    assert_eq!(doc, expected);
}

#[test]
fn file_without_filename() {
    let mut form = FormData::with_boundary(Vec::new(), "B");
    form.write_file("f", b"xy", None, "application/octet-stream").unwrap();
    let doc = form.finish().unwrap();
    let expected =
        b"--B\r\nContent-Disposition: form-data; name=\"f\"\r\nContent-Type: application/octet-stream\r\n\r\nxy\r\n--B--\r\n"
            .to_vec();
    assert_eq!(doc, expected);
}

#[test]
fn distinct_boundaries() {
    let a = FormData::new(Vec::new());
    let b = FormData::new(Vec::new());
    assert_ne!(a.boundary(), b.boundary());
    assert_ne!(&a.boundary()[36..], &b.boundary()[36..]);
}

#[test]
fn preexisting_sink_bytes_kept() {
    let mut form = FormData::with_boundary(b"head".to_vec(), "B");
    form.write_field("a", "x").unwrap();
    let doc = form.finish().unwrap();
    assert!(doc.starts_with(b"head"));
}

#[test]
fn empty_field_value() {
    let mut form = FormData::with_boundary(Vec::new(), "B");
    form.write_field("e", "").unwrap();
    let doc = form.finish().unwrap();
    let expected = b"--B\r\nContent-Disposition: form-data; name=\"e\"\r\n\r\n\r\n--B--\r\n".to_vec();
    assert_eq!(doc, expected);
}

#[test]
fn multibyte_field_value() {
    let mut form = FormData::with_boundary(Vec::new(), "B");
    form.write_field("u", "h\u{e9}llo").unwrap();
    let doc = form.finish().unwrap();
    let mut expected: Vec<u8> = Vec::new();
    expected.extend_from_slice(b"--B\r\nContent-Disposition: form-data; name=\"u\"\r\n\r\n");
    expected.extend_from_slice("h\u{e9}llo".as_bytes());
    expected.extend_from_slice(b"\r\n--B--\r\n");
    assert_eq!(doc, expected);
}
