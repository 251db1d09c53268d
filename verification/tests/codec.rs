use robdex_agent_runtime::artifacts::{content_type_or_default, image_artifact_payload};
use robdex_agent_runtime::codec::{encode_base64_standard, uuid_text};

#[test]
fn base64_matches_the_standard_alphabet() {
    assert_eq!(encode_base64_standard(b"hello world~"), "aGVsbG8gd29ybGR+");
    assert_eq!(encode_base64_standard(b""), "");
    assert_eq!(encode_base64_standard(b"f"), "Zg==");
    assert_eq!(encode_base64_standard(b"fo"), "Zm8=");
    assert_eq!(encode_base64_standard(b"foo"), "Zm9v");
    assert_eq!(encode_base64_standard(&[0xfb, 0xff]), "+/8=");
}

#[test]
fn uuids_are_hyphenated_lower_case() {
    assert_eq!(uuid_text(0), "00000000-0000-0000-0000-000000000000");
    assert_eq!(uuid_text(0x67e5504410b1426f9247bb680e5fe0c8), "67e55044-10b1-426f-9247-bb680e5fe0c8");
}

#[test]
fn image_payload_inlines_bytes() {
    let payload = image_artifact_payload(1, 2, Some(("image/png".to_string(), vec![0x89, 0x50, 0x4e, 0x47]))).unwrap();
    assert_eq!(
        payload.path,
        "agent-runtime-image://00000000-0000-0000-0000-000000000001/00000000-0000-0000-0000-000000000002"
    );
    assert_eq!(payload.bytes_base64, "iVBORw==");
    assert_eq!(payload.content_type, "image/png");
    assert_eq!((payload.session_id, payload.image_artifact_id), (1, 2));
    let missing = image_artifact_payload(1, 2, None).unwrap_err();
    assert_eq!(missing.status, 404);
    assert_eq!(missing.message, "image_artifact not found: 00000000-0000-0000-0000-000000000002");
}

#[test]
fn content_type_defaults_to_octet_stream() {
    assert_eq!(content_type_or_default(None), "application/octet-stream");
    assert_eq!(content_type_or_default(Some("image/png".to_string())), "image/png");
}
