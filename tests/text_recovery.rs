use imessage_bridge::text::{
    clone_text, decode_rich_text, needs_text_recovery, recover_text, resolve_text, DecodeError,
};

fn hello_payload() -> Vec<u8> {
    let mut p = b"\x04\x0bstreamtyped\x81\xe8\x03\x84\x01@".to_vec();
    p.extend_from_slice(&[0x01, 0x2b, 0x05]);
    p.extend_from_slice(b"hello");
    p.extend_from_slice(&[0x86, 0x84, 0x02, 0x69]);
    p
}

#[test]
fn decoder_reads_payload() {
    assert_eq!(decode_rich_text(hello_payload()), Ok("hello".to_string()));
}

#[test]
fn decoder_refuses_garbage() {
    assert_eq!(decode_rich_text(Vec::new()), Err(DecodeError));
    assert_eq!(decode_rich_text(vec![0x41]), Err(DecodeError));
    assert_eq!(decode_rich_text(b"no markers here".to_vec()), Err(DecodeError));
}

#[test]
fn recovery_needed_only_for_absent_or_empty() {
    assert!(needs_text_recovery(&None));
    assert!(needs_text_recovery(&Some(String::new())));
    assert!(!needs_text_recovery(&Some("hi".to_string())));
}

#[test]
fn empty_text_takes_decoded() {
    assert_eq!(resolve_text(Some(String::new()), Ok("hello".to_string())), Some("hello".to_string()));
    assert_eq!(resolve_text(None, Ok("hello".to_string())), Some("hello".to_string()));
}

#[test]
fn failed_decode_keeps_text() {
    assert_eq!(resolve_text(Some(String::new()), Err(DecodeError)), Some(String::new()));
    assert_eq!(resolve_text(None, Err(DecodeError)), None);
}

#[test]
fn usable_text_is_kept() {
    assert_eq!(resolve_text(Some("plain".to_string()), Ok("other".to_string())), Some("plain".to_string()));
    assert_eq!(recover_text(Some("plain".to_string()), &Some(hello_payload())), Some("plain".to_string()));
}

#[test]
fn recover_from_payload() {
    assert_eq!(recover_text(None, &Some(hello_payload())), Some("hello".to_string()));
    assert_eq!(recover_text(Some(String::new()), &Some(vec![1, 2, 3])), Some(String::new()));
    assert_eq!(recover_text(None, &None), None);
}

#[test]
fn clone_keeps_text() {
    assert_eq!(clone_text(&Some("x".to_string())), Some("x".to_string()));
    assert_eq!(clone_text(&None), None);
}
