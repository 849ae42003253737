use imessage_bridge::epoch::REFERENCE_OFFSET_NANOS;
use imessage_bridge::record::{default_service_name, map_row, map_row_fields, service_or_default, MappingError, RawMessage};

fn raw(rowid: i64, date: i64) -> RawMessage {
    RawMessage {
        rowid: Some(rowid),
        guid: Some(format!("guid-{rowid}")),
        text: Some("hi".to_string()),
        service: Some("SMS".to_string()),
        handle_id: Some(3),
        subject: None,
        date,
        date_read: 0,
        date_delivered: 0,
        is_from_me: true,
        is_read: false,
        group_title: Some("group".to_string()),
        associated_message_guid: None,
        associated_message_type: Some(0),
        thread_originator_guid: Some("thread".to_string()),
        payload: None,
    }
}

fn hello_payload() -> Vec<u8> {
    let mut p = b"streamtyped@".to_vec();
    p.extend_from_slice(&[0x01, 0x2b, 0x05]);
    p.extend_from_slice(b"hello");
    p.extend_from_slice(&[0x86, 0x84, 0x02]);
    p
}

#[test]
fn one_year_row_with_payload() {
    let mut r = raw(1, 31_536_000 * 1_000_000_000);
    r.text = Some(String::new());
    r.payload = Some(hello_payload());
    let m = map_row(&r).unwrap();
    assert_eq!(m.date, (978_307_200i128 + 31_536_000) * 1_000_000_000);
    assert_eq!(m.text, Some("hello".to_string()));
}

#[test]
fn columns_are_copied() {
    let m = map_row(&raw(7, 5)).unwrap();
    assert_eq!(m.rowid, 7);
    assert_eq!(m.guid, "guid-7");
    assert_eq!(m.text, Some("hi".to_string()));
    assert_eq!(m.service, "SMS");
    assert_eq!(m.handle_id, Some(3));
    assert_eq!(m.subject, None);
    assert_eq!(m.date, REFERENCE_OFFSET_NANOS + 5);
    assert!(m.is_from_me);
    assert!(!m.is_read);
    assert_eq!(m.group_title, Some("group".to_string()));
    assert_eq!(m.associated_message_guid, None);
    assert_eq!(m.associated_message_type, Some(0));
    assert_eq!(m.thread_originator_guid, Some("thread".to_string()));
    assert_eq!(m.cache_roomnames, Some("thread".to_string()));
}

#[test]
fn zero_read_and_delivered_are_absent() {
    let m = map_row(&raw(1, 10)).unwrap();
    assert_eq!(m.date_read, None);
    assert_eq!(m.date_delivered, None);
    assert!(!m.is_delivered);
}

#[test]
fn nonzero_delivered_is_delivered() {
    let mut r = raw(1, 10);
    r.date_read = 20;
    r.date_delivered = 15;
    let m = map_row(&r).unwrap();
    assert_eq!(m.date_read, Some(REFERENCE_OFFSET_NANOS + 20));
    assert_eq!(m.date_delivered, Some(REFERENCE_OFFSET_NANOS + 15));
    assert!(m.is_delivered);
}

#[test]
fn every_mapped_message_is_sent() {
    let mut r = raw(2, 0);
    r.is_from_me = false;
    r.text = None;
    assert!(map_row(&r).unwrap().is_sent);
    assert!(map_row(&raw(3, -1)).unwrap().is_sent);
}

#[test]
fn service_defaults_to_imessage() {
    assert_eq!(default_service_name(), "iMessage");
    assert_eq!(service_or_default(None), "iMessage");
    assert_eq!(service_or_default(Some(String::new())), "iMessage");
    assert_eq!(service_or_default(Some("SMS".to_string())), "SMS");
    let mut r = raw(1, 1);
    r.service = None;
    assert_eq!(map_row(&r).unwrap().service, "iMessage");
}

#[test]
fn missing_rowid_or_guid_fails() {
    let mut r = raw(1, 1);
    r.rowid = None;
    assert_eq!(map_row(&r).err(), Some(MappingError::MissingRowid));
    r.guid = None;
    assert_eq!(map_row(&r).err(), Some(MappingError::MissingRowid));
    let mut r = raw(1, 1);
    r.guid = None;
    assert_eq!(map_row(&r).err(), Some(MappingError::MissingGuid));
}

#[test]
fn field_stage_does_not_decode() {
    let mut r = raw(1, 1);
    r.text = None;
    r.payload = Some(hello_payload());
    assert_eq!(map_row_fields(&r).unwrap().text, None);
    assert_eq!(map_row(&r).unwrap().text, Some("hello".to_string()));
}

#[test]
fn undecodable_payload_is_no_error() {
    let mut r = raw(1, 1);
    r.text = Some(String::new());
    r.payload = Some(vec![9, 9, 9]);
    assert_eq!(map_row(&r).unwrap().text, Some(String::new()));
}
