//! The records of the store and the mapping of a raw message row into a
//! canonical message.
use crate::epoch::{REFERENCE_OFFSET_NANOS, from_internal, opt_time_view, optional_from_internal, optional_unix_of, unix_of};
use crate::text::{clone_text, opt_view, payload_text, recover_text, resolved_text};
use vstd::prelude::*;

verus! {

/// One row of the message projection, with its columns as the store holds
/// them. `payload` is the serialized rich-text column.
pub struct RawMessage {
    pub rowid: Option<i64>,
    pub guid: Option<String>,
    pub text: Option<String>,
    pub service: Option<String>,
    pub handle_id: Option<i64>,
    pub subject: Option<String>,
    pub date: i64,
    pub date_read: i64,
    pub date_delivered: i64,
    pub is_from_me: bool,
    pub is_read: bool,
    pub group_title: Option<String>,
    pub associated_message_guid: Option<String>,
    pub associated_message_type: Option<i64>,
    pub thread_originator_guid: Option<String>,
    pub payload: Option<Vec<u8>>,
}

/// A canonical message record. Times are Unix nanoseconds.
pub struct Message {
    pub rowid: i64,
    pub guid: String,
    pub text: Option<String>,
    pub service: String,
    pub handle_id: Option<i64>,
    pub subject: Option<String>,
    pub date: i128,
    pub date_read: Option<i128>,
    pub date_delivered: Option<i128>,
    pub is_from_me: bool,
    pub is_read: bool,
    pub is_sent: bool,
    pub is_delivered: bool,
    pub cache_roomnames: Option<String>,
    pub group_title: Option<String>,
    pub associated_message_guid: Option<String>,
    pub associated_message_type: Option<i64>,
    pub thread_originator_guid: Option<String>,
}

/// A contact handle.
pub struct Handle {
    pub rowid: i64,
    pub id: String,
    pub service: Option<String>,
    pub uncanonicalized_id: Option<String>,
}

/// The metadata of an attachment.
pub struct Attachment {
    pub rowid: i64,
    pub guid: String,
    pub filename: Option<String>,
    pub mime_type: Option<String>,
    pub transfer_name: Option<String>,
    pub total_bytes: Option<i64>,
}

/// A row lacks a column that every message has.
#[derive(Debug, Clone, Copy, PartialEq, Eq, Structural)]
pub enum MappingError {
    MissingRowid,
    MissingGuid,
}

/// The service name used when a row names none.
pub open spec fn default_service() -> Seq<char> {
    seq!['i', 'M', 'e', 's', 's', 'a', 'g', 'e']
}

/// The service of a row: its column when present and non-empty, the default
/// service otherwise.
pub open spec fn service_of(service: Option<Seq<char>>) -> Seq<char> {
    match service {
        Some(s) => if s.len() > 0 { s } else { default_service() },
        None => default_service(),
    }
}

/// Whether a row can be mapped at all.
pub open spec fn mappable(raw: RawMessage) -> bool {
    raw.rowid is Some && raw.guid is Some
}

/// The error that mapping an unmappable row reports.
pub open spec fn mapping_error_of(raw: RawMessage) -> MappingError {
    if raw.rowid is None {
        MappingError::MissingRowid
    } else {
        MappingError::MissingGuid
    }
}

/// `m` holds the fields of `raw` copied and derived, with `text` as its text.
pub open spec fn fields_match(raw: RawMessage, m: Message, text: Option<Seq<char>>) -> bool {
    &&& raw.rowid == Some(m.rowid)
    &&& opt_view(raw.guid) == Some(m.guid@)
    &&& opt_view(m.text) == text
    &&& m.service@ == service_of(opt_view(raw.service))
    &&& m.handle_id == raw.handle_id
    &&& opt_view(m.subject) == opt_view(raw.subject)
    &&& m.date == unix_of(raw.date as int)
    &&& opt_time_view(m.date_read) == optional_unix_of(raw.date_read as int)
    &&& opt_time_view(m.date_delivered) == optional_unix_of(raw.date_delivered as int)
    &&& m.is_from_me == raw.is_from_me
    &&& m.is_read == raw.is_read
    &&& m.is_sent
    &&& m.is_delivered == (raw.date_delivered != 0)
    &&& opt_view(m.cache_roomnames) == opt_view(raw.thread_originator_guid)
    &&& opt_view(m.group_title) == opt_view(raw.group_title)
    &&& opt_view(m.associated_message_guid) == opt_view(raw.associated_message_guid)
    &&& m.associated_message_type == raw.associated_message_type
    &&& opt_view(m.thread_originator_guid) == opt_view(raw.thread_originator_guid)
}

/// `m` is the canonical message of `raw`, its text recovered from the payload
/// where the plain-text column is unusable.
pub open spec fn message_of(raw: RawMessage, m: Message) -> bool {
    fields_match(raw, m, resolved_text(opt_view(raw.text), payload_text(raw.payload)))
}

/// The service name used when a row names none.
pub fn default_service_name() -> (r: String)
    ensures
        r@ == default_service(),
{
    let r = "iMessage".to_owned();
    proof {
        reveal_strlit("iMessage");
    }
    assert(r@ =~= default_service());
    r
}

/// The service of a row, defaulting when the column is absent or empty.
pub fn service_or_default(service: Option<String>) -> (r: String)
    ensures
        r@ == service_of(opt_view(service)),
{
    match service {
        Some(s) => if s.as_str().is_empty() {
            default_service_name()
        } else {
            s
        },
        None => default_service_name(),
    }
}

/// Copies the columns of a row into a message and derives its computed
/// fields. The text is copied as it stands; nothing is decoded.
pub fn map_row_fields(raw: &RawMessage) -> (r: Result<Message, MappingError>)
    ensures
        r is Err <==> !mappable(*raw),
        r is Err ==> r->Err_0 == mapping_error_of(*raw),
        r is Ok ==> fields_match(*raw, r->Ok_0, opt_view(raw.text)),
{
    let rowid = match raw.rowid {
        Some(v) => v,
        None => {
            return Err(MappingError::MissingRowid);
        },
    };
    let guid = match &raw.guid {
        Some(g) => g.clone(),
        None => {
            return Err(MappingError::MissingGuid);
        },
    };
    let date_read = optional_from_internal(raw.date_read);
    let date_delivered = optional_from_internal(raw.date_delivered);
    Ok(Message {
        rowid,
        guid,
        text: clone_text(&raw.text),
        service: service_or_default(clone_text(&raw.service)),
        handle_id: raw.handle_id,
        subject: clone_text(&raw.subject),
        date: from_internal(raw.date),
        date_read,
        date_delivered,
        is_from_me: raw.is_from_me,
        is_read: raw.is_read,
        is_sent: true,
        is_delivered: raw.date_delivered != 0,
        cache_roomnames: clone_text(&raw.thread_originator_guid),
        group_title: clone_text(&raw.group_title),
        associated_message_guid: clone_text(&raw.associated_message_guid),
        associated_message_type: raw.associated_message_type,
        thread_originator_guid: clone_text(&raw.thread_originator_guid),
    })
}

/// Maps a row into its canonical message: copies its columns, derives the
/// computed fields, then recovers the text from the payload where the
/// plain-text column is unusable. A payload that cannot be decoded is no
/// error.
pub fn map_row(raw: &RawMessage) -> (r: Result<Message, MappingError>)
    ensures
        r is Err <==> !mappable(*raw),
        r is Err ==> r->Err_0 == mapping_error_of(*raw),
        r is Ok ==> message_of(*raw, r->Ok_0),
{
    match map_row_fields(raw) {
        Err(e) => Err(e),
        Ok(m) => {
            let mut m = m;
            let text = recover_text(m.text, &raw.payload);
            m.text = text;
            Ok(m)
        },
    }
}

/// Every mapped message is sent; it is delivered exactly when its raw
/// delivery time is nonzero; and a zero raw read or delivery time maps to an
/// absent time, never to the reference date.
pub proof fn lemma_mapped_flags(raw: RawMessage, m: Message)
    requires
        message_of(raw, m),
    ensures
        m.is_sent,
        m.is_delivered <==> raw.date_delivered != 0,
        raw.date_read == 0 <==> m.date_read is None,
        raw.date_delivered == 0 <==> m.date_delivered is None,
        m.date_read is Some ==> m.date_read->0 != REFERENCE_OFFSET_NANOS,
        m.date_delivered is Some ==> m.date_delivered->0 != REFERENCE_OFFSET_NANOS,
{
}

} // verus!
