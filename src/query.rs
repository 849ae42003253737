//! Parameterized queries for each access pattern of the store.
//!
//! Every caller-supplied value travels as a bound parameter; the query text
//! of each access pattern is fixed.
use crate::epoch::{internal_of, representable, to_internal};
use vstd::prelude::*;

verus! {

/// The access patterns of the store.
#[derive(Debug, Clone, Copy, PartialEq, Eq, Structural)]
pub enum QueryKind {
    /// Messages after a cursor, oldest first. Parameter: the cursor.
    MessagesAfter,
    /// At most a given number of messages after a cursor, oldest first.
    /// Parameters: the cursor and the limit.
    MessagesAfterLimited,
    /// One message by row id. Parameter: the row id.
    MessageById,
    /// One handle by row id. Parameter: the row id.
    HandleById,
    /// Every handle, by row id. No parameter.
    AllHandles,
    /// The distinct handles of the chats that hold a message. Parameter: the
    /// message's row id.
    ParticipantsForMessage,
    /// The attachments of a message. Parameter: the message's row id.
    AttachmentsForMessage,
}

/// A query: its access pattern and the values bound to its parameters, in
/// order.
pub struct Query {
    pub kind: QueryKind,
    pub params: Vec<i64>,
}

/// A bound that cannot be placed in a query.
#[derive(Debug, Clone, Copy, PartialEq, Eq, Structural)]
pub enum QueryError {
    /// The cursor's internal timestamp does not fit the store's column.
    CursorOutOfRange,
    /// The limit does not fit the engine's 64-bit signed integer.
    LimitOutOfRange,
}

/// The text of the query for each access pattern.
pub open spec fn sql_text(kind: QueryKind) -> Seq<char> {
    match kind {
        QueryKind::MessagesAfter => "SELECT m.*, c.chat_id, (SELECT COUNT(*) FROM message_attachment_join a WHERE m.ROWID = a.message_id) AS num_attachments, NULL AS deleted_from, 0 AS num_replies FROM message AS m LEFT JOIN chat_message_join AS c ON m.ROWID = c.message_id WHERE m.date > ?1 ORDER BY m.date ASC"@,
        QueryKind::MessagesAfterLimited => "SELECT m.*, c.chat_id, (SELECT COUNT(*) FROM message_attachment_join a WHERE m.ROWID = a.message_id) AS num_attachments, NULL AS deleted_from, 0 AS num_replies FROM message AS m LEFT JOIN chat_message_join AS c ON m.ROWID = c.message_id WHERE m.date > ?1 ORDER BY m.date ASC LIMIT ?2"@,
        QueryKind::MessageById => "SELECT m.*, c.chat_id, (SELECT COUNT(*) FROM message_attachment_join a WHERE m.ROWID = a.message_id) AS num_attachments, NULL AS deleted_from, 0 AS num_replies FROM message AS m LEFT JOIN chat_message_join AS c ON m.ROWID = c.message_id WHERE m.ROWID = ?1"@,
        QueryKind::HandleById => "SELECT rowid, id, service, uncanonicalized_id FROM handle WHERE rowid = ?1"@,
        QueryKind::AllHandles => "SELECT rowid, id, service, uncanonicalized_id FROM handle ORDER BY rowid"@,
        QueryKind::ParticipantsForMessage => "SELECT DISTINCT h.rowid, h.id, h.service, h.uncanonicalized_id FROM handle h INNER JOIN chat_handle_join chj ON h.rowid = chj.handle_id INNER JOIN chat_message_join cmj ON chj.chat_id = cmj.chat_id WHERE cmj.message_id = ?1"@,
        QueryKind::AttachmentsForMessage => "SELECT a.rowid, a.guid, a.filename, a.mime_type, a.transfer_name, a.total_bytes FROM attachment a INNER JOIN message_attachment_join maj ON a.rowid = maj.attachment_id WHERE maj.message_id = ?1"@,
    }
}

/// Whether a limit can be bound as the engine's 64-bit signed integer.
pub open spec fn limit_fits(limit: Option<u64>) -> bool {
    limit is None || limit->0 <= i64::MAX
}

impl Query {
    /// The text of this query.
    pub fn sql(&self) -> (r: &'static str)
        ensures
            r@ == sql_text(self.kind),
    {
        sql_for(self.kind)
    }
}

/// The text of the query for an access pattern.
pub fn sql_for(kind: QueryKind) -> (r: &'static str)
    ensures
        r@ == sql_text(kind),
{
    match kind {
        QueryKind::MessagesAfter => "SELECT m.*, c.chat_id, (SELECT COUNT(*) FROM message_attachment_join a WHERE m.ROWID = a.message_id) AS num_attachments, NULL AS deleted_from, 0 AS num_replies FROM message AS m LEFT JOIN chat_message_join AS c ON m.ROWID = c.message_id WHERE m.date > ?1 ORDER BY m.date ASC",
        QueryKind::MessagesAfterLimited => "SELECT m.*, c.chat_id, (SELECT COUNT(*) FROM message_attachment_join a WHERE m.ROWID = a.message_id) AS num_attachments, NULL AS deleted_from, 0 AS num_replies FROM message AS m LEFT JOIN chat_message_join AS c ON m.ROWID = c.message_id WHERE m.date > ?1 ORDER BY m.date ASC LIMIT ?2",
        QueryKind::MessageById => "SELECT m.*, c.chat_id, (SELECT COUNT(*) FROM message_attachment_join a WHERE m.ROWID = a.message_id) AS num_attachments, NULL AS deleted_from, 0 AS num_replies FROM message AS m LEFT JOIN chat_message_join AS c ON m.ROWID = c.message_id WHERE m.ROWID = ?1",
        QueryKind::HandleById => "SELECT rowid, id, service, uncanonicalized_id FROM handle WHERE rowid = ?1",
        QueryKind::AllHandles => "SELECT rowid, id, service, uncanonicalized_id FROM handle ORDER BY rowid",
        QueryKind::ParticipantsForMessage => "SELECT DISTINCT h.rowid, h.id, h.service, h.uncanonicalized_id FROM handle h INNER JOIN chat_handle_join chj ON h.rowid = chj.handle_id INNER JOIN chat_message_join cmj ON chj.chat_id = cmj.chat_id WHERE cmj.message_id = ?1",
        QueryKind::AttachmentsForMessage => "SELECT a.rowid, a.guid, a.filename, a.mime_type, a.transfer_name, a.total_bytes FROM attachment a INNER JOIN message_attachment_join maj ON a.rowid = maj.attachment_id WHERE maj.message_id = ?1",
    }
}

/// The query for the messages strictly after a cursor given in Unix
/// nanoseconds, oldest first, at most `limit` of them when a limit is given.
pub fn messages_after(cursor_unix_nanos: i128, limit: Option<u64>) -> (r: Result<Query, QueryError>)
    ensures
        r matches Err(QueryError::CursorOutOfRange) <==> !representable(cursor_unix_nanos as int),
        r matches Err(QueryError::LimitOutOfRange) <==> representable(cursor_unix_nanos as int)
            && !limit_fits(limit),
        r is Ok ==> limit is None && r->Ok_0.kind == QueryKind::MessagesAfter
            && r->Ok_0.params@ == seq![internal_of(cursor_unix_nanos as int) as i64]
            || limit is Some && r->Ok_0.kind == QueryKind::MessagesAfterLimited
            && r->Ok_0.params@ == seq![internal_of(cursor_unix_nanos as int) as i64, limit->0 as i64],
{
    let cursor = match to_internal(cursor_unix_nanos) {
        Some(c) => c,
        None => {
            return Err(QueryError::CursorOutOfRange);
        },
    };
    match limit {
        None => Ok(Query { kind: QueryKind::MessagesAfter, params: vec![cursor] }),
        Some(n) => if n > i64::MAX as u64 {
            Err(QueryError::LimitOutOfRange)
        } else {
            Ok(Query { kind: QueryKind::MessagesAfterLimited, params: vec![cursor, n as i64] })
        },
    }
}

/// The query for one message by row id.
pub fn message_by_id(rowid: i64) -> (r: Query)
    ensures
        r.kind == QueryKind::MessageById,
        r.params@ == seq![rowid],
{
    Query { kind: QueryKind::MessageById, params: vec![rowid] }
}

/// The query for one handle by row id.
pub fn handle_by_id(rowid: i64) -> (r: Query)
    ensures
        r.kind == QueryKind::HandleById,
        r.params@ == seq![rowid],
{
    Query { kind: QueryKind::HandleById, params: vec![rowid] }
}

/// The query for every handle, ordered by row id.
pub fn all_handles() -> (r: Query)
    ensures
        r.kind == QueryKind::AllHandles,
        r.params@.len() == 0,
{
    Query { kind: QueryKind::AllHandles, params: Vec::new() }
}

/// The query for the distinct handles of the chats that hold a message.
pub fn participants_for_message(message_rowid: i64) -> (r: Query)
    ensures
        r.kind == QueryKind::ParticipantsForMessage,
        r.params@ == seq![message_rowid],
{
    Query { kind: QueryKind::ParticipantsForMessage, params: vec![message_rowid] }
}

/// The query for the attachments of a message.
pub fn attachments_for_message(message_rowid: i64) -> (r: Query)
    ensures
        r.kind == QueryKind::AttachmentsForMessage,
        r.params@ == seq![message_rowid],
{
    Query { kind: QueryKind::AttachmentsForMessage, params: vec![message_rowid] }
}

} // verus!
