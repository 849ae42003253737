//! Turning the rows that the store returns into messages, handles and
//! composite message views.
//!
//! Executing a query is the caller's part; what it hands back is checked and
//! mapped here.
use crate::epoch::{from_internal, unix_of};
use crate::query::{handle_by_id, Query};
use crate::record::{
    map_row, mappable, mapping_error_of, message_of, Attachment, Handle, MappingError, Message,
    RawMessage,
};
use vstd::prelude::*;

verus! {

/// Why an operation on the store failed.
pub enum StoreError {
    /// The store could not be opened.
    Io(String),
    /// The engine refused a query.
    QueryPreparation(String),
    /// The engine failed while running a query.
    QueryExecution(String),
    /// A row could not be read into its columns.
    RowRead(String),
    /// A row lacks a column that every message has.
    Mapping(MappingError),
    /// The engine returned a message that is not after the cursor, or
    /// returned messages out of date order.
    RowOutOfOrder,
    /// The requested record does not exist.
    NotFound,
}

/// A message with its handle, participants and attachments.
pub struct Composite {
    pub message: Message,
    pub handle: Option<Handle>,
    pub participants: Vec<Handle>,
    pub attachments: Vec<Attachment>,
}

/// How many of `len` rows a fetch with `limit` keeps.
pub open spec fn kept(len: int, limit: Option<u64>) -> int {
    match limit {
        Some(n) => if (n as int) < len {
            n as int
        } else {
            len
        },
        None => len,
    }
}

/// Each of the first `n` rows is dated strictly after the cursor (Unix
/// nanoseconds).
pub open spec fn after_cursor(rows: Seq<RawMessage>, cursor: int, n: int) -> bool {
    forall|i: int| 0 <= i < n ==> unix_of(#[trigger] rows[i].date as int) > cursor
}

/// The first `n` rows are in ascending date order.
pub open spec fn ascending(rows: Seq<RawMessage>, n: int) -> bool {
    forall|i: int, j: int| 0 <= i <= j < n ==> #[trigger] rows[i].date <= #[trigger] rows[j].date
}

/// The first `n` rows are in the window that a fetch after `cursor` asks for.
pub open spec fn in_window(rows: Seq<RawMessage>, cursor: int, n: int) -> bool {
    after_cursor(rows, cursor, n) && ascending(rows, n)
}

/// Each of the first `n` rows can be mapped.
pub open spec fn all_mappable(rows: Seq<RawMessage>, n: int) -> bool {
    forall|i: int| 0 <= i < n ==> mappable(#[trigger] rows[i])
}

/// `out` is the result of a fetch after `cursor` with `limit` over the rows
/// that the engine returned: the kept rows, each mapped, in order.
pub open spec fn fetched(cursor: int, limit: Option<u64>, rows: Seq<RawMessage>, out: Seq<Message>) -> bool {
    &&& in_window(rows, cursor, kept(rows.len() as int, limit))
    &&& out.len() == kept(rows.len() as int, limit)
    &&& forall|i: int| 0 <= i < out.len() ==> message_of(rows[i], #[trigger] out[i])
}

/// The composite view built from a message and its three lookups: the first
/// failed lookup, in the order handle, participants, attachments, fails it.
pub open spec fn composed(
    message: Message,
    handle: Result<Option<Handle>, StoreError>,
    participants: Result<Vec<Handle>, StoreError>,
    attachments: Result<Vec<Attachment>, StoreError>,
) -> Result<Composite, StoreError> {
    match (handle, participants, attachments) {
        (Err(e), _, _) => Err(e),
        (Ok(_), Err(e), _) => Err(e),
        (Ok(_), Ok(_), Err(e)) => Err(e),
        (Ok(h), Ok(p), Ok(a)) => Ok(
            Composite { message, handle: h, participants: p, attachments: a },
        ),
    }
}

/// The store file to open: the given path, or else the platform's default
/// location where a file stands there. Fails with `Io` where no path is given
/// and the default location holds no file.
pub fn resolve_store_path(given: Option<String>, default_path: String, default_exists: bool) -> (r:
    Result<String, StoreError>)
    ensures
        r is Err <==> given is None && !default_exists,
        r is Err ==> r->Err_0 is Io,
        given is Some ==> r == Ok::<String, StoreError>(given->0),
        given is None && default_exists ==> r == Ok::<String, StoreError>(default_path),
{
    match given {
        Some(p) => Ok(p),
        None => if default_exists {
            Ok(default_path)
        } else {
            Err(StoreError::Io("Could not find default iMessage database path".to_owned()))
        },
    }
}

/// Checks and maps the rows that the engine returned for a fetch after a
/// cursor (Unix nanoseconds), keeping at most `limit` of them. Fails with
/// `RowOutOfOrder` where a kept row is not after the cursor or the kept rows
/// are out of date order, and otherwise with the mapping error of the first
/// kept row that cannot be mapped.
pub fn collect_messages(cursor_unix_nanos: i128, limit: Option<u64>, rows: &Vec<RawMessage>) -> (r:
    Result<Vec<Message>, StoreError>)
    ensures
        r matches Err(StoreError::RowOutOfOrder) <==> !in_window(
            rows@,
            cursor_unix_nanos as int,
            kept(rows@.len() as int, limit),
        ),
        r is Ok <==> in_window(rows@, cursor_unix_nanos as int, kept(rows@.len() as int, limit))
            && all_mappable(rows@, kept(rows@.len() as int, limit)),
        r matches Err(StoreError::Mapping(e)) ==> exists|i: int|
            0 <= i < kept(rows@.len() as int, limit) && !mappable(#[trigger] rows@[i])
                && all_mappable(rows@, i) && e == mapping_error_of(rows@[i]),
        r is Err ==> r matches Err(StoreError::RowOutOfOrder) || r matches Err(
            StoreError::Mapping(_),
        ),
        r is Ok ==> fetched(cursor_unix_nanos as int, limit, rows@, r->Ok_0@),
{
    let n: usize = match limit {
        Some(l) => if (l as u128) < (rows.len() as u128) {
            l as usize
        } else {
            rows.len()
        },
        None => rows.len(),
    };
    let mut i: usize = 0;
    while i < n
        invariant
            n == kept(rows@.len() as int, limit),
            0 <= i <= n,
            after_cursor(rows@, cursor_unix_nanos as int, i as int),
            ascending(rows@, i as int),
        decreases n - i,
    {
        let date = rows[i].date;
        if from_internal(date) <= cursor_unix_nanos {
            return Err(StoreError::RowOutOfOrder);
        }
        if i > 0 && rows[i - 1].date > date {
            assert(!ascending(rows@, n as int)) by {
                assert(rows@[i - 1].date > rows@[i as int].date);
            }
            return Err(StoreError::RowOutOfOrder);
        }
        i = i + 1;
    }
    let mut out: Vec<Message> = Vec::new();
    let mut k: usize = 0;
    while k < n
        invariant
            n == kept(rows@.len() as int, limit),
            0 <= k <= n,
            in_window(rows@, cursor_unix_nanos as int, n as int),
            all_mappable(rows@, k as int),
            out@.len() == k,
            forall|j: int| 0 <= j < k ==> message_of(rows@[j], #[trigger] out@[j]),
        decreases n - k,
    {
        match map_row(&rows[k]) {
            Ok(m) => {
                out.push(m);
            },
            Err(e) => {
                return Err(StoreError::Mapping(e));
            },
        }
        k = k + 1;
    }
    Ok(out)
}

/// The message of a single-message lookup: `NotFound` where the engine
/// returned no row, otherwise the first row mapped.
pub fn message_from_rows(rows: &Vec<RawMessage>) -> (r: Result<Message, StoreError>)
    ensures
        r matches Err(StoreError::NotFound) <==> rows@.len() == 0,
        rows@.len() > 0 && !mappable(rows@[0]) ==> r == Err::<Message, StoreError>(
            StoreError::Mapping(mapping_error_of(rows@[0])),
        ),
        rows@.len() > 0 && mappable(rows@[0]) ==> r is Ok && message_of(rows@[0], r->Ok_0),
{
    if rows.len() == 0 {
        return Err(StoreError::NotFound);
    }
    match map_row(&rows[0]) {
        Ok(m) => Ok(m),
        Err(e) => Err(StoreError::Mapping(e)),
    }
}

/// The handle of a single-handle lookup: the first row, or `None` where the
/// engine returned none.
pub fn handle_from_rows(rows: Vec<Handle>) -> (r: Option<Handle>)
    ensures
        r is None <==> rows@.len() == 0,
        r is Some ==> r->0 == rows@[0],
{
    let mut rows = rows;
    if rows.len() == 0 {
        None
    } else {
        Some(rows.remove(0))
    }
}

/// The follow-up query for a message's handle, where it names one.
pub fn handle_query(message: &Message) -> (r: Option<Query>)
    ensures
        r is None <==> message.handle_id is None,
        r is Some ==> r->0.kind == crate::query::QueryKind::HandleById && r->0.params@ == seq![
            message.handle_id->0,
        ],
{
    match message.handle_id {
        Some(h) => Some(handle_by_id(h)),
        None => None,
    }
}

/// Merges a message with the results of its three follow-up lookups. The
/// first lookup that failed, in the order handle, participants, attachments,
/// fails the whole view; no partial view is returned.
pub fn compose(
    message: Message,
    handle: Result<Option<Handle>, StoreError>,
    participants: Result<Vec<Handle>, StoreError>,
    attachments: Result<Vec<Attachment>, StoreError>,
) -> (r: Result<Composite, StoreError>)
    ensures
        r == composed(message, handle, participants, attachments),
{
    let handle = match handle {
        Ok(h) => h,
        Err(e) => {
            return Err(e);
        },
    };
    let participants = match participants {
        Ok(p) => p,
        Err(e) => {
            return Err(e);
        },
    };
    let attachments = match attachments {
        Ok(a) => a,
        Err(e) => {
            return Err(e);
        },
    };
    Ok(Composite { message, handle, participants, attachments })
}

/// Every message that a fetch returns is dated strictly after the cursor,
/// the messages come in ascending date order, and strictly ascending where
/// the rows kept have pairwise distinct dates.
pub proof fn lemma_fetch_ordered(
    cursor: int,
    limit: Option<u64>,
    rows: Seq<RawMessage>,
    out: Seq<Message>,
)
    requires
        fetched(cursor, limit, rows, out),
    ensures
        forall|i: int| 0 <= i < out.len() ==> #[trigger] out[i].date > cursor,
        forall|i: int, j: int|
            0 <= i <= j < out.len() ==> #[trigger] out[i].date <= #[trigger] out[j].date,
        (forall|i: int, j: int|
            0 <= i < j < out.len() ==> #[trigger] rows[i].date != #[trigger] rows[j].date)
            ==> forall|i: int, j: int|
            0 <= i < j < out.len() ==> #[trigger] out[i].date < #[trigger] out[j].date,
{
    assert forall|i: int| 0 <= i < out.len() implies #[trigger] out[i].date > cursor by {
        assert(message_of(rows[i], out[i]));
        assert(unix_of(rows[i].date as int) > cursor);
    }
    assert forall|i: int, j: int| 0 <= i <= j < out.len() implies #[trigger] out[i].date
        <= #[trigger] out[j].date by {
        assert(message_of(rows[i], out[i]));
        assert(message_of(rows[j], out[j]));
        assert(rows[i].date <= rows[j].date);
    }
    if forall|i: int, j: int|
        0 <= i < j < out.len() ==> #[trigger] rows[i].date != #[trigger] rows[j].date {
        assert forall|i: int, j: int| 0 <= i < j < out.len() implies #[trigger] out[i].date
            < #[trigger] out[j].date by {
            assert(message_of(rows[i], out[i]));
            assert(message_of(rows[j], out[j]));
            assert(rows[i].date <= rows[j].date);
            assert(rows[i].date != rows[j].date);
        }
    }
}

/// A fetch with a limit returns at most that many messages; one without a
/// limit returns one message for every row that the engine returned.
pub proof fn lemma_fetch_limit(cursor: int, limit: Option<u64>, rows: Seq<RawMessage>, out: Seq<Message>)
    requires
        fetched(cursor, limit, rows, out),
    ensures
        limit is Some ==> out.len() <= limit->0,
        limit is None ==> out.len() == rows.len(),
{
}

/// A message with no participants and no attachments gets a view with empty
/// lists of both, not a failure.
pub proof fn lemma_empty_lookups_give_empty_lists(
    message: Message,
    handle: Option<Handle>,
    participants: Vec<Handle>,
    attachments: Vec<Attachment>,
)
    requires
        participants@.len() == 0,
        attachments@.len() == 0,
    ensures
        composed(message, Ok(handle), Ok(participants), Ok(attachments)) is Ok,
        composed(message, Ok(handle), Ok(participants), Ok(attachments))->Ok_0.participants@.len()
            == 0,
        composed(message, Ok(handle), Ok(participants), Ok(attachments))->Ok_0.attachments@.len()
            == 0,
{
}

} // verus!
