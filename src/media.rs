//! Resolution of an event's stored image frame: the decisions between the
//! row lookup, the canonicalisation of paths and the file read, and the
//! content type of what is served.

use vstd::prelude::*;
use crate::error::ApiError;
use crate::text::{index_from, is_within_root, join_path, join_paths, within_root};

verus! {

/// The content type that `mime_guess` gives a path.
pub uninterp spec fn guessed_mime(path: Seq<char>) -> Seq<char>;

/// Relies on `mime_guess::from_path(..).first_or_octet_stream()`: the type
/// registered for the path's extension, `application/octet-stream` when there
/// is none (a path without `.` has no extension).
#[verifier::external_body]
fn mime_for_path(path: &str) -> (r: String)
    ensures
        r@ == guessed_mime(path@),
        index_from(path@, '.', 0) is None ==> r@ == "application/octet-stream"@,
{
    mime_guess::from_path(path).first_or_octet_stream().to_string()
}

/// The table an image request reads.
#[derive(Clone, Copy, PartialEq, Eq, Debug)]
pub enum EventTable {
    FaceCaptures,
    PostureEvents,
}

/// The statement that reads an event's frame path, with the id as `$1`.
pub open spec fn frame_sql(table: EventTable) -> Seq<char> {
    match table {
        EventTable::FaceCaptures => "SELECT frame_path FROM face_captures WHERE id = $1"@,
        EventTable::PostureEvents => "SELECT frame_path FROM posture_events WHERE id = $1"@,
    }
}

impl EventTable {
    /// The statement that reads the frame path of one row of this table.
    pub fn frame_path_sql(&self) -> (r: &'static str)
        ensures
            r@ == frame_sql(*self),
    {
        match self {
            EventTable::FaceCaptures => "SELECT frame_path FROM face_captures WHERE id = $1",
            EventTable::PostureEvents => "SELECT frame_path FROM posture_events WHERE id = $1",
        }
    }
}

pub const DEFAULT_CAPTURE_ROOT: &'static str = "data/captures";

pub open spec fn not_found_message(table: EventTable) -> Seq<char> {
    match table {
        EventTable::FaceCaptures => "face capture not found"@,
        EventTable::PostureEvents => "posture event not found"@,
    }
}

pub open spec fn no_frame_message(table: EventTable) -> Seq<char> {
    match table {
        EventTable::FaceCaptures => "face capture has no associated frame path"@,
        EventTable::PostureEvents => "posture event has no associated frame path"@,
    }
}

pub open spec fn no_root_message() -> Seq<char> {
    "capture root not configured"@
}

pub open spec fn missing_file_message() -> Seq<char> {
    "capture file not found"@
}

pub open spec fn escape_message() -> Seq<char> {
    "path outside allowed directory"@
}

/// Whether `r` failed with this status and message.
pub open spec fn fails_with<T>(r: Result<T, ApiError>, status: u16, message: Seq<char>) -> bool {
    r is Err && r->Err_0.status_spec() == status && r->Err_0.message_spec() == message
}

/// The capture root: none without settings; else the configured root, or
/// the default, taken relative to `repo_root` unless absolute.
pub open spec fn capture_root_spec(
    has_settings: bool,
    configured: Option<Seq<char>>,
    repo_root: Seq<char>,
) -> Option<Seq<char>> {
    if !has_settings {
        None
    } else {
        Some(
            join_path(
                repo_root,
                match configured {
                    Some(c) => c,
                    None => DEFAULT_CAPTURE_ROOT@,
                },
            ),
        )
    }
}

/// The directory that stored frame paths are resolved against.
pub fn capture_root(has_settings: bool, configured: Option<&str>, repo_root: &str) -> (r: Option<
    String,
>)
    ensures
        match r {
            Some(s) => capture_root_spec(
                has_settings,
                match configured {
                    Some(c) => Some(c@),
                    None => None,
                },
                repo_root@,
            ) == Some(s@),
            None => !has_settings,
        },
{
    if !has_settings {
        return None;
    }
    let raw = match configured {
        Some(c) => c,
        None => DEFAULT_CAPTURE_ROOT,
    };
    Some(join_paths(repo_root, raw))
}

/// The first step of an image request: the capture root must be configured.
pub fn require_capture_root(root: Option<String>) -> (r: Result<String, ApiError>)
    ensures
        match root {
            Some(s) => r is Ok && r->Ok_0@ == s@,
            None => fails_with(r, 500, no_root_message()),
        },
{
    match root {
        Some(s) => Ok(s),
        None => Err(ApiError::Internal(String::from_str("capture root not configured"))),
    }
}

/// The stored frame path of the looked-up row: `row` is `None` when no row
/// has the id, `Some(None)` when the row has no frame.
pub fn frame_of_row(table: EventTable, row: Option<Option<String>>) -> (r: Result<
    String,
    ApiError,
>)
    ensures
        match row {
            None => fails_with(r, 404, not_found_message(table)),
            Some(None) => fails_with(r, 404, no_frame_message(table)),
            Some(Some(p)) => r is Ok && r->Ok_0@ == p@,
        },
{
    match row {
        None => Err(
            ApiError::NotFound(
                match table {
                    EventTable::FaceCaptures => String::from_str("face capture not found"),
                    EventTable::PostureEvents => String::from_str("posture event not found"),
                },
            ),
        ),
        Some(None) => Err(
            ApiError::NotFound(
                match table {
                    EventTable::FaceCaptures => String::from_str(
                        "face capture has no associated frame path",
                    ),
                    EventTable::PostureEvents => String::from_str(
                        "posture event has no associated frame path",
                    ),
                },
            ),
        ),
        Some(Some(p)) => Ok(p),
    }
}

/// The path to canonicalise for a stored frame: the frame path itself when
/// absolute, else joined to the canonical capture root.
pub fn frame_candidate(root: &str, frame_path: &str) -> (r: String)
    ensures
        r@ == join_path(root@, frame_path@),
{
    join_paths(root, frame_path)
}

/// Decides on the canonicalised root and candidate (`None` where
/// canonicalisation failed): the candidate is served only when it lies
/// within the root.
pub fn check_containment(root: Option<&str>, full: Option<&str>) -> (r: Result<String, ApiError>)
    ensures
        match (root, full) {
            (Some(rt), Some(f)) => if within_root(rt@, f@) {
                r is Ok && r->Ok_0@ == f@
            } else {
                fails_with(r, 400, escape_message())
            },
            _ => fails_with(r, 404, missing_file_message()),
        },
        r is Ok ==> root is Some && within_root(root->Some_0@, r->Ok_0@),
{
    match (root, full) {
        (Some(rt), Some(f)) => if is_within_root(rt, f) {
            Ok(String::from_str(f))
        } else {
            Err(ApiError::BadRequest(String::from_str("path outside allowed directory")))
        },
        _ => Err(ApiError::NotFound(String::from_str("capture file not found"))),
    }
}

/// The error for a contained file that could not be read.
pub fn unreadable_file() -> (r: ApiError)
    ensures
        r.status_spec() == 404,
        r.message_spec() == missing_file_message(),
{
    ApiError::NotFound(String::from_str("capture file not found"))
}

/// The content type served for an image file, guessed from its extension.
pub fn image_content_type(path: &str) -> (r: String)
    ensures
        r@ == guessed_mime(path@),
        index_from(path@, '.', 0) is None ==> r@ == "application/octet-stream"@,
{
    mime_for_path(path)
}

} // verus!
