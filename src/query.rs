//! Plans for the two list queries: the clamped row limit, the filter, and
//! the parameterised statement that carries them.

use vstd::prelude::*;
use crate::text::{opt_view, trim, trim_str};

verus! {

pub const MIN_LIMIT: i64 = 1;

pub const MAX_LIMIT: i64 = 200;

pub const DEFAULT_FACE_CAPTURE_LIMIT: i64 = 40;

pub const DEFAULT_POSTURE_LIMIT: i64 = 50;

/// `x` brought into `[MIN_LIMIT, MAX_LIMIT]`.
pub open spec fn clamp_limit(x: i64) -> i64 {
    if x < MIN_LIMIT {
        MIN_LIMIT
    } else if x > MAX_LIMIT {
        MAX_LIMIT
    } else {
        x
    }
}

/// The requested limit, or `default` when none was asked for, clamped.
pub open spec fn limit_spec(requested: Option<i64>, default: i64) -> i64 {
    clamp_limit(
        match requested {
            Some(x) => x,
            None => default,
        },
    )
}

/// A group-tag filter: the trimmed tag, none when that is empty.
pub open spec fn tag_filter(tag: Option<Seq<char>>) -> Option<Seq<char>> {
    match tag {
        Some(t) => if trim(t).len() > 0 {
            Some(trim(t))
        } else {
            None
        },
        None => None,
    }
}

/// Face captures, most recent first, with the limit as `$1`.
pub open spec fn face_captures_sql() -> Seq<char> {
    "SELECT id, identity, group_tag, frame_path, face_distance, timestamp FROM face_captures ORDER BY timestamp DESC LIMIT $1"@
}

/// Face captures of one group, most recent first: the tag as `$1`, the limit as `$2`.
pub open spec fn face_captures_by_tag_sql() -> Seq<char> {
    "SELECT id, identity, group_tag, frame_path, face_distance, timestamp FROM face_captures WHERE group_tag = $1 ORDER BY timestamp DESC LIMIT $2"@
}

/// Posture events, most recent first, with the limit as `$1`.
pub open spec fn posture_events_sql() -> Seq<char> {
    "SELECT id, identity, is_bad, nose_drop, neck_angle, reasons, face_distance, frame_path, face_capture_id, timestamp FROM posture_events ORDER BY timestamp DESC LIMIT $1"@
}

/// Posture events with one `is_bad` value, most recent first: the limit as
/// `$1`, the flag as `$2`.
pub open spec fn posture_events_by_flag_sql() -> Seq<char> {
    "SELECT id, identity, is_bad, nose_drop, neck_angle, reasons, face_distance, frame_path, face_capture_id, timestamp FROM posture_events WHERE is_bad = $2 ORDER BY timestamp DESC LIMIT $1"@
}

/// The row limit of a list query.
pub fn effective_limit(requested: Option<i64>, default: i64) -> (r: i64)
    ensures
        r == limit_spec(requested, default),
        MIN_LIMIT <= r <= MAX_LIMIT,
{
    let x = match requested {
        Some(x) => x,
        None => default,
    };
    if x < MIN_LIMIT {
        MIN_LIMIT
    } else if x > MAX_LIMIT {
        MAX_LIMIT
    } else {
        x
    }
}

/// How face captures are listed.
#[derive(Clone, Debug)]
pub struct FaceCaptureQuery {
    pub limit: i64,
    pub group_tag: Option<String>,
}

/// How posture events are listed.
#[derive(Clone, Debug)]
pub struct PostureQuery {
    pub limit: i64,
    pub is_bad: Option<bool>,
}

impl FaceCaptureQuery {
    /// The plan for the given request parameters.
    pub fn from_params(limit: Option<i64>, group_tag: Option<&str>) -> (r: FaceCaptureQuery)
        ensures
            r.limit == limit_spec(limit, DEFAULT_FACE_CAPTURE_LIMIT),
            MIN_LIMIT <= r.limit <= MAX_LIMIT,
            opt_view(r.group_tag) == tag_filter(
                match group_tag {
                    Some(t) => Some(t@),
                    None => None,
                },
            ),
    {
        let tag = match group_tag {
            Some(t) => {
                let t = trim_str(t);
                if t.unicode_len() > 0 {
                    Some(t)
                } else {
                    None
                }
            },
            None => None,
        };
        FaceCaptureQuery {
            limit: effective_limit(limit, DEFAULT_FACE_CAPTURE_LIMIT),
            group_tag: tag,
        }
    }

    /// The statement to run.
    pub fn sql(&self) -> (r: &'static str)
        ensures
            r@ == if self.group_tag is Some {
                face_captures_by_tag_sql()
            } else {
                face_captures_sql()
            },
    {
        if self.group_tag.is_some() {
            "SELECT id, identity, group_tag, frame_path, face_distance, timestamp FROM face_captures WHERE group_tag = $1 ORDER BY timestamp DESC LIMIT $2"
        } else {
            "SELECT id, identity, group_tag, frame_path, face_distance, timestamp FROM face_captures ORDER BY timestamp DESC LIMIT $1"
        }
    }
}

impl PostureQuery {
    /// The plan for the given request parameters.
    pub fn from_params(limit: Option<i64>, is_bad: Option<bool>) -> (r: PostureQuery)
        ensures
            r.limit == limit_spec(limit, DEFAULT_POSTURE_LIMIT),
            MIN_LIMIT <= r.limit <= MAX_LIMIT,
            r.is_bad == is_bad,
    {
        PostureQuery { limit: effective_limit(limit, DEFAULT_POSTURE_LIMIT), is_bad }
    }

    /// The statement to run.
    pub fn sql(&self) -> (r: &'static str)
        ensures
            r@ == if self.is_bad is Some {
                posture_events_by_flag_sql()
            } else {
                posture_events_sql()
            },
    {
        if self.is_bad.is_some() {
            "SELECT id, identity, is_bad, nose_drop, neck_angle, reasons, face_distance, frame_path, face_capture_id, timestamp FROM posture_events WHERE is_bad = $2 ORDER BY timestamp DESC LIMIT $1"
        } else {
            "SELECT id, identity, is_bad, nose_drop, neck_angle, reasons, face_distance, frame_path, face_capture_id, timestamp FROM posture_events ORDER BY timestamp DESC LIMIT $1"
        }
    }
}

/// Whatever limit is requested, the one used lies in `[MIN_LIMIT, MAX_LIMIT]`;
/// one already inside that range is used as it is, one below it becomes
/// `MIN_LIMIT` and one above it `MAX_LIMIT`.
pub proof fn limit_is_clamped(requested: i64, default: i64)
    ensures
        MIN_LIMIT <= limit_spec(Some(requested), default) <= MAX_LIMIT,
        requested < MIN_LIMIT ==> limit_spec(Some(requested), default) == MIN_LIMIT,
        requested > MAX_LIMIT ==> limit_spec(Some(requested), default) == MAX_LIMIT,
        MIN_LIMIT <= requested <= MAX_LIMIT ==> limit_spec(Some(requested), default)
            == requested,
{
}

} // verus!
