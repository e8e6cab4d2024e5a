//! Projection of stored event rows into their API form: image URLs and
//! reason lists.

use vstd::prelude::*;
use vstd::arithmetic::power::pow;
use crate::text::{opt_view, split, split_str, strings_view, trim, trim_str};

verus! {

pub open spec fn hex_digits() -> Seq<char> {
    "0123456789abcdef"@
}

/// Which of the 32 hexadecimal digits, most significant first, stands at
/// position `p` of the hyphenated form.
pub open spec fn uuid_digit_index(p: int) -> int {
    if p < 8 {
        p
    } else if p < 13 {
        p - 1
    } else if p < 18 {
        p - 2
    } else if p < 23 {
        p - 3
    } else {
        p - 4
    }
}

/// The hyphenated lower-case text of a UUID: its 32 hexadecimal digits, most
/// significant first, with hyphens at positions 8, 13, 18 and 23.
pub open spec fn uuid_text(id: u128) -> Seq<char> {
    Seq::new(
        36,
        |p: int|
            if p == 8 || p == 13 || p == 18 || p == 23 {
                '-'
            } else {
                hex_digits()[(id as int / pow(16, (31 - uuid_digit_index(p)) as nat)) % 16]
            },
    )
}

/// Relies on `uuid::Uuid`'s `Display`, built with `Uuid::from_u128` (bytes
/// in big-endian order): the hyphenated lower-case form.
#[verifier::external_body]
fn uuid_string(id: u128) -> (r: String)
    ensures
        r@ == uuid_text(id),
{
    uuid::Uuid::from_u128(id).to_string()
}

/// The image endpoint of a face capture.
pub open spec fn face_capture_image_path(id: u128) -> Seq<char> {
    "/api/face-captures/"@ + uuid_text(id) + "/image"@
}

/// The image endpoint of a posture event.
pub open spec fn posture_image_path(id: u128) -> Seq<char> {
    "/api/posture-events/"@ + uuid_text(id) + "/image"@
}

/// The trimmed, non-empty pieces of `parts`, in order.
pub open spec fn kept_reasons(parts: Seq<Seq<char>>) -> Seq<Seq<char>>
    decreases parts.len(),
{
    if parts.len() == 0 {
        seq![]
    } else {
        let r = kept_reasons(parts.drop_last());
        if trim(parts.last()).len() > 0 {
            r.push(trim(parts.last()))
        } else {
            r
        }
    }
}

/// The reasons listed in a comma-separated string.
pub open spec fn reasons_of(s: Seq<char>) -> Seq<Seq<char>> {
    kept_reasons(split(s, ','))
}

/// A face capture as stored, without the measurements that are only passed through.
#[derive(Clone, Debug)]
pub struct FaceCaptureRecord {
    pub id: u128,
    pub identity: String,
    pub group_tag: String,
    pub frame_path: Option<String>,
}

/// A face capture as the API shows it.
#[derive(Clone, Debug)]
pub struct FaceCaptureSummary {
    pub id: u128,
    pub identity: String,
    pub group_tag: String,
    pub image_url: Option<String>,
}

/// A posture event as stored, without the measurements that are only passed through.
#[derive(Clone, Debug)]
pub struct PostureRecord {
    pub id: u128,
    pub identity: String,
    pub is_bad: bool,
    pub reasons: Option<String>,
    pub frame_path: Option<String>,
    pub face_capture_id: Option<u128>,
}

/// A posture event as the API shows it.
#[derive(Clone, Debug)]
pub struct PostureSummary {
    pub id: u128,
    pub identity: String,
    pub is_bad: bool,
    pub reasons: Vec<String>,
    pub image_url: Option<String>,
}

/// The image URL of a face capture: its own endpoint when it has a frame.
pub open spec fn face_capture_url_spec(id: u128, has_frame: bool) -> Option<Seq<char>> {
    if has_frame {
        Some(face_capture_image_path(id))
    } else {
        None
    }
}

/// The image URL of a posture event: the linked face capture's image first,
/// then the event's own frame, else none.
pub open spec fn posture_url_spec(
    id: u128,
    has_frame: bool,
    face_capture_id: Option<u128>,
) -> Option<Seq<char>> {
    match face_capture_id {
        Some(f) => Some(face_capture_image_path(f)),
        None => if has_frame {
            Some(posture_image_path(id))
        } else {
            None
        },
    }
}

/// `/api/face-captures/{id}/image`.
pub fn face_capture_image_url(id: u128) -> (r: String)
    ensures
        r@ == face_capture_image_path(id),
{
    let mut r = String::from_str("/api/face-captures/");
    let u = uuid_string(id);
    r.append(u.as_str());
    r.append("/image");
    r
}

/// `/api/posture-events/{id}/image`.
pub fn posture_image_url(id: u128) -> (r: String)
    ensures
        r@ == posture_image_path(id),
{
    let mut r = String::from_str("/api/posture-events/");
    let u = uuid_string(id);
    r.append(u.as_str());
    r.append("/image");
    r
}

/// The image URL shown for a posture event.
pub fn posture_event_image_url(id: u128, has_frame: bool, face_capture_id: Option<u128>) -> (r:
    Option<String>)
    ensures
        opt_view(r) == posture_url_spec(id, has_frame, face_capture_id),
{
    match face_capture_id {
        Some(f) => Some(face_capture_image_url(f)),
        None => if has_frame {
            Some(posture_image_url(id))
        } else {
            None
        },
    }
}

/// Splits a comma-separated reason list, trimming each piece and dropping empty ones.
pub fn parse_reasons(raw: Option<&str>) -> (r: Vec<String>)
    ensures
        strings_view(r@) == match raw {
            Some(s) => reasons_of(s@),
            None => seq![],
        },
{
    let s = match raw {
        Some(s) => s,
        None => {
            let r: Vec<String> = Vec::new();
            assert(strings_view(r@) =~= seq![]);
            return r;
        },
    };
    let parts = split_str(s, ',');
    let ghost ps = strings_view(parts@);
    let mut out: Vec<String> = Vec::new();
    let mut k: usize = 0;
    assert(strings_view(out@) =~= kept_reasons(ps.subrange(0, 0)));
    while k < parts.len()
        invariant
            ps == strings_view(parts@),
            ps == split(s@, ','),
            0 <= k <= parts.len(),
            strings_view(out@) == kept_reasons(ps.subrange(0, k as int)),
        decreases parts.len() - k,
    {
        let t = trim_str(parts[k].as_str());
        proof {
            assert(ps.subrange(0, k + 1).drop_last() =~= ps.subrange(0, k as int));
            assert(ps.subrange(0, k + 1).last() == parts@[k as int]@);
        }
        if t.unicode_len() > 0 {
            proof {
                assert(strings_view(out@.push(t)) =~= strings_view(out@).push(t@));
            }
            out.push(t);
        }
        k = k + 1;
    }
    assert(ps.subrange(0, parts.len() as int) =~= ps);
    out
}

/// The API form of a face capture.
pub fn project_face_capture(row: FaceCaptureRecord) -> (r: FaceCaptureSummary)
    ensures
        r.id == row.id,
        r.identity@ == row.identity@,
        r.group_tag@ == row.group_tag@,
        opt_view(r.image_url) == face_capture_url_spec(row.id, row.frame_path is Some),
{
    let image_url = match row.frame_path {
        Some(_) => Some(face_capture_image_url(row.id)),
        None => None,
    };
    FaceCaptureSummary { id: row.id, identity: row.identity, group_tag: row.group_tag, image_url }
}

/// The API form of a posture event.
pub fn project_posture_event(row: PostureRecord) -> (r: PostureSummary)
    ensures
        r.id == row.id,
        r.identity@ == row.identity@,
        r.is_bad == row.is_bad,
        strings_view(r.reasons@) == match row.reasons {
            Some(s) => reasons_of(s@),
            None => seq![],
        },
        opt_view(r.image_url) == posture_url_spec(
            row.id,
            row.frame_path is Some,
            row.face_capture_id,
        ),
{
    let reasons = match &row.reasons {
        Some(s) => parse_reasons(Some(s.as_str())),
        None => parse_reasons(None),
    };
    let image_url = posture_event_image_url(row.id, row.frame_path.is_some(), row.face_capture_id);
    PostureSummary { id: row.id, identity: row.identity, is_bad: row.is_bad, reasons, image_url }
}

/// A posture event linked to a face capture shows that capture's image,
/// whether or not it has a frame of its own, and never its own endpoint.
pub proof fn linked_capture_image_preferred(id: u128, has_frame: bool, face_capture_id: u128)
    ensures
        posture_url_spec(id, has_frame, Some(face_capture_id)) == Some(
            face_capture_image_path(face_capture_id),
        ),
        face_capture_image_path(face_capture_id) != posture_image_path(id),
{
    reveal_strlit("/api/face-captures/");
    reveal_strlit("/api/posture-events/");
    assert(face_capture_image_path(face_capture_id)[5] == 'f');
    assert(posture_image_path(id)[5] == 'p');
}

} // verus!
