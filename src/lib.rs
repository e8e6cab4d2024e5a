//! Read-only API core of a face-capture and posture monitoring service:
//! session tokens, filtered listing plans, event projection and safe
//! resolution of stored image frames.

pub mod text;
pub mod error;
pub mod projection;
pub mod auth;
pub mod media;
pub mod query;
