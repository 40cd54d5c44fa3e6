//! Client-side modeling of a social-media graph API: typed success and
//! error payloads, and a verified classifier that turns a raw response
//! body into exactly one of a typed success, a typed API error, or a
//! hard "unparseable" failure.

pub mod auth;
pub mod facebook;
pub mod instagram;
pub mod json;
pub mod meta;
pub mod text;
