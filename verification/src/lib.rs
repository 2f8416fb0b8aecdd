//! An on-demand image proxy core: given an image identifier it decides between
//! serving from a bounded cache and fetching from the origin, tells animated
//! WebP containers from still images, fits still images into a fixed box, and
//! answers conditional requests with a content-derived validator.
//!
//! Every function here carries a contract that Verus checks; the few calls
//! into other crates sit behind small functions whose contracts are assumed
//! and documented as such.

pub mod cache;
pub mod etag;
pub mod identifier;
pub mod pipeline;
pub mod response;
pub mod sniff;
mod text;
pub mod transform;
pub mod validator;
