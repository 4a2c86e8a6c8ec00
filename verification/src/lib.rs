//! A scalable-vector-graphics element for a retained-mode UI framework.
//!
//! The element resolves its intrinsic size from vector-graphics content,
//! derives auto-sized style lengths that preserve the aspect ratio, composes
//! an affine paint transform around the element's visual center, and resolves
//! its image bytes at paint time, either from a pre-registered content source
//! or from a session-scoped cache of externally loaded bytes.

pub mod cache;
pub mod element;
pub mod geometry;
pub mod scalar;
pub mod sizing;
pub mod transform;
