//! Decision logic of a Monte-Carlo path tracer.
//!
//! The tracer's arithmetic is IEEE-754 double precision and stays with the
//! caller. The decisions of the rendering core are made here: whether a root
//! lies in the valid interval and which surface is nearest (`scene`), how a
//! material treats a ray (`scatter`), when a path stops (`path`) and how the
//! render pass advances (`render`). Decisions on doubles are taken on their
//! bit patterns and proved against an exact model of how doubles compare
//! (`double`).
pub mod double;
pub mod path;
pub mod render;
pub mod scatter;
pub mod scene;
