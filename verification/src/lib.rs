//! Möbius transformations of the extended complex plane from three points
//! and their images, and the lines and circles that they carry along.
//!
//! Numbers are binary64, held as bit patterns ([`binary64`]). What can be
//! decided of a pattern is decided and proved here. What rounds is asked of
//! the caller ([`arith`]), and the engine ([`engine`], [`api`]) is proved
//! for every answer. [`wire`] holds how a point is written for a peer and
//! read back.

pub mod binary64;
pub mod model;
pub mod arith;
pub mod text;
pub mod api;
pub mod wire;
pub mod engine;
