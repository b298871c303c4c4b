//! Textured-triangle mesh batching for a 2D vector-graphics pipeline.
//!
//! Every drawn shape is lowered into a [`triangles::Triangles`] batch: a
//! vertex buffer plus an index buffer describing triangles over it, tagged
//! with the texture the batch must be drawn with. The library covers batch
//! construction, merging of same-texture batches, and partitioning an
//! oversized batch so that every output respects a 16-bit index-buffer
//! limit while preserving draw order.
//!
//! Geometry is carried in the library's own plain integer coordinate types
//! (see [`math`]); colors are premultiplied sRGBA (see [`color`]).
//!
//! Two companion modules hold the host applications' checkable rules:
//! [`board`], the tic-tac-toe grid logic, and [`text`], document spans,
//! language-service messages, and token-color lookups over highlighted
//! text.

pub mod board;
pub mod color;
pub mod math;
pub mod split;
pub mod text;
pub mod triangles;
