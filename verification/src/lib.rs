//! Inspect the item graph of a crate and render its type expressions as
//! text, in a configurable output dialect.
//!
//! The core is the renderer ([`format`]): mutually recursive pure functions
//! over a closed type-expression model ([`model`]), driven by an immutable
//! dialect configuration ([`dialect`]). The item graph ([`graph`]) holds the
//! named entities whose declared types get rendered, with name-based lookup
//! and kind-filtered iteration. The laws the renderer obeys are stated and
//! proved in [`laws`].

pub mod dialect;
pub mod format;
pub mod graph;
pub mod laws;
pub mod model;
pub mod text;

pub use dialect::Dialect;
pub use format::render;
pub use model::RenderError;
