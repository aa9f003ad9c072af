//! Composition and validation of vertex attribute sources for a draw call.
//!
//! A draw call combines several attribute streams: whole vertex buffers,
//! slices of them, per-instance re-tagged slices, and synthetic markers that
//! carry only a count. This crate provides the uniform descriptor for such a
//! stream ([`VerticesSource`]), the conversion capability that produces it
//! ([`IntoVerticesSource`]), the multi-source iteration capability that turns
//! a heterogeneous tuple of streams into an ordered sequence
//! ([`MultiVerticesSource`]), the vertex-format descriptors
//! ([`format::AttributeFormat`]), and the validator that enforces the
//! cross-source length invariants before submission
//! ([`validate::validate_sources`]).

pub mod format;
pub mod multi;
pub mod source;
pub mod validate;

pub use format::Attribute;
pub use format::AttributeFormat;
pub use format::AttributeType;
pub use format::Vertex;
pub use format::VertexFormat;
pub use format::VertexFormatBuilder;
pub use multi::MultiVerticesSource;
pub use source::EmptyInstanceAttributes;
pub use source::EmptyVertexAttributes;
pub use source::IntoVerticesSource;
pub use source::PerInstance;
pub use source::VertexBufferAny;
pub use source::VertexBufferAnySlice;
pub use source::VerticesSource;
pub use validate::DrawCounts;
pub use validate::DrawValidationError;
pub use validate::validate_sources;
