//! The uniform descriptor for one attribute stream of a draw call, and the
//! conversion capability that produces it from each concrete source kind.

use vstd::prelude::*;

verus! {

/// Handle to an uploaded vertex buffer, as this crate models it: an identity
/// and an element count. The memory itself is owned and managed elsewhere;
/// a draw call only borrows the buffer for its own duration.
#[derive(Clone, Copy, PartialEq, Eq, Structural, Debug)]
pub struct VertexBufferAny {
    /// Identity of the underlying uploaded buffer.
    pub id: u64,
    /// Number of elements the buffer holds.
    pub len: usize,
}

/// A bounded, non-owning view into a [`VertexBufferAny`]: `len` elements
/// starting at element `offset`. Built by [`VertexBufferAny::slice`], which
/// rejects out-of-range bounds, so a slice obtained from it is always within
/// its buffer.
#[derive(Clone, Copy, PartialEq, Eq, Structural, Debug)]
pub struct VertexBufferAnySlice {
    /// The buffer this slice views into.
    pub buffer: VertexBufferAny,
    /// Element offset of the start of the view.
    pub offset: usize,
    /// Number of elements in the view.
    pub len: usize,
}

impl VertexBufferAny {
    /// Builds a handle for an uploaded buffer of `len` elements.
    pub fn new(id: u64, len: usize) -> (r: VertexBufferAny)
        ensures
            r == (VertexBufferAny { id, len }),
    {
        VertexBufferAny { id, len }
    }

    /// Number of elements the buffer holds.
    pub fn element_count(&self) -> (r: usize)
        ensures
            r == self.len,
    {
        self.len
    }

    /// The view covering the whole buffer.
    pub open spec fn full_slice_spec(self) -> VertexBufferAnySlice {
        VertexBufferAnySlice { buffer: self, offset: 0, len: self.len }
    }

    /// Builds the sub-view holding the elements of `[start, end)`.
    ///
    /// Fails (returns `None`) when the bounds are reversed or reach past the
    /// buffer's element count; no source descriptor is ever produced from such
    /// bounds.
    pub fn slice(&self, start: usize, end: usize) -> (r: Option<VertexBufferAnySlice>)
        ensures
            r is Some <==> start <= end && end <= self.len,
            r is Some ==> r->Some_0 == (VertexBufferAnySlice {
                buffer: *self,
                offset: start,
                len: (end - start) as usize,
            }),
    {
        if start <= end && end <= self.len {
            Some(VertexBufferAnySlice { buffer: *self, offset: start, len: end - start })
        } else {
            None
        }
    }

    /// The view covering the whole buffer.
    pub fn full_slice(&self) -> (r: VertexBufferAnySlice)
        ensures
            r == self.full_slice_spec(),
    {
        VertexBufferAnySlice { buffer: *self, offset: 0, len: self.len }
    }

    /// Re-tags the whole buffer as a source of per-instance attributes.
    pub fn per_instance(&self) -> (r: PerInstance)
        ensures
            r == PerInstance(self.full_slice_spec()),
    {
        PerInstance(self.full_slice())
    }
}

impl VertexBufferAnySlice {
    /// True when the view lies within its buffer. Holds of every slice built
    /// by [`VertexBufferAny::slice`] or [`VertexBufferAny::full_slice`].
    pub open spec fn in_bounds(self) -> bool {
        self.offset + self.len <= self.buffer.len
    }

    /// Re-tags this view as a source of per-instance attributes.
    pub fn per_instance(self) -> (r: PerInstance)
        ensures
            r == PerInstance(self),
    {
        PerInstance(self)
    }
}

/// Describes the source to use for the vertices when drawing: the uniform,
/// immutable descriptor every concrete source kind converts into. It is valid
/// only for the duration of one draw call.
#[derive(Clone, Copy, PartialEq, Eq, Structural, Debug)]
pub enum VerticesSource {
    /// A buffer uploaded in the video memory.
    ///
    /// The second and third fields are the element offset and element count of
    /// the part of the buffer to use. The fourth tells whether the buffer
    /// steps per instance (`true`) or per vertex (`false`).
    VertexBuffer(VertexBufferAny, usize, usize, bool),

    /// A synthetic source contributing only a count: `len` vertices or
    /// instances for which no attribute data exists.
    Marker { len: usize, per_instance: bool },
}

impl VerticesSource {
    /// The element count this source contributes.
    pub open spec fn length(self) -> usize {
        match self {
            VerticesSource::VertexBuffer(_, _, len, _) => len,
            VerticesSource::Marker { len, .. } => len,
        }
    }

    /// True when this source steps per instance rather than per vertex.
    pub open spec fn is_per_instance(self) -> bool {
        match self {
            VerticesSource::VertexBuffer(_, _, _, per_instance) => per_instance,
            VerticesSource::Marker { per_instance, .. } => per_instance,
        }
    }
}

/// Objects that can be used as vertex sources: the conversion capability.
/// Converting is pure and total; the descriptor a value converts into is
/// `vertices_source_spec`, and `into_vertices_source` returns exactly it.
pub trait IntoVerticesSource: Sized {
    /// The descriptor this value converts into.
    spec fn vertices_source_spec(self) -> VerticesSource;

    /// Builds the `VerticesSource`.
    fn into_vertices_source(self) -> (r: VerticesSource)
        ensures
            r == self.vertices_source_spec(),
    ;
}

impl IntoVerticesSource for VerticesSource {
    open spec fn vertices_source_spec(self) -> VerticesSource {
        self
    }

    fn into_vertices_source(self) -> (r: VerticesSource) {
        self
    }
}

impl IntoVerticesSource for VertexBufferAny {
    /// A whole buffer: offset 0, the full element count, stepping per vertex.
    open spec fn vertices_source_spec(self) -> VerticesSource {
        VerticesSource::VertexBuffer(self, 0, self.len, false)
    }

    fn into_vertices_source(self) -> (r: VerticesSource) {
        VerticesSource::VertexBuffer(self, 0, self.len, false)
    }
}

impl IntoVerticesSource for VertexBufferAnySlice {
    /// A bounded view: its own offset and length, stepping per vertex.
    open spec fn vertices_source_spec(self) -> VerticesSource {
        VerticesSource::VertexBuffer(self.buffer, self.offset, self.len, false)
    }

    fn into_vertices_source(self) -> (r: VerticesSource) {
        VerticesSource::VertexBuffer(self.buffer, self.offset, self.len, false)
    }
}

/// Marker that can be passed instead of a buffer to indicate an empty list of
/// per-vertex attributes: `len` vertices with no attribute data.
#[derive(Clone, Copy, PartialEq, Eq, Structural, Debug)]
pub struct EmptyVertexAttributes {
    /// The vertex count to communicate.
    pub len: usize,
}

impl IntoVerticesSource for EmptyVertexAttributes {
    open spec fn vertices_source_spec(self) -> VerticesSource {
        VerticesSource::Marker { len: self.len, per_instance: false }
    }

    fn into_vertices_source(self) -> (r: VerticesSource) {
        VerticesSource::Marker { len: self.len, per_instance: false }
    }
}

/// Marker that can be passed instead of a buffer to indicate an empty list of
/// per-instance attributes: `len` instances with no attribute data.
#[derive(Clone, Copy, PartialEq, Eq, Structural, Debug)]
pub struct EmptyInstanceAttributes {
    /// The instance count to communicate.
    pub len: usize,
}

impl IntoVerticesSource for EmptyInstanceAttributes {
    open spec fn vertices_source_spec(self) -> VerticesSource {
        VerticesSource::Marker { len: self.len, per_instance: true }
    }

    fn into_vertices_source(self) -> (r: VerticesSource) {
        VerticesSource::Marker { len: self.len, per_instance: true }
    }
}

/// Marker that instructs the draw call that the wrapped buffer view is to be
/// used per instance.
///
/// It can only wrap a buffer view, which always converts to a per-vertex
/// buffer source, so re-tagging an already per-instance source or a marker is
/// unrepresentable rather than checked at run time.
#[derive(Clone, Copy, PartialEq, Eq, Structural, Debug)]
pub struct PerInstance(pub VertexBufferAnySlice);

impl IntoVerticesSource for PerInstance {
    /// The wrapped view's descriptor with the per-instance flag set: the same
    /// buffer, offset and length.
    open spec fn vertices_source_spec(self) -> VerticesSource {
        VerticesSource::VertexBuffer(self.0.buffer, self.0.offset, self.0.len, true)
    }

    fn into_vertices_source(self) -> (r: VerticesSource) {
        match self.0.into_vertices_source() {
            VerticesSource::VertexBuffer(buf, off, len, _) => {
                VerticesSource::VertexBuffer(buf, off, len, true)
            },
            VerticesSource::Marker { len, per_instance } => {
                VerticesSource::Marker { len, per_instance }
            },
        }
    }
}

/// Re-tagging a source as per-instance changes only its stepping: the
/// underlying buffer identity, offset and length are those of the wrapped
/// view, and a whole buffer of `len` elements re-tagged per instance yields
/// offset 0 and length `len`.
pub proof fn lemma_per_instance_retag(slice: VertexBufferAnySlice)
    ensures
        PerInstance(slice).vertices_source_spec() == (VerticesSource::VertexBuffer(
            slice.buffer,
            slice.offset,
            slice.len,
            true,
        )),
        PerInstance(slice.buffer.full_slice_spec()).vertices_source_spec()
            == (VerticesSource::VertexBuffer(slice.buffer, 0, slice.buffer.len, true)),
{
}

} // verus!
