//! Tests for source conversion and multi-source iteration.

use vertex_sources::EmptyInstanceAttributes;
use vertex_sources::EmptyVertexAttributes;
use vertex_sources::IntoVerticesSource;
use vertex_sources::MultiVerticesSource;
use vertex_sources::VertexBufferAny;
use vertex_sources::VerticesSource;

#[test]
fn full_buffer_conversion() {
    let buf = VertexBufferAny::new(7, 100);
    let src = buf.into_vertices_source();
    assert_eq!(
        src,
        VerticesSource::VertexBuffer(buf, 0, 100, false)
    );
}

#[test]
fn empty_vertex_marker_conversion() {
    let src = EmptyVertexAttributes { len: 12 }.into_vertices_source();
    assert_eq!(src, VerticesSource::Marker { len: 12, per_instance: false });
}

#[test]
fn empty_instance_marker_conversion() {
    let src = EmptyInstanceAttributes { len: 36 }.into_vertices_source();
    assert_eq!(src, VerticesSource::Marker { len: 36, per_instance: true });
}

#[test]
fn source_conversion_is_identity_on_sources() {
    let src = VerticesSource::Marker { len: 5, per_instance: false };
    assert_eq!(src.into_vertices_source(), src);
}

#[test]
fn slice_within_bounds() {
    let buf = VertexBufferAny::new(1, 100);
    let slice = buf.slice(6, 24).unwrap();
    assert_eq!(slice.buffer, buf);
    assert_eq!(slice.offset, 6);
    assert_eq!(slice.len, 18);
    let src = slice.into_vertices_source();
    assert_eq!(src, VerticesSource::VertexBuffer(buf, 6, 18, false));
}

#[test]
fn slice_at_full_extent() {
    let buf = VertexBufferAny::new(1, 100);
    let slice = buf.slice(0, 100).unwrap();
    assert_eq!(slice.offset, 0);
    assert_eq!(slice.len, 100);
}

#[test]
fn slice_may_be_empty() {
    let buf = VertexBufferAny::new(1, 100);
    let slice = buf.slice(40, 40).unwrap();
    assert_eq!(slice.len, 0);
}

#[test]
fn slice_past_end_fails() {
    let buf = VertexBufferAny::new(1, 100);
    assert!(buf.slice(0, 101).is_none());
    assert!(buf.slice(50, 150).is_none());
}

#[test]
fn slice_reversed_bounds_fails() {
    let buf = VertexBufferAny::new(1, 100);
    assert!(buf.slice(24, 6).is_none());
}

#[test]
fn per_instance_retags_full_buffer() {
    let buf = VertexBufferAny::new(9, 50);
    let src = buf.per_instance().into_vertices_source();
    assert_eq!(src, VerticesSource::VertexBuffer(buf, 0, 50, true));
}

#[test]
fn per_instance_retags_slice_and_keeps_buffer_identity() {
    let buf = VertexBufferAny::new(9, 50);
    let slice = buf.slice(10, 30).unwrap();
    let src = slice.per_instance().into_vertices_source();
    match src {
        VerticesSource::VertexBuffer(b, off, len, per_instance) => {
            assert_eq!(b.id, 9);
            assert_eq!(off, 10);
            assert_eq!(len, 20);
            assert!(per_instance);
        }
        _ => panic!("expected a buffer-backed source"),
    }
}

#[test]
fn single_value_iterates_as_one_source() {
    let buf = VertexBufferAny::new(2, 8);
    let seq = buf.iter();
    assert_eq!(seq.len(), 1);
    assert_eq!(seq[0], VerticesSource::VertexBuffer(buf, 0, 8, false));
}

#[test]
fn tuple_arity_one() {
    let buf = VertexBufferAny::new(2, 8);
    let seq = (buf,).iter();
    assert_eq!(seq.len(), 1);
    assert_eq!(seq[0], VerticesSource::VertexBuffer(buf, 0, 8, false));
}

#[test]
fn tuple_arity_two_keeps_order() {
    let a = VertexBufferAny::new(1, 10);
    let b = VertexBufferAny::new(2, 20);
    let seq = (a, b).iter();
    assert_eq!(seq.len(), 2);
    assert_eq!(seq[0], VerticesSource::VertexBuffer(a, 0, 10, false));
    assert_eq!(seq[1], VerticesSource::VertexBuffer(b, 0, 20, false));
}

#[test]
fn tuple_arity_three_heterogeneous() {
    let a = VertexBufferAny::new(1, 10);
    let b = a.slice(2, 6).unwrap();
    let c = EmptyInstanceAttributes { len: 4 };
    let seq = (a, b, c).iter();
    assert_eq!(seq.len(), 3);
    assert_eq!(seq[0], VerticesSource::VertexBuffer(a, 0, 10, false));
    assert_eq!(seq[1], VerticesSource::VertexBuffer(a, 2, 4, false));
    assert_eq!(seq[2], VerticesSource::Marker { len: 4, per_instance: true });
}

#[test]
fn tuple_arity_seven_keeps_order() {
    let b1 = VertexBufferAny::new(1, 10);
    let b2 = VertexBufferAny::new(2, 10);
    let b3 = VertexBufferAny::new(3, 10);
    let s4 = b1.slice(0, 5).unwrap();
    let m5 = EmptyVertexAttributes { len: 10 };
    let m6 = EmptyInstanceAttributes { len: 2 };
    let p7 = b2.per_instance();
    let seq = (b1, b2, b3, s4, m5, m6, p7).iter();
    assert_eq!(seq.len(), 7);
    assert_eq!(seq[0], VerticesSource::VertexBuffer(b1, 0, 10, false));
    assert_eq!(seq[1], VerticesSource::VertexBuffer(b2, 0, 10, false));
    assert_eq!(seq[2], VerticesSource::VertexBuffer(b3, 0, 10, false));
    assert_eq!(seq[3], VerticesSource::VertexBuffer(b1, 0, 5, false));
    assert_eq!(seq[4], VerticesSource::Marker { len: 10, per_instance: false });
    assert_eq!(seq[5], VerticesSource::Marker { len: 2, per_instance: true });
    assert_eq!(seq[6], VerticesSource::VertexBuffer(b2, 0, 10, true));
}

#[test]
fn tuple_arities_four_to_six() {
    let b = VertexBufferAny::new(1, 3);
    assert_eq!((b, b, b, b).iter().len(), 4);
    assert_eq!((b, b, b, b, b).iter().len(), 5);
    assert_eq!((b, b, b, b, b, b).iter().len(), 6);
}
