//! Tests for the draw-time validator.

use vertex_sources::DrawValidationError;
use vertex_sources::EmptyInstanceAttributes;
use vertex_sources::EmptyVertexAttributes;
use vertex_sources::IntoVerticesSource;
use vertex_sources::MultiVerticesSource;
use vertex_sources::VertexBufferAny;
use vertex_sources::VerticesSource;
use vertex_sources::validate_sources;

#[test]
fn equal_vertex_lengths_pass_without_indices() {
    let a = VertexBufferAny::new(1, 10);
    let b = VertexBufferAny::new(2, 10);
    let c = VertexBufferAny::new(3, 10);
    let sources = (a, b, c).iter();
    let counts = validate_sources(&sources, true).unwrap();
    assert_eq!(counts.vertex_count, Some(10));
    assert_eq!(counts.instance_count, None);
}

#[test]
fn unequal_vertex_lengths_fail_without_indices() {
    let a = VertexBufferAny::new(1, 10);
    let b = VertexBufferAny::new(2, 12);
    let c = VertexBufferAny::new(3, 10);
    let sources = (a, b, c).iter();
    let err = validate_sources(&sources, true).unwrap_err();
    assert_eq!(
        err,
        DrawValidationError::VerticesSourcesLengthMismatch { expected: 10, found: 12 }
    );
}

#[test]
fn unequal_vertex_lengths_pass_with_indices() {
    let a = VertexBufferAny::new(1, 10);
    let b = VertexBufferAny::new(2, 12);
    let sources = (a, b).iter();
    let counts = validate_sources(&sources, false).unwrap();
    assert_eq!(counts.vertex_count, Some(10));
}

#[test]
fn equal_instance_counts_pass_regardless_of_vertex_lengths() {
    let a = VertexBufferAny::new(1, 10);
    let b = VertexBufferAny::new(2, 12);
    let i1 = VertexBufferAny::new(3, 5).per_instance();
    let i2 = VertexBufferAny::new(4, 5).per_instance();
    let sources = (a, b, i1, i2).iter();
    let counts = validate_sources(&sources, false).unwrap();
    assert_eq!(counts.instance_count, Some(5));
}

#[test]
fn unequal_instance_counts_fail() {
    let i1 = VertexBufferAny::new(3, 5).per_instance();
    let i2 = VertexBufferAny::new(4, 7).per_instance();
    let sources = (i1, i2).iter();
    let err = validate_sources(&sources, false).unwrap_err();
    assert_eq!(
        err,
        DrawValidationError::InstancesCountMismatch { expected: 5, found: 7 }
    );
}

#[test]
fn lone_marker_passes_and_supplies_vertex_count() {
    let sources = EmptyVertexAttributes { len: 12 }.iter();
    let counts = validate_sources(&sources, true).unwrap();
    assert_eq!(counts.vertex_count, Some(12));
    assert_eq!(counts.instance_count, None);
}

#[test]
fn instance_marker_counts_as_instance_source() {
    let buf = VertexBufferAny::new(1, 30);
    let sources = (buf, EmptyInstanceAttributes { len: 36 }).iter();
    let counts = validate_sources(&sources, true).unwrap();
    assert_eq!(counts.vertex_count, Some(30));
    assert_eq!(counts.instance_count, Some(36));
}

#[test]
fn marker_conflicting_with_buffer_fails() {
    let buf = VertexBufferAny::new(1, 30);
    let sources = (buf, EmptyVertexAttributes { len: 31 }).iter();
    let err = validate_sources(&sources, true).unwrap_err();
    assert_eq!(
        err,
        DrawValidationError::VerticesSourcesLengthMismatch { expected: 30, found: 31 }
    );
}

#[test]
fn instance_marker_conflicting_with_instance_buffer_fails() {
    let i1 = VertexBufferAny::new(3, 8).per_instance();
    let sources = (i1, EmptyInstanceAttributes { len: 6 }).iter();
    let err = validate_sources(&sources, false).unwrap_err();
    assert_eq!(
        err,
        DrawValidationError::InstancesCountMismatch { expected: 8, found: 6 }
    );
}

#[test]
fn no_sources_pass_vacuously() {
    let sources: Vec<VerticesSource> = Vec::new();
    let counts = validate_sources(&sources, true).unwrap();
    assert_eq!(counts.vertex_count, None);
    assert_eq!(counts.instance_count, None);
}

#[test]
fn single_source_never_mismatches() {
    let buf = VertexBufferAny::new(1, 77);
    let sources = buf.iter();
    let counts = validate_sources(&sources, true).unwrap();
    assert_eq!(counts.vertex_count, Some(77));
}

#[test]
fn vertex_mismatch_reported_before_instance_mismatch() {
    let a = VertexBufferAny::new(1, 10);
    let b = VertexBufferAny::new(2, 11);
    let i1 = VertexBufferAny::new(3, 5).per_instance();
    let i2 = VertexBufferAny::new(4, 6).per_instance();
    let sources = (a, b, i1, i2).iter();
    let err = validate_sources(&sources, true).unwrap_err();
    assert_eq!(
        err,
        DrawValidationError::VerticesSourcesLengthMismatch { expected: 10, found: 11 }
    );
}

#[test]
fn slices_validate_by_their_own_length() {
    let buf = VertexBufferAny::new(1, 100);
    let s1 = buf.slice(0, 20).unwrap();
    let s2 = buf.slice(40, 60).unwrap();
    let sources = (s1, s2).iter();
    let counts = validate_sources(&sources, true).unwrap();
    assert_eq!(counts.vertex_count, Some(20));
}

#[test]
fn retagged_source_no_longer_checked_as_vertex_source() {
    let a = VertexBufferAny::new(1, 10);
    let b = VertexBufferAny::new(2, 25);
    let retagged = b.slice(0, 25).unwrap().per_instance();
    let sources = (a, retagged).iter();
    let counts = validate_sources(&sources, true).unwrap();
    assert_eq!(counts.vertex_count, Some(10));
    assert_eq!(counts.instance_count, Some(25));
}

#[test]
fn sources_are_not_mutated_by_validation() {
    let a = VertexBufferAny::new(1, 10);
    let b = VertexBufferAny::new(2, 12);
    let sources = (a, b).iter();
    let before = sources.clone();
    let _ = validate_sources(&sources, true);
    assert_eq!(sources, before);
}
