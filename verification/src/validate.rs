//! The draw-time validator: the pure precondition check a draw call runs over
//! its ordered sequence of source descriptors, immediately before submission.
//!
//! Two invariants are enforced. Under the no-index drawing mode every
//! per-vertex source must contribute the same element count; and whenever two
//! or more per-instance sources are present they must agree on the instance
//! count. A marker satisfies either requirement through its declared count
//! alone, without any backing buffer.

use vstd::prelude::*;

use crate::source::VerticesSource;

verus! {

/// The element counts of the sources of `s` whose per-instance flag equals
/// `per_instance`, in source order.
pub open spec fn lengths_with_stepping(s: Seq<VerticesSource>, per_instance: bool) -> Seq<usize>
    decreases s.len(),
{
    if s.len() == 0 {
        Seq::empty()
    } else {
        let rest = lengths_with_stepping(s.drop_last(), per_instance);
        if s.last().is_per_instance() == per_instance {
            rest.push(s.last().length())
        } else {
            rest
        }
    }
}

/// The element counts of the per-vertex sources of `s`, in source order.
pub open spec fn per_vertex_lengths(s: Seq<VerticesSource>) -> Seq<usize> {
    lengths_with_stepping(s, false)
}

/// The element counts of the per-instance sources of `s`, in source order.
pub open spec fn per_instance_lengths(s: Seq<VerticesSource>) -> Seq<usize> {
    lengths_with_stepping(s, true)
}

/// True when every element of `s` equals every other; vacuous for an empty
/// or single-element sequence.
pub open spec fn all_lengths_equal(s: Seq<usize>) -> bool {
    forall|i: int, j: int| 0 <= i < s.len() && 0 <= j < s.len() ==> s[i] == s[j]
}

/// True when `k` indexes the first element of `s` that differs from `s[0]`.
pub open spec fn is_first_conflict(s: Seq<usize>, k: int) -> bool {
    &&& 1 <= k < s.len()
    &&& s[k] != s[0]
    &&& forall|j: int| 1 <= j < k ==> #[trigger] s[j] == s[0]
}

/// A validation failure, carrying the two conflicting counts: the count of
/// the first source of the offending stepping, and the first count among
/// those sources that differs from it.
#[derive(Clone, Copy, PartialEq, Eq, Structural, Debug)]
pub enum DrawValidationError {
    /// Under the no-index drawing mode, two per-vertex sources disagree on
    /// their element count.
    VerticesSourcesLengthMismatch { expected: usize, found: usize },
    /// Two per-instance sources disagree on the instance count.
    InstancesCountMismatch { expected: usize, found: usize },
}

/// The counts a successful validation hands to the draw submission: the
/// vertex count implied by the per-vertex sources (the first one's count;
/// under the no-index mode they all agree on it) and the instance count the
/// per-instance sources agree on. `None` where no source of that stepping is
/// present.
#[derive(Clone, Copy, PartialEq, Eq, Debug)]
pub struct DrawCounts {
    /// Element count of the first per-vertex source, if any.
    pub vertex_count: Option<usize>,
    /// The common element count of the per-instance sources, if any.
    pub instance_count: Option<usize>,
}

/// The counts of a prefix of `s` are a prefix of the counts of `s`.
proof fn lemma_lengths_take_prefix(s: Seq<VerticesSource>, per_instance: bool, i: int)
    requires
        0 <= i <= s.len(),
    ensures
        lengths_with_stepping(s.take(i), per_instance).len() <= lengths_with_stepping(
            s,
            per_instance,
        ).len(),
        lengths_with_stepping(s.take(i), per_instance) == lengths_with_stepping(
            s,
            per_instance,
        ).take(lengths_with_stepping(s.take(i), per_instance).len() as int),
    decreases s.len() - i,
{
    let pre = lengths_with_stepping(s.take(i), per_instance);
    if i == s.len() {
        assert(s.take(i) =~= s);
        assert(pre =~= lengths_with_stepping(s, per_instance).take(pre.len() as int));
    } else {
        assert(s.take(i + 1).drop_last() =~= s.take(i));
        assert(s.take(i + 1).last() == s[i]);
        lemma_lengths_take_prefix(s, per_instance, i + 1);
        let next = lengths_with_stepping(s.take(i + 1), per_instance);
        let full = lengths_with_stepping(s, per_instance);
        assert(next == full.take(next.len() as int));
        if s[i].is_per_instance() == per_instance {
            assert(next == pre.push(s[i].length()));
            assert(pre =~= next.take(pre.len() as int));
            assert(pre =~= full.take(pre.len() as int));
        } else {
            assert(next == pre);
        }
    }
}

/// Scans the sources whose stepping equals `per_instance` and checks that
/// they agree on one element count.
///
/// Returns `Ok(None)` when no such source is present, `Ok(Some(c))` when they
/// all contribute `c`, and `Err((expected, found))` when one disagrees, where
/// `expected` is the first such source's count and `found` the first count
/// that differs from it.
fn common_length(sources: &Vec<VerticesSource>, per_instance: bool) -> (r: Result<
    Option<usize>,
    (usize, usize),
>)
    ensures
        ({
            let lens = lengths_with_stepping(sources@, per_instance);
            match r {
                Ok(c) => {
                    &&& all_lengths_equal(lens)
                    &&& (c is Some <==> lens.len() > 0)
                    &&& (c is Some ==> c->Some_0 == lens[0])
                },
                Err((expected, found)) => {
                    &&& expected == lens[0]
                    &&& exists|k: int| is_first_conflict(lens, k) && found == lens[k]
                },
            }
        }),
{
    let mut common: Option<usize> = None;
    let mut i: usize = 0;
    while i < sources.len()
        invariant
            i <= sources.len(),
            ({
                let pre = lengths_with_stepping(sources@.take(i as int), per_instance);
                &&& (common is Some <==> pre.len() > 0)
                &&& (common is Some ==> common->Some_0 == pre[0])
                &&& all_lengths_equal(pre)
            }),
        decreases sources.len() - i,
    {
        let ghost pre = lengths_with_stepping(sources@.take(i as int), per_instance);
        let src = sources[i];
        let flagged = match src {
            VerticesSource::VertexBuffer(_, _, _, pi) => pi,
            VerticesSource::Marker { per_instance: pi, .. } => pi,
        };
        let len = match src {
            VerticesSource::VertexBuffer(_, _, l, _) => l,
            VerticesSource::Marker { len: l, .. } => l,
        };
        proof {
            assert(sources@.take(i + 1).drop_last() =~= sources@.take(i as int));
            assert(sources@.take(i + 1).last() == sources@[i as int]);
        }
        if flagged == per_instance {
            match common {
                None => {
                    common = Some(len);
                },
                Some(c) => {
                    if c != len {
                        proof {
                            lemma_lengths_take_prefix(sources@, per_instance, i + 1);
                            let lens = lengths_with_stepping(sources@, per_instance);
                            let next = lengths_with_stepping(
                                sources@.take(i + 1),
                                per_instance,
                            );
                            let p = pre.len() as int;
                            assert(next == pre.push(len));
                            assert(next == lens.take(next.len() as int));
                            assert(next.len() == p + 1);
                            assert(next.len() <= lens.len());
                            assert(forall|j: int|
                                0 <= j < next.len() ==> lens[j] == #[trigger] next[j]);
                            assert(next[p] == len);
                            assert(lens[p] == len);
                            assert(next[0] == pre[0]);
                            assert(lens[0] == c);
                            assert(forall|j: int|
                                1 <= j < p ==> (#[trigger] lens[j]) == next[j] && next[j]
                                    == pre[j] && pre[j] == pre[0]);
                            assert(is_first_conflict(lens, p));
                        }
                        return Err((c, len));
                    }
                },
            }
        }
        i = i + 1;
    }
    proof {
        assert(sources@.take(i as int) =~= sources@);
    }
    Ok(common)
}

/// Validates the ordered sequence of source descriptors of one draw call.
///
/// `no_indices` tells whether the index specification declares "no indices",
/// so that vertices are consumed sequentially: under that mode every
/// per-vertex source must contribute the same element count. Whenever two or
/// more per-instance sources are present they must agree on the instance
/// count, whatever the index specification. On success the implied vertex and
/// instance counts are handed back; on failure the error carries the two
/// conflicting counts. Validation reads the sources and mutates nothing.
pub fn validate_sources(sources: &Vec<VerticesSource>, no_indices: bool) -> (r: Result<
    DrawCounts,
    DrawValidationError,
>)
    ensures
        ({
            let pv = per_vertex_lengths(sources@);
            let pi = per_instance_lengths(sources@);
            &&& (r is Ok <==> (no_indices ==> all_lengths_equal(pv)) && all_lengths_equal(pi))
            &&& match r {
                Ok(c) => {
                    &&& c.vertex_count == (if pv.len() == 0 {
                        Option::<usize>::None
                    } else {
                        Option::<usize>::Some(pv[0])
                    })
                    &&& c.instance_count == (if pi.len() == 0 {
                        Option::<usize>::None
                    } else {
                        Option::<usize>::Some(pi[0])
                    })
                },
                Err(DrawValidationError::VerticesSourcesLengthMismatch { expected, found }) => {
                    &&& no_indices
                    &&& !all_lengths_equal(pv)
                    &&& expected == pv[0]
                    &&& exists|k: int| is_first_conflict(pv, k) && found == pv[k]
                },
                Err(DrawValidationError::InstancesCountMismatch { expected, found }) => {
                    &&& (no_indices ==> all_lengths_equal(pv))
                    &&& !all_lengths_equal(pi)
                    &&& expected == pi[0]
                    &&& exists|k: int| is_first_conflict(pi, k) && found == pi[k]
                },
            }
        }),
{
    let vertex_count: Option<usize> = match common_length(sources, false) {
        Ok(c) => c,
        Err((expected, found)) => {
            proof {
                let pv = per_vertex_lengths(sources@);
                let k = choose|k: int| is_first_conflict(pv, k) && found == pv[k];
                assert(pv[k] != pv[0]);
            }
            if no_indices {
                return Err(
                    DrawValidationError::VerticesSourcesLengthMismatch { expected, found },
                );
            }
            Some(expected)
        },
    };
    let instance_count: Option<usize> = match common_length(sources, true) {
        Ok(c) => c,
        Err((expected, found)) => {
            proof {
                let pi = per_instance_lengths(sources@);
                let k = choose|k: int| is_first_conflict(pi, k) && found == pi[k];
                assert(pi[k] != pi[0]);
            }
            return Err(DrawValidationError::InstancesCountMismatch { expected, found });
        },
    };
    Ok(DrawCounts { vertex_count, instance_count })
}

} // verus!
