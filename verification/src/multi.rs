//! The multi-source iteration capability: turning a single convertible source
//! or an ordered tuple of up to seven heterogeneous convertible sources into
//! one ordered sequence of descriptors, left to right.
//!
//! The arities build on each other: each tuple converts its first element and
//! prepends it to the sequence of the remaining tuple, so a longer arity is a
//! chain of single-element conversions.

use vstd::prelude::*;

use crate::source::IntoVerticesSource;
use crate::source::VerticesSource;

verus! {

/// Objects that describe multiple vertex sources.
///
/// The produced sequence is `sources_spec`: one descriptor per input element,
/// in the inputs' left-to-right order.
pub trait MultiVerticesSource: Sized {
    /// The ordered sequence of descriptors this value yields.
    spec fn sources_spec(self) -> Seq<VerticesSource>;

    /// Enumerates the `VerticesSource`s, in order.
    fn iter(self) -> (r: Vec<VerticesSource>)
        ensures
            r@ == self.sources_spec(),
    ;
}

/// Moves every descriptor of `src` to the end of `dst`, keeping the order.
fn append_sources(dst: &mut Vec<VerticesSource>, src: Vec<VerticesSource>)
    ensures
        final(dst)@ == old(dst)@ + src@,
{
    let ghost dst0 = dst@;
    let mut i: usize = 0;
    while i < src.len()
        invariant
            i <= src.len(),
            dst@ == dst0 + src@.take(i as int),
        decreases src.len() - i,
    {
        dst.push(src[i]);
        i = i + 1;
        proof {
            assert(src@.take(i as int) =~= src@.take(i - 1).push(src@[i - 1]));
            assert(dst@ =~= dst0 + src@.take(i as int));
        }
    }
    proof {
        assert(src@.take(src@.len() as int) =~= src@);
    }
}

impl<T: IntoVerticesSource> MultiVerticesSource for T {
    open spec fn sources_spec(self) -> Seq<VerticesSource> {
        seq![self.vertices_source_spec()]
    }

    fn iter(self) -> (r: Vec<VerticesSource>) {
        let mut r: Vec<VerticesSource> = Vec::new();
        r.push(self.into_vertices_source());
        proof {
            assert(r@ =~= self.sources_spec());
        }
        r
    }
}

impl<A: IntoVerticesSource> MultiVerticesSource for (A,) {
    open spec fn sources_spec(self) -> Seq<VerticesSource> {
        seq![self.0.vertices_source_spec()]
    }

    fn iter(self) -> (r: Vec<VerticesSource>) {
        let mut r: Vec<VerticesSource> = Vec::new();
        r.push(self.0.into_vertices_source());
        proof {
            assert(r@ =~= self.sources_spec());
        }
        r
    }
}

impl<A: IntoVerticesSource, B: IntoVerticesSource> MultiVerticesSource for (A, B) {
    open spec fn sources_spec(self) -> Seq<VerticesSource> {
        seq![self.0.vertices_source_spec()] + (self.1,).sources_spec()
    }

    fn iter(self) -> (r: Vec<VerticesSource>) {
        let (a, b) = self;
        let mut r: Vec<VerticesSource> = Vec::new();
        r.push(a.into_vertices_source());
        proof {
            assert(r@ =~= seq![a.vertices_source_spec()]);
        }
        append_sources(&mut r, (b,).iter());
        r
    }
}

impl<A: IntoVerticesSource, B: IntoVerticesSource, C: IntoVerticesSource> MultiVerticesSource for (
    A,
    B,
    C,
) {
    open spec fn sources_spec(self) -> Seq<VerticesSource> {
        seq![self.0.vertices_source_spec()] + (self.1, self.2).sources_spec()
    }

    fn iter(self) -> (r: Vec<VerticesSource>) {
        let (a, b, c) = self;
        let mut r: Vec<VerticesSource> = Vec::new();
        r.push(a.into_vertices_source());
        proof {
            assert(r@ =~= seq![a.vertices_source_spec()]);
        }
        append_sources(&mut r, (b, c).iter());
        r
    }
}

impl<
    A: IntoVerticesSource,
    B: IntoVerticesSource,
    C: IntoVerticesSource,
    D: IntoVerticesSource,
> MultiVerticesSource for (A, B, C, D) {
    open spec fn sources_spec(self) -> Seq<VerticesSource> {
        seq![self.0.vertices_source_spec()] + (self.1, self.2, self.3).sources_spec()
    }

    fn iter(self) -> (r: Vec<VerticesSource>) {
        let (a, b, c, d) = self;
        let mut r: Vec<VerticesSource> = Vec::new();
        r.push(a.into_vertices_source());
        proof {
            assert(r@ =~= seq![a.vertices_source_spec()]);
        }
        append_sources(&mut r, (b, c, d).iter());
        r
    }
}

impl<
    A: IntoVerticesSource,
    B: IntoVerticesSource,
    C: IntoVerticesSource,
    D: IntoVerticesSource,
    E: IntoVerticesSource,
> MultiVerticesSource for (A, B, C, D, E) {
    open spec fn sources_spec(self) -> Seq<VerticesSource> {
        seq![self.0.vertices_source_spec()] + (self.1, self.2, self.3, self.4).sources_spec()
    }

    fn iter(self) -> (r: Vec<VerticesSource>) {
        let (a, b, c, d, e) = self;
        let mut r: Vec<VerticesSource> = Vec::new();
        r.push(a.into_vertices_source());
        proof {
            assert(r@ =~= seq![a.vertices_source_spec()]);
        }
        append_sources(&mut r, (b, c, d, e).iter());
        r
    }
}

impl<
    A: IntoVerticesSource,
    B: IntoVerticesSource,
    C: IntoVerticesSource,
    D: IntoVerticesSource,
    E: IntoVerticesSource,
    F: IntoVerticesSource,
> MultiVerticesSource for (A, B, C, D, E, F) {
    open spec fn sources_spec(self) -> Seq<VerticesSource> {
        seq![self.0.vertices_source_spec()] + (
            self.1,
            self.2,
            self.3,
            self.4,
            self.5,
        ).sources_spec()
    }

    fn iter(self) -> (r: Vec<VerticesSource>) {
        let (a, b, c, d, e, f) = self;
        let mut r: Vec<VerticesSource> = Vec::new();
        r.push(a.into_vertices_source());
        proof {
            assert(r@ =~= seq![a.vertices_source_spec()]);
        }
        append_sources(&mut r, (b, c, d, e, f).iter());
        r
    }
}

impl<
    A: IntoVerticesSource,
    B: IntoVerticesSource,
    C: IntoVerticesSource,
    D: IntoVerticesSource,
    E: IntoVerticesSource,
    F: IntoVerticesSource,
    G: IntoVerticesSource,
> MultiVerticesSource for (A, B, C, D, E, F, G) {
    open spec fn sources_spec(self) -> Seq<VerticesSource> {
        seq![self.0.vertices_source_spec()] + (
            self.1,
            self.2,
            self.3,
            self.4,
            self.5,
            self.6,
        ).sources_spec()
    }

    fn iter(self) -> (r: Vec<VerticesSource>) {
        let (a, b, c, d, e, f, g) = self;
        let mut r: Vec<VerticesSource> = Vec::new();
        r.push(a.into_vertices_source());
        proof {
            assert(r@ =~= seq![a.vertices_source_spec()]);
        }
        append_sources(&mut r, (b, c, d, e, f, g).iter());
        r
    }
}

/// Every tuple of one through seven convertible sources yields a sequence
/// whose length equals the tuple's arity and whose element at each position
/// is the descriptor of the input at that position: one descriptor per input
/// element, in the inputs' left-to-right order.
pub proof fn lemma_tuple_arity_and_order<
    A: IntoVerticesSource,
    B: IntoVerticesSource,
    C: IntoVerticesSource,
    D: IntoVerticesSource,
    E: IntoVerticesSource,
    F: IntoVerticesSource,
    G: IntoVerticesSource,
>(a: A, b: B, c: C, d: D, e: E, f: F, g: G)
    ensures
        (a,).sources_spec() =~= seq![a.vertices_source_spec()],
        (a, b).sources_spec() =~= seq![a.vertices_source_spec(), b.vertices_source_spec()],
        (a, b, c).sources_spec() =~= seq![
            a.vertices_source_spec(),
            b.vertices_source_spec(),
            c.vertices_source_spec(),
        ],
        (a, b, c, d).sources_spec() =~= seq![
            a.vertices_source_spec(),
            b.vertices_source_spec(),
            c.vertices_source_spec(),
            d.vertices_source_spec(),
        ],
        (a, b, c, d, e).sources_spec() =~= seq![
            a.vertices_source_spec(),
            b.vertices_source_spec(),
            c.vertices_source_spec(),
            d.vertices_source_spec(),
            e.vertices_source_spec(),
        ],
        (a, b, c, d, e, f).sources_spec() =~= seq![
            a.vertices_source_spec(),
            b.vertices_source_spec(),
            c.vertices_source_spec(),
            d.vertices_source_spec(),
            e.vertices_source_spec(),
            f.vertices_source_spec(),
        ],
        (a, b, c, d, e, f, g).sources_spec() =~= seq![
            a.vertices_source_spec(),
            b.vertices_source_spec(),
            c.vertices_source_spec(),
            d.vertices_source_spec(),
            e.vertices_source_spec(),
            f.vertices_source_spec(),
            g.vertices_source_spec(),
        ],
{
}

} // verus!

