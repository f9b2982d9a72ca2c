//! The weakly typed node of a concrete syntax tree.

use vstd::prelude::*;
use std::ops::Range;
use crate::sequence::join;
use crate::span::{span_valid, Span};
use vstd::string::StringSliceAdditionalSpecFns;

verus! {

/// A kind of node, which has a number.
pub trait NodeType: Copy {
    /// The number of the kind.
    spec fn spec_code(&self) -> usize;

    /// The number of the kind.
    fn code(&self) -> (r: usize)
        ensures
            r == self.spec_code(),
    ;
}

/// The basic unit of semantic analysis: a node with the number of its
/// kind, its children and the range of bytes that it covers.
#[derive(Debug, PartialEq, Eq)]
pub struct CSTNode {
    /// The number that the environment gave the node.
    pub id: usize,
    /// The number of the kind of the node.
    pub kind: usize,
    /// The children; a leaf has none.
    pub nodes: Vec<CSTNode>,
    /// The bytes that the node covers.
    pub range: Range<usize>,
}

/// The numbers of a node and of all nodes below it, the node first and
/// then its children in their order.
pub open spec fn spec_ids(node: CSTNode) -> Seq<usize>
    decreases node,
{
    seq![node.id] + join(spec_ids_each(node.nodes@))
}

/// The numbers of each node of a list with the nodes below it.
pub open spec fn spec_ids_each(nodes: Seq<CSTNode>) -> Seq<Seq<usize>>
    decreases nodes,
{
    Seq::new(
        nodes.len(),
        |i: int|
            if 0 <= i < nodes.len() {
                spec_ids(nodes[i])
            } else {
                arbitrary()
            },
    )
}

/// Whether a kind of the list has this number.
pub open spec fn kinds_contain<N: NodeType>(kinds: Seq<N>, kind: usize) -> bool {
    exists|i: int| 0 <= i < kinds.len() && (#[trigger] kinds[i]).spec_code() == kind
}

/// The children of a node that are of one of the kinds, in their order.
pub open spec fn spec_filter<N: NodeType>(nodes: Seq<CSTNode>, kinds: Seq<N>) -> Seq<CSTNode>
    decreases nodes.len(),
{
    if nodes.len() == 0 {
        Seq::empty()
    } else if kinds_contain(kinds, nodes.last().kind) {
        spec_filter(nodes.drop_last(), kinds).push(nodes.last())
    } else {
        spec_filter(nodes.drop_last(), kinds)
    }
}

impl CSTNode {
    /// A leaf with this number, of kind 0, that covers nothing.
    pub fn new(id: usize) -> (r: CSTNode)
        ensures
            r.id == id,
            r.kind == 0,
            r.nodes@.len() == 0,
            r.range == (Range { start: 0usize, end: 0usize }),
    {
        CSTNode { id, kind: 0, nodes: Vec::new(), range: Range { start: 0, end: 0 } }
    }

    /// The node with another kind.
    pub fn with_kind<N: NodeType>(self, kind: N) -> (r: CSTNode)
        ensures
            r == (CSTNode { kind: kind.spec_code(), ..self }),
    {
        let mut out = self;
        out.kind = kind.code();
        out
    }

    /// The node with other children.
    pub fn with_nodes(self, nodes: Vec<CSTNode>) -> (r: CSTNode)
        ensures
            r == (CSTNode { nodes, ..self }),
    {
        let mut out = self;
        out.nodes = nodes;
        out
    }

    /// The bytes that the node covers.
    pub fn get_range(&self) -> (r: Range<usize>)
        ensures
            r == self.range,
    {
        Range { start: self.range.start, end: self.range.end }
    }

    /// The node with another range.
    pub fn with_range(self, start: usize, end: usize) -> (r: CSTNode)
        ensures
            r == (CSTNode { range: Range { start, end }, ..self }),
    {
        let mut out = self;
        out.range = Range { start, end };
        out
    }

    /// The part of the input that the node covers. The range of the node
    /// has to lie in the input, between two character boundaries.
    pub fn view<'i>(&self, input: &'i str) -> (r: &'i str)
        requires
            span_valid(input, self.range.start as int, self.range.end as int),
        ensures
            r.spec_bytes() == input.spec_bytes().subrange(
                self.range.start as int,
                self.range.end as int,
            ),
    {
        match Span::new(input, self.range.start, self.range.end) {
            Some(span) => span.as_str(),
            None => input,
        }
    }

    /// The number of the node.
    pub fn get_id(&self) -> (r: usize)
        ensures
            r == self.id,
    {
        self.id
    }

    /// The numbers of the node and of all nodes below it.
    pub fn collect_ids(&self) -> (r: Vec<usize>)
        ensures
            r@ == spec_ids(*self),
        decreases self,
    {
        let mut ids: Vec<usize> = Vec::new();
        ids.push(self.id);
        let ghost parts = spec_ids_each(self.nodes@);
        let mut i: usize = 0;
        proof {
            assert(parts.take(0) =~= Seq::<Seq<usize>>::empty());
            assert(ids@ =~= seq![self.id] + join(parts.take(0)));
        }
        while i < self.nodes.len()
            invariant
                i <= self.nodes.len(),
                parts == spec_ids_each(self.nodes@),
                ids@ == seq![self.id] + join(parts.take(i as int)),
            decreases self.nodes.len() - i,
        {
            let mut more = self.nodes[i].collect_ids();
            ids.append(&mut more);
            proof {
                assert(parts.take(i + 1).drop_last() =~= parts.take(i as int));
                assert(parts.take(i + 1).last() == parts[i as int]);
                assert(ids@ =~= seq![self.id] + join(parts.take(i + 1)));
            }
            i = i + 1;
        }
        proof {
            assert(parts.take(i as int) =~= parts);
        }
        ids
    }

    /// Whether the node is of one of the given kinds.
    pub fn isa<N: NodeType>(&self, kind: &[N]) -> (r: bool)
        ensures
            r == kinds_contain(kind@, self.kind),
    {
        let mut i: usize = 0;
        while i < kind.len()
            invariant
                i <= kind.len(),
                forall|j: int| 0 <= j < i ==> (#[trigger] kind@[j]).spec_code() != self.kind,
            decreases kind.len() - i,
        {
            if self.kind == kind[i].code() {
                return true;
            }
            i = i + 1;
        }
        false
    }

    /// The first child, where the node itself is of one of the given
    /// kinds and has a child.
    pub fn find<N: NodeType>(&self, types: &[N]) -> (r: Option<&CSTNode>)
        ensures
            match r {
                Some(node) => kinds_contain(types@, self.kind) && self.nodes@.len() > 0 && *node
                    == self.nodes@[0],
                None => !kinds_contain(types@, self.kind) || self.nodes@.len() == 0,
            },
    {
        if self.nodes.len() > 0 && self.isa(types) {
            Some(&self.nodes[0])
        } else {
            None
        }
    }

    /// The children that are of one of the given kinds, in their order.
    pub fn filter<'s, N: NodeType>(&'s self, types: &[N]) -> (r: Vec<&'s CSTNode>)
        ensures
            r@.len() == spec_filter(self.nodes@, types@).len(),
            forall|i: int| 0 <= i < r@.len() ==> *(#[trigger] r@[i]) == spec_filter(self.nodes@, types@)[i],
    {
        let mut out: Vec<&CSTNode> = Vec::new();
        let mut i: usize = 0;
        proof {
            assert(self.nodes@.take(0) =~= Seq::<CSTNode>::empty());
        }
        while i < self.nodes.len()
            invariant
                i <= self.nodes.len(),
                out@.len() == spec_filter(self.nodes@.take(i as int), types@).len(),
                forall|j: int|
                    0 <= j < out@.len() ==> *(#[trigger] out@[j]) == spec_filter(
                        self.nodes@.take(i as int),
                        types@,
                    )[j],
            decreases self.nodes.len() - i,
        {
            proof {
                assert(self.nodes@.take(i + 1).drop_last() =~= self.nodes@.take(i as int));
                assert(self.nodes@.take(i + 1).last() == self.nodes@[i as int]);
            }
            if self.nodes[i].isa(types) {
                out.push(&self.nodes[i]);
            }
            i = i + 1;
        }
        proof {
            assert(self.nodes@.take(i as int) =~= self.nodes@);
        }
        out
    }
}

} // verus!
