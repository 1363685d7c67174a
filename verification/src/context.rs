use vstd::prelude::*;

use crate::arena::Arena;

verus! {

/// The scheme a program graph is built for: the BFV homomorphic-encryption
/// scheme of the FHE frontend, or a zero-knowledge-proof program.
#[derive(Clone, Copy, PartialEq, Eq, Structural, Debug)]
pub enum SchemeType {
    Bfv,
    Zkp,
}

/// One operation of the program DAG: a tag, the operand node indices, and,
/// for constants and constraints, an embedded constant. Nodes are immutable
/// once created and are identified by their arena index.
#[derive(Clone, Copy, PartialEq, Eq, Structural, Debug)]
pub enum Node {
    Input,
    Constant(u128),
    Add(usize, usize),
    Mul(usize, usize),
    Neg(usize),
    Sub(usize, usize),
    Constraint(usize, u128),
    Output(usize),
}

/// A node is well formed at position `i` when all of its operands point to
/// strictly earlier nodes, so that the node list forms a DAG.
pub open spec fn node_wf(n: Node, i: int) -> bool {
    match n {
        Node::Input => true,
        Node::Constant(_) => true,
        Node::Add(a, b) => a < i && b < i,
        Node::Mul(a, b) => a < i && b < i,
        Node::Neg(a) => a < i,
        Node::Sub(a, b) => a < i && b < i,
        Node::Constraint(a, _) => a < i,
        Node::Output(a) => a < i,
    }
}

/// Every node's operands point backwards: the list is a DAG in evaluation order.
pub open spec fn graph_wf(nodes: Seq<Node>) -> bool {
    forall|i: int| 0 <= i < nodes.len() ==> node_wf(#[trigger] nodes[i], i)
}

/// The mutable, exclusively-owned graph builder for one compilation. It owns
/// the node list and the arena that issues node indices; exactly one context
/// can be built from a given arena because the arena moves into it, and the
/// arena only comes back out of `release`, reset to zero.
pub struct Context {
    arena: Arena,
    nodes: Vec<Node>,
    scheme: SchemeType,
}

impl Context {
    /// The ordered node list built so far.
    pub closed spec fn nodes(self) -> Seq<Node> {
        self.nodes@
    }

    /// The scheme tag this context was opened under.
    pub closed spec fn scheme(self) -> SchemeType {
        self.scheme
    }

    /// The arena index counter agrees with the node list, and the node list
    /// is a DAG.
    pub closed spec fn wf(self) -> bool {
        &&& self.arena.size() == self.nodes@.len()
        &&& graph_wf(self.nodes@)
    }

    /// Opens a context for one compilation. The arena must be fresh or
    /// properly reset, so node indices start at zero.
    pub fn new(arena: Arena, scheme: SchemeType) -> (ctx: Context)
        requires
            arena.size() == 0,
        ensures
            ctx.wf(),
            ctx.nodes() == Seq::<Node>::empty(),
            ctx.scheme() == scheme,
    {
        let ctx = Context { arena, nodes: Vec::new(), scheme };
        proof {
            assert(ctx.nodes@ =~= Seq::<Node>::empty());
        }
        ctx
    }

    /// Number of nodes appended so far.
    pub fn len(&self) -> (n: usize)
        ensures
            n == self.nodes().len(),
    {
        self.nodes.len()
    }

    /// The scheme tag, for callers that hold the context opaquely.
    pub fn scheme_type(&self) -> (s: SchemeType)
        ensures
            s == self.scheme(),
    {
        self.scheme
    }

    /// Appends `n`, which must be well formed at the current length, and
    /// returns its index. All `add_*` operations funnel through here: each
    /// appends exactly one node and performs no cryptographic computation.
    fn append(&mut self, n: Node) -> (i: usize)
        requires
            old(self).wf(),
            old(self).nodes().len() < usize::MAX,
            node_wf(n, old(self).nodes().len() as int),
        ensures
            final(self).wf(),
            final(self).scheme() == old(self).scheme(),
            final(self).nodes() == old(self).nodes().push(n),
            i == old(self).nodes().len(),
    {
        let i = self.arena.allocate();
        self.nodes.push(n);
        proof {
            assert forall|j: int| 0 <= j < self.nodes@.len() implies node_wf(
                #[trigger] self.nodes@[j],
                j,
            ) by {
                if j < old(self).nodes@.len() {
                    assert(node_wf(old(self).nodes@[j], j));
                }
            }
        }
        i
    }

    /// Appends an input node and returns its index.
    pub fn add_input(&mut self) -> (i: usize)
        requires
            old(self).wf(),
            old(self).nodes().len() < usize::MAX,
        ensures
            final(self).wf(),
            final(self).scheme() == old(self).scheme(),
            final(self).nodes() == old(self).nodes().push(Node::Input),
            i == old(self).nodes().len(),
    {
        self.append(Node::Input)
    }

    /// Appends a constant node carrying `value` and returns its index.
    pub fn add_constant(&mut self, value: u128) -> (i: usize)
        requires
            old(self).wf(),
            old(self).nodes().len() < usize::MAX,
        ensures
            final(self).wf(),
            final(self).scheme() == old(self).scheme(),
            final(self).nodes() == old(self).nodes().push(Node::Constant(value)),
            i == old(self).nodes().len(),
    {
        self.append(Node::Constant(value))
    }

    /// Appends an addition node over two existing nodes.
    pub fn add_addition(&mut self, a: usize, b: usize) -> (i: usize)
        requires
            old(self).wf(),
            old(self).nodes().len() < usize::MAX,
            a < old(self).nodes().len(),
            b < old(self).nodes().len(),
        ensures
            final(self).wf(),
            final(self).scheme() == old(self).scheme(),
            final(self).nodes() == old(self).nodes().push(Node::Add(a, b)),
            i == old(self).nodes().len(),
    {
        self.append(Node::Add(a, b))
    }

    /// Appends a multiplication node over two existing nodes.
    pub fn add_multiplication(&mut self, a: usize, b: usize) -> (i: usize)
        requires
            old(self).wf(),
            old(self).nodes().len() < usize::MAX,
            a < old(self).nodes().len(),
            b < old(self).nodes().len(),
        ensures
            final(self).wf(),
            final(self).scheme() == old(self).scheme(),
            final(self).nodes() == old(self).nodes().push(Node::Mul(a, b)),
            i == old(self).nodes().len(),
    {
        self.append(Node::Mul(a, b))
    }

    /// Appends a negation node over an existing node.
    pub fn add_negate(&mut self, a: usize) -> (i: usize)
        requires
            old(self).wf(),
            old(self).nodes().len() < usize::MAX,
            a < old(self).nodes().len(),
        ensures
            final(self).wf(),
            final(self).scheme() == old(self).scheme(),
            final(self).nodes() == old(self).nodes().push(Node::Neg(a)),
            i == old(self).nodes().len(),
    {
        self.append(Node::Neg(a))
    }

    /// Appends a subtraction node over two existing nodes.
    pub fn add_subtraction(&mut self, a: usize, b: usize) -> (i: usize)
        requires
            old(self).wf(),
            old(self).nodes().len() < usize::MAX,
            a < old(self).nodes().len(),
            b < old(self).nodes().len(),
        ensures
            final(self).wf(),
            final(self).scheme() == old(self).scheme(),
            final(self).nodes() == old(self).nodes().push(Node::Sub(a, b)),
            i == old(self).nodes().len(),
    {
        self.append(Node::Sub(a, b))
    }

    /// Appends a constraint node: downstream proof validation will require
    /// the value of node `a` to equal `expected`.
    pub fn add_constraint(&mut self, a: usize, expected: u128) -> (i: usize)
        requires
            old(self).wf(),
            old(self).nodes().len() < usize::MAX,
            a < old(self).nodes().len(),
        ensures
            final(self).wf(),
            final(self).scheme() == old(self).scheme(),
            final(self).nodes() == old(self).nodes().push(Node::Constraint(a, expected)),
            i == old(self).nodes().len(),
    {
        self.append(Node::Constraint(a, expected))
    }

    /// Appends an output marker for node `a`.
    pub fn add_output(&mut self, a: usize) -> (i: usize)
        requires
            old(self).wf(),
            old(self).nodes().len() < usize::MAX,
            a < old(self).nodes().len(),
        ensures
            final(self).wf(),
            final(self).scheme() == old(self).scheme(),
            final(self).nodes() == old(self).nodes().push(Node::Output(a)),
            i == old(self).nodes().len(),
    {
        self.append(Node::Output(a))
    }

    /// The single cleanup path of a compilation: closes the context, resets
    /// the arena to index zero, and hands both the arena and the node list
    /// back. Every exit of a compilation, successful or faulting, runs this
    /// before anything propagates to the caller.
    pub fn release(self) -> (r: (Arena, Vec<Node>))
        requires
            self.wf(),
        ensures
            r.0.size() == 0,
            r.1@ == self.nodes(),
            graph_wf(r.1@),
    {
        let Context { mut arena, nodes, scheme: _ } = self;
        arena.reset();
        (arena, nodes)
    }
}

} // verus!
