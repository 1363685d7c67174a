use vstd::prelude::*;

use crate::context::{Context, Node};

verus! {

/// A typed handle over one or more node indices inside the currently active
/// context. Handles are transient: they borrow indices, own nothing, and are
/// only meaningful while the context they were created against exists.
///
/// Every value type supported by the frontends occupies exactly one
/// underlying element, so the arithmetic operations below work on handles of
/// a single index; a tuple-typed result is a sequence of such handles.
#[derive(Debug)]
pub struct ProgramNode {
    pub ids: Vec<usize>,
}

/// All indices of the handle point into a graph of `n` nodes.
pub open spec fn handle_wf(ids: Seq<usize>, n: nat) -> bool {
    forall|k: int| 0 <= k < ids.len() ==> ids[k] < n
}

/// All handles of a sequence point into a graph of `n` nodes.
pub open spec fn handles_wf(hs: Seq<Seq<usize>>, n: nat) -> bool {
    forall|j: int| 0 <= j < hs.len() ==> handle_wf(#[trigger] hs[j], n)
}

/// The indices of a sequence of handles.
pub open spec fn handle_views(hs: Seq<ProgramNode>) -> Seq<Seq<usize>> {
    hs.map_values(|h: ProgramNode| h.ids@)
}

impl ProgramNode {
    /// A handle over a single node index.
    pub fn single(id: usize) -> (r: ProgramNode)
        ensures
            r.ids@ == seq![id],
    {
        let r = ProgramNode { ids: vec![id] };
        proof {
            assert(r.ids@ =~= seq![id]);
        }
        r
    }

    /// The handle denotes exactly one node of the `n`-node graph.
    pub open spec fn is_single(self, n: nat) -> bool {
        self.ids@.len() == 1 && self.ids@[0] < n
    }

    /// Lifted addition: appends one addition node to the active context and
    /// returns a handle to it. No arithmetic is performed.
    pub fn add(&self, rhs: &ProgramNode, ctx: &mut Context) -> (r: ProgramNode)
        requires
            old(ctx).wf(),
            old(ctx).nodes().len() < usize::MAX,
            self.is_single(old(ctx).nodes().len()),
            rhs.is_single(old(ctx).nodes().len()),
        ensures
            final(ctx).wf(),
            final(ctx).scheme() == old(ctx).scheme(),
            final(ctx).nodes() == old(ctx).nodes().push(
                Node::Add(self.ids@[0], rhs.ids@[0]),
            ),
            r.ids@ == seq![old(ctx).nodes().len() as usize],
            r.is_single(final(ctx).nodes().len()),
    {
        let o = ctx.add_addition(self.ids[0], rhs.ids[0]);
        ProgramNode::single(o)
    }

    /// Lifted multiplication: appends one multiplication node.
    pub fn mul(&self, rhs: &ProgramNode, ctx: &mut Context) -> (r: ProgramNode)
        requires
            old(ctx).wf(),
            old(ctx).nodes().len() < usize::MAX,
            self.is_single(old(ctx).nodes().len()),
            rhs.is_single(old(ctx).nodes().len()),
        ensures
            final(ctx).wf(),
            final(ctx).scheme() == old(ctx).scheme(),
            final(ctx).nodes() == old(ctx).nodes().push(
                Node::Mul(self.ids@[0], rhs.ids@[0]),
            ),
            r.ids@ == seq![old(ctx).nodes().len() as usize],
            r.is_single(final(ctx).nodes().len()),
    {
        let o = ctx.add_multiplication(self.ids[0], rhs.ids[0]);
        ProgramNode::single(o)
    }

    /// Lifted negation: appends one negation node.
    pub fn neg(&self, ctx: &mut Context) -> (r: ProgramNode)
        requires
            old(ctx).wf(),
            old(ctx).nodes().len() < usize::MAX,
            self.is_single(old(ctx).nodes().len()),
        ensures
            final(ctx).wf(),
            final(ctx).scheme() == old(ctx).scheme(),
            final(ctx).nodes() == old(ctx).nodes().push(Node::Neg(self.ids@[0])),
            r.ids@ == seq![old(ctx).nodes().len() as usize],
            r.is_single(final(ctx).nodes().len()),
    {
        let o = ctx.add_negate(self.ids[0]);
        ProgramNode::single(o)
    }

    /// Lifted equality constraint: appends a subtraction of the two handles
    /// and a constraint pinning the difference to zero, and returns a handle
    /// to the constraint node.
    pub fn constraint_eq(&self, rhs: &ProgramNode, ctx: &mut Context) -> (r: ProgramNode)
        requires
            old(ctx).wf(),
            old(ctx).nodes().len() + 2 <= usize::MAX,
            self.is_single(old(ctx).nodes().len()),
            rhs.is_single(old(ctx).nodes().len()),
        ensures
            final(ctx).wf(),
            final(ctx).scheme() == old(ctx).scheme(),
            final(ctx).nodes() == old(ctx).nodes().push(
                Node::Sub(self.ids@[0], rhs.ids@[0]),
            ).push(Node::Constraint((old(ctx).nodes().len()) as usize, 0)),
            r.ids@ == seq![(old(ctx).nodes().len() + 1) as usize],
            r.is_single(final(ctx).nodes().len()),
    {
        let s = ctx.add_subtraction(self.ids[0], rhs.ids[0]);
        let c = ctx.add_constraint(s, 0);
        ProgramNode::single(c)
    }

    /// Marks every element of this handle as a program output, in order:
    /// one output node per element.
    pub fn output(&self, ctx: &mut Context)
        requires
            old(ctx).wf(),
            old(ctx).nodes().len() + self.ids@.len() <= usize::MAX,
            handle_wf(self.ids@, old(ctx).nodes().len()),
        ensures
            final(ctx).wf(),
            final(ctx).scheme() == old(ctx).scheme(),
            final(ctx).nodes() == old(ctx).nodes() + output_nodes(self.ids@),
    {
        let n = self.ids.len();
        for k in 0..n
            invariant
                ctx.wf(),
                ctx.scheme() == old(ctx).scheme(),
                n == self.ids@.len(),
                old(ctx).nodes().len() + n <= usize::MAX,
                handle_wf(self.ids@, old(ctx).nodes().len()),
                ctx.nodes() == old(ctx).nodes() + output_nodes(self.ids@.take(k as int)),
        {
            proof {
                lemma_output_nodes_len(self.ids@.take(k as int));
            }
            ctx.add_output(self.ids[k]);
            proof {
                let t1 = self.ids@.take(k + 1);
                assert(t1.drop_last() =~= self.ids@.take(k as int));
                assert(t1.last() == self.ids@[k as int]);
                assert(ctx.nodes() =~= old(ctx).nodes() + output_nodes(t1));
            }
        }
        proof {
            assert(self.ids@.take(n as int) =~= self.ids@);
        }
    }
}

/// The output markers produced by marking each index of `ids`, in order.
pub open spec fn output_nodes(ids: Seq<usize>) -> Seq<Node>
    decreases ids.len(),
{
    if ids.len() == 0 {
        Seq::empty()
    } else {
        output_nodes(ids.drop_last()).push(Node::Output(ids.last()))
    }
}

/// Marking a sequence of indices appends exactly one output node per index.
pub proof fn lemma_output_nodes_len(ids: Seq<usize>)
    ensures
        output_nodes(ids).len() == ids.len(),
    decreases ids.len(),
{
    if ids.len() > 0 {
        lemma_output_nodes_len(ids.drop_last());
    }
}

} // verus!
