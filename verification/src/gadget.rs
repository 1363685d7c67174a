use vstd::prelude::*;

use crate::context::{Context, Node};
use crate::program_node::{handle_wf, ProgramNode};
use crate::BuildFault;

verus! {

/// The binary-decomposition gadget: asks for a field value to be decomposed
/// into `n_bits` unsigned bits. Its output arity equals `n_bits`.
#[derive(Clone, Copy, PartialEq, Eq, Structural, Debug)]
pub struct ToUInt {
    pub n_bits: usize,
}

/// Two to the `n`-th power.
pub open spec fn pow2n(n: nat) -> nat
    decreases n,
{
    if n == 0 {
        1
    } else {
        2 * pow2n((n - 1) as nat)
    }
}

pub(crate) proof fn lemma_pow2n_add(a: nat, b: nat)
    ensures
        pow2n(a + b) == pow2n(a) * pow2n(b),
    decreases b,
{
    if b == 0 {
        assert(pow2n(a + 0) == pow2n(a) * 1) by (nonlinear_arith)
            requires
                pow2n(a + 0) == pow2n(a),
        ;
    } else {
        lemma_pow2n_add(a, (b - 1) as nat);
        assert(pow2n(a + b) == 2 * pow2n((a + b - 1) as nat));
        assert(pow2n((a + b - 1) as nat) == pow2n(a) * pow2n((b - 1) as nat));
        assert(pow2n(b) == 2 * pow2n((b - 1) as nat));
        assert(2 * (pow2n(a) * pow2n((b - 1) as nat)) == pow2n(a) * (2 * pow2n(
            (b - 1) as nat,
        ))) by (nonlinear_arith);
        assert(pow2n(a + b) == pow2n(a) * pow2n(b));
    }
}

pub(crate) proof fn lemma_pow2n_mono(a: nat, b: nat)
    requires
        a <= b,
    ensures
        pow2n(a) <= pow2n(b),
        pow2n(a) >= 1,
    decreases b,
{
    if a < b {
        lemma_pow2n_mono(a, (b - 1) as nat);
    } else if a > 0 {
        lemma_pow2n_mono((a - 1) as nat, (b - 1) as nat);
    }
}

/// The eight nodes inserted for bit `i` of a decomposition whose subgraph
/// starts at index `base`: the bit itself (a hidden input filled in by the
/// prover), the constraint `bit * (bit - 1) == 0` pinning it to binary, and
/// the running recombination `acc = acc + bit * 2^i`.
pub open spec fn bit_block(base: int, i: int) -> Seq<Node> {
    seq![
        Node::Input,
        Node::Constant(1),
        Node::Sub((base + 1 + 8 * i) as usize, (base + 2 + 8 * i) as usize),
        Node::Mul((base + 1 + 8 * i) as usize, (base + 3 + 8 * i) as usize),
        Node::Constraint((base + 4 + 8 * i) as usize, 0),
        Node::Constant(pow2n(i as nat) as u128),
        Node::Mul((base + 1 + 8 * i) as usize, (base + 6 + 8 * i) as usize),
        Node::Add((base + 8 * i) as usize, (base + 7 + 8 * i) as usize),
    ]
}

/// The zero seed of the recombination followed by the first `k` bit blocks.
pub open spec fn decomposition_prefix(base: int, k: int) -> Seq<Node>
    decreases k,
{
    if k <= 0 {
        seq![Node::Constant(0)]
    } else {
        decomposition_prefix(base, k - 1) + bit_block(base, k - 1)
    }
}

/// The whole subgraph inserted for an `n`-bit decomposition of `input`,
/// starting at index `base`: the bit blocks, then a constraint that the
/// recombined sum equals the decomposed value. Whether the value actually
/// fits in `n` bits is not checked here; a value that does not makes the
/// downstream proof fail to validate.
pub open spec fn decomposition_subgraph(input: usize, base: int, n: int) -> Seq<Node> {
    decomposition_prefix(base, n) + seq![
        Node::Sub(input, (base + 8 * n) as usize),
        Node::Constraint((base + 8 * n + 1) as usize, 0),
    ]
}

/// The gadget invocation is structurally acceptable: one input node, a
/// supported width, and room left in the index space.
pub open spec fn gadget_ok(g: ToUInt, inputs: Seq<usize>, len: nat) -> bool {
    &&& inputs.len() == 1
    &&& g.n_bits <= 128
    &&& len + 8 * g.n_bits + 3 <= usize::MAX
}

/// The fault reported for a structurally unacceptable invocation.
pub open spec fn gadget_fault(g: ToUInt, inputs: Seq<usize>) -> BuildFault {
    if inputs.len() != 1 {
        BuildFault::MalformedGadgetShape
    } else if g.n_bits > 128 {
        BuildFault::UnsupportedGadgetWidth
    } else {
        BuildFault::GraphTooLarge
    }
}

/// Inserts the gadget's verified subgraph over the given input nodes and
/// returns the `n_bits` new bit nodes, in order from least significant. The
/// inserted structure is exactly [`decomposition_subgraph`]; preserving it
/// is what keeps the deferred soundness check possible downstream.
pub fn invoke_gadget(g: &ToUInt, inputs: &Vec<usize>, ctx: &mut Context) -> (r: Result<
    Vec<usize>,
    BuildFault,
>)
    requires
        old(ctx).wf(),
        handle_wf(inputs@, old(ctx).nodes().len()),
    ensures
        final(ctx).wf(),
        final(ctx).scheme() == old(ctx).scheme(),
        match r {
            Ok(bits) => {
                &&& gadget_ok(*g, inputs@, old(ctx).nodes().len())
                &&& final(ctx).nodes() == old(ctx).nodes() + decomposition_subgraph(
                    inputs@[0],
                    old(ctx).nodes().len() as int,
                    g.n_bits as int,
                )
                &&& final(ctx).nodes().len() == old(ctx).nodes().len() + 8 * g.n_bits + 3
                &&& bits@.len() == g.n_bits
                &&& forall|k: int|
                    0 <= k < g.n_bits ==> bits@[k] == old(ctx).nodes().len() + 1 + 8 * k
                &&& forall|k: int|
                    0 <= k < g.n_bits ==> final(ctx).nodes()[(#[trigger] bits@[k]) as int]
                        == Node::Input
            },
            Err(f) => {
                &&& !gadget_ok(*g, inputs@, old(ctx).nodes().len())
                &&& f == gadget_fault(*g, inputs@)
                &&& final(ctx).nodes() == old(ctx).nodes()
            },
        },
{
    if inputs.len() != 1 {
        return Err(BuildFault::MalformedGadgetShape);
    }
    if g.n_bits > 128 {
        return Err(BuildFault::UnsupportedGadgetWidth);
    }
    let n = g.n_bits;
    let base = ctx.len();
    if base > usize::MAX - (8 * n + 3) {
        return Err(BuildFault::GraphTooLarge);
    }
    let mut bits: Vec<usize> = Vec::new();
    let _ = ctx.add_constant(0);
    proof {
        assert(ctx.nodes() =~= old(ctx).nodes() + decomposition_prefix(base as int, 0));
    }
    let mut pw: u128 = 1;
    proof {
        assert(pow2n(64) == 0x1_0000_0000_0000_0000nat) by {
            reveal_with_fuel(pow2n, 65);
        }
        assert(pow2n(63) == 0x8000_0000_0000_0000nat) by {
            reveal_with_fuel(pow2n, 64);
        }
        lemma_pow2n_add(64, 63);
        assert(pow2n(127) == 0x8000_0000_0000_0000_0000_0000_0000_0000nat);
    }
    for i in 0..n
        invariant
            ctx.wf(),
            ctx.scheme() == old(ctx).scheme(),
            n == g.n_bits,
            n <= 128,
            base == old(ctx).nodes().len(),
            base + 8 * n + 3 <= usize::MAX,
            ctx.nodes() == old(ctx).nodes() + decomposition_prefix(base as int, i as int),
            ctx.nodes().len() == base + 1 + 8 * i,
            bits@.len() == i,
            forall|k: int| 0 <= k < i ==> bits@[k] == base + 1 + 8 * k,
            forall|k: int|
                0 <= k < i ==> ctx.nodes()[(#[trigger] bits@[k]) as int] == Node::Input,
            i < n ==> pw as nat == pow2n(i as nat),
            pow2n(127) == 0x8000_0000_0000_0000_0000_0000_0000_0000nat,
    {
        let b = ctx.add_input();
        let c1 = ctx.add_constant(1);
        let s = ctx.add_subtraction(b, c1);
        let mbin = ctx.add_multiplication(b, s);
        let _ = ctx.add_constraint(mbin, 0);
        let p = ctx.add_constant(pw);
        let t = ctx.add_multiplication(b, p);
        let prev = base + 8 * i;
        let _ = ctx.add_addition(prev, t);
        bits.push(b);
        proof {
            assert(decomposition_prefix(base as int, i + 1) == decomposition_prefix(
                base as int,
                i as int,
            ) + bit_block(base as int, i as int));
            assert(ctx.nodes() =~= old(ctx).nodes() + decomposition_prefix(base as int, i + 1));
        }
        if i + 1 < n {
            proof {
                lemma_pow2n_mono((i + 1) as nat, 127nat);
                assert(pow2n((i + 1) as nat) == 2 * pow2n(i as nat));
            }
            pw = pw * 2;
        }
    }
    let acc_last = base + 8 * n;
    let d = ctx.add_subtraction(inputs[0], acc_last);
    let _ = ctx.add_constraint(d, 0);
    proof {
        assert(ctx.nodes() =~= old(ctx).nodes() + decomposition_subgraph(
            inputs@[0],
            base as int,
            n as int,
        ));
    }
    Ok(bits)
}

impl ProgramNode {
    /// Decomposes this handle's value into `n_bits` unsigned bits via the
    /// binary-decomposition gadget, returning one handle per bit, least
    /// significant first. A value too large for `n_bits` bits still builds
    /// successfully; the proof fails to validate later.
    pub fn to_unsigned(&self, n_bits: usize, ctx: &mut Context) -> (r: Result<
        Vec<ProgramNode>,
        BuildFault,
    >)
        requires
            old(ctx).wf(),
            handle_wf(self.ids@, old(ctx).nodes().len()),
        ensures
            final(ctx).wf(),
            final(ctx).scheme() == old(ctx).scheme(),
            match r {
                Ok(hs) => {
                    &&& gadget_ok(
                        ToUInt { n_bits },
                        self.ids@,
                        old(ctx).nodes().len(),
                    )
                    &&& final(ctx).nodes() == old(ctx).nodes() + decomposition_subgraph(
                        self.ids@[0],
                        old(ctx).nodes().len() as int,
                        n_bits as int,
                    )
                    &&& hs@.len() == n_bits
                    &&& forall|k: int|
                        0 <= k < n_bits ==> (#[trigger] hs@[k]).ids@ == seq![
                            (old(ctx).nodes().len() + 1 + 8 * k) as usize,
                        ]
                    &&& forall|k: int|
                        0 <= k < n_bits ==> (#[trigger] hs@[k]).is_single(
                            final(ctx).nodes().len(),
                        )
                },
                Err(f) => {
                    &&& !gadget_ok(ToUInt { n_bits }, self.ids@, old(ctx).nodes().len())
                    &&& f == gadget_fault(ToUInt { n_bits }, self.ids@)
                    &&& final(ctx).nodes() == old(ctx).nodes()
                },
            },
    {
        let g = ToUInt { n_bits };
        match invoke_gadget(&g, &self.ids, ctx) {
            Err(f) => Err(f),
            Ok(bits) => {
                let ghost base = old(ctx).nodes().len();
                let m = bits.len();
                let mut hs: Vec<ProgramNode> = Vec::new();
                for k in 0..m
                    invariant
                        m == bits@.len(),
                        m == n_bits,
                        hs@.len() == k,
                        forall|j: int|
                            0 <= j < k ==> (#[trigger] hs@[j]).ids@ == seq![bits@[j]],
                        ctx.wf(),
                        ctx.scheme() == old(ctx).scheme(),
                        ctx.nodes() == old(ctx).nodes() + decomposition_subgraph(
                            self.ids@[0],
                            base as int,
                            n_bits as int,
                        ),
                        ctx.nodes().len() == base + 8 * n_bits + 3,
                        gadget_ok(ToUInt { n_bits }, self.ids@, base),
                        forall|j: int| 0 <= j < m ==> bits@[j] == base + 1 + 8 * j,
                {
                    hs.push(ProgramNode::single(bits[k]));
                }
                proof {
                    assert forall|k: int| 0 <= k < n_bits implies (#[trigger] hs@[k]).ids@
                        == seq![(base + 1 + 8 * k) as usize] by {
                        assert(hs@[k].ids@ == seq![bits@[k]]);
                        assert(bits@[k] == base + 1 + 8 * k);
                    }
                    assert forall|k: int| 0 <= k < n_bits implies (#[trigger] hs@[k]).is_single(
                        ctx.nodes().len(),
                    ) by {
                        assert(hs@[k].ids@ == seq![bits@[k]]);
                        assert(bits@[k] < base + 8 * n_bits + 3);
                    }
                }
                Ok(hs)
            },
        }
    }
}

} // verus!
