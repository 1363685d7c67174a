use vstd::prelude::*;

use crate::arena::Arena;
use crate::context::{graph_wf, Context, Node, SchemeType};
use crate::params::{
    determine_params, params_views, NoiseEstimator, Params, ParamsView, PlainModulusConstraint,
    SecurityLevel,
};
use crate::program_node::{handle_views, handle_wf, handles_wf, output_nodes, ProgramNode};
use crate::signature::{create_signature, element_counts, spec_num_elements, CallSignature, TypeDesc};
use crate::{BuildFault, Error};

verus! {

/// The input nodes the glue creates before the user body runs: one per
/// argument, in declaration order.
pub open spec fn input_nodes(n: int) -> Seq<Node> {
    Seq::new(n as nat, |j: int| Node::Input)
}

/// The handles those input nodes are handed to the body as: argument `j`
/// wraps node `j`.
pub open spec fn glue_inputs(n: int) -> Seq<Seq<usize>> {
    Seq::new(n as nat, |j: int| seq![j as usize])
}

/// The output markers appended after the body returns: for each returned
/// handle, one output node per element, in declaration order.
pub open spec fn output_nodes_flat(hs: Seq<Seq<usize>>) -> Seq<Node>
    decreases hs.len(),
{
    if hs.len() == 0 {
        Seq::empty()
    } else {
        output_nodes_flat(hs.drop_last()) + output_nodes(hs.last())
    }
}

proof fn lemma_flat_take_succ(hs: Seq<Seq<usize>>, j: int)
    requires
        0 <= j < hs.len(),
    ensures
        output_nodes_flat(hs.take(j + 1)) == output_nodes_flat(hs.take(j)) + output_nodes(
            hs[j],
        ),
{
    let t1 = hs.take(j + 1);
    assert(t1.drop_last() =~= hs.take(j));
    assert(t1.last() == hs[j]);
}

proof fn lemma_flat_take_len(hs: Seq<Seq<usize>>, j: int)
    requires
        0 <= j <= hs.len(),
    ensures
        output_nodes_flat(hs.take(j)).len() <= output_nodes_flat(hs).len(),
    decreases hs.len() - j,
{
    if j == hs.len() {
        assert(hs.take(j) =~= hs);
    } else {
        lemma_flat_take_succ(hs, j);
        lemma_flat_take_len(hs, j + 1);
    }
}

/// A user-authored circuit, presented to the compiler as explicit
/// combinators: its expected scheme, its static shape, and its body, which
/// turns input handles into output handles by appending nodes to the active
/// context. The body's behaviour is fixed by `body_spec` as a function of
/// the nodes already present and the input handles; that determinism is
/// what makes repeated builds under parameter search reproducible.
pub trait CircuitFn {
    /// The scheme the circuit is written for.
    spec fn scheme_spec(&self) -> SchemeType;

    /// The argument types, in declaration order.
    spec fn arg_types(&self) -> Seq<TypeDesc>;

    /// The return types, in declaration order.
    spec fn ret_types(&self) -> Seq<TypeDesc>;

    /// What the body does: given the nodes already in the context and the
    /// input handles, the nodes afterwards and the returned handles, or the
    /// fault it raises.
    spec fn body_spec(&self, pre: Seq<Node>, inputs: Seq<Seq<usize>>) -> Result<
        (Seq<Node>, Seq<Seq<usize>>),
        BuildFault,
    >;

    /// The expected scheme.
    fn scheme(&self) -> (s: SchemeType)
        ensures
            s == self.scheme_spec(),
    ;

    /// The argument types.
    fn arg_types_exec(&self) -> (ts: Vec<TypeDesc>)
        ensures
            ts@ == self.arg_types(),
    ;

    /// The return types.
    fn ret_types_exec(&self) -> (ts: Vec<TypeDesc>)
        ensures
            ts@ == self.ret_types(),
    ;

    /// Runs the user body against the active context.
    fn body(&self, inputs: &Vec<ProgramNode>, ctx: &mut Context) -> (r: Result<
        Vec<ProgramNode>,
        BuildFault,
    >)
        requires
            old(ctx).wf(),
            old(ctx).scheme() == self.scheme_spec(),
            inputs@.len() == self.arg_types().len(),
            handles_wf(handle_views(inputs@), old(ctx).nodes().len()),
            forall|j: int|
                0 <= j < inputs@.len() ==> (#[trigger] inputs@[j]).ids@.len()
                    == spec_num_elements(self.arg_types()[j]),
        ensures
            final(ctx).wf(),
            final(ctx).scheme() == old(ctx).scheme(),
            old(ctx).nodes().is_prefix_of(final(ctx).nodes()),
            match r {
                Ok(outs) => {
                    &&& self.body_spec(old(ctx).nodes(), handle_views(inputs@)) == Ok::<
                        (Seq<Node>, Seq<Seq<usize>>),
                        BuildFault,
                    >((final(ctx).nodes(), handle_views(outs@)))
                    &&& outs@.len() == self.ret_types().len()
                    &&& handles_wf(handle_views(outs@), final(ctx).nodes().len())
                    &&& forall|j: int|
                        0 <= j < outs@.len() ==> (#[trigger] outs@[j]).ids@.len()
                            == spec_num_elements(self.ret_types()[j])
                    &&& final(ctx).nodes().len() + output_nodes_flat(handle_views(outs@)).len()
                        <= usize::MAX
                },
                Err(f) => self.body_spec(old(ctx).nodes(), handle_views(inputs@)) == Err::<
                    (Seq<Node>, Seq<Seq<usize>>),
                    BuildFault,
                >(f),
            },
    ;
}

/// The compiled graph together with its call signature: what the execution
/// engine receives, closed and with all outputs marked.
#[derive(Debug)]
pub struct Circuit {
    pub nodes: Vec<Node>,
    pub signature: CallSignature,
}

/// What one compilation produces under a given parameter set: the scheme
/// check, then the body run over fresh input nodes, then the output markers.
pub open spec fn compile_circuit_spec<C: CircuitFn>(c: C, params: ParamsView) -> Result<
    Seq<Node>,
    Error,
> {
    if params.scheme_type != c.scheme_spec() {
        Err(Error::IncorrectScheme)
    } else {
        match c.body_spec(
            input_nodes(c.arg_types().len() as int),
            glue_inputs(c.arg_types().len() as int),
        ) {
            Result::Err(f) => Err(Error::Fault(f)),
            Result::Ok(p) => Ok(p.0 + output_nodes_flat(p.1)),
        }
    }
}

/// One compilation: acquires a context over the arena, instantiates one
/// input node per argument, runs the user body, marks the declared outputs,
/// and releases the context through the single cleanup path — so the arena
/// comes back reset to zero on every exit, success, configuration error or
/// fault alike.
pub fn compile_circuit<C: CircuitFn>(c: &C, params: &Params, arena: Arena) -> (r: (
    Arena,
    Result<Circuit, Error>,
))
    requires
        arena.size() == 0,
    ensures
        r.0.size() == 0,
        match r.1 {
            Ok(circuit) => {
                &&& compile_circuit_spec(*c, params@) == Ok::<Seq<Node>, Error>(circuit.nodes@)
                &&& graph_wf(circuit.nodes@)
                &&& circuit.signature.arguments@ == c.arg_types()
                &&& circuit.signature.return_types@ == c.ret_types()
                &&& circuit.signature.num_ciphertexts@ == element_counts(c.ret_types())
            },
            Err(e) => compile_circuit_spec(*c, params@) == Err::<Seq<Node>, Error>(e),
        },
{
    let scheme = c.scheme();
    if params.scheme_type != scheme {
        return (arena, Err(Error::IncorrectScheme));
    }
    let mut ctx = Context::new(arena, scheme);
    let args = c.arg_types_exec();
    let nargs = args.len();
    let mut inputs: Vec<ProgramNode> = Vec::new();
    for j in 0..nargs
        invariant
            ctx.wf(),
            ctx.scheme() == scheme,
            nargs == c.arg_types().len(),
            ctx.nodes() == input_nodes(j as int),
            inputs@.len() == j,
            forall|t: int| 0 <= t < j ==> (#[trigger] inputs@[t]).ids@ == seq![t as usize],
    {
        let id = ctx.add_input();
        inputs.push(ProgramNode::single(id));
        proof {
            assert(ctx.nodes() =~= input_nodes(j + 1));
        }
    }
    proof {
        assert(handle_views(inputs@) =~= glue_inputs(nargs as int));
    }
    match c.body(&inputs, &mut ctx) {
        Err(f) => {
            let (arena, _nodes) = ctx.release();
            (arena, Err(Error::Fault(f)))
        },
        Ok(outs) => {
            let ghost mid = ctx.nodes();
            let ghost out_views = handle_views(outs@);
            let m = outs.len();
            for j in 0..m
                invariant
                    ctx.wf(),
                    ctx.scheme() == scheme,
                    m == outs@.len(),
                    out_views == handle_views(outs@),
                    mid.len() + output_nodes_flat(out_views).len() <= usize::MAX,
                    handles_wf(out_views, mid.len()),
                    ctx.nodes() == mid + output_nodes_flat(out_views.take(j as int)),
            {
                proof {
                    lemma_flat_take_succ(out_views, j as int);
                    lemma_flat_take_len(out_views, j + 1);
                    crate::program_node::lemma_output_nodes_len(out_views[j as int]);
                    assert(out_views[j as int] == outs@[j as int].ids@);
                }
                let h = &outs[j];
                h.output(&mut ctx);
                proof {
                    assert(ctx.nodes() =~= mid + output_nodes_flat(out_views.take(j + 1)));
                }
            }
            proof {
                assert(out_views.take(m as int) =~= out_views);
            }
            let rets = c.ret_types_exec();
            let signature = create_signature(args, rets);
            let (arena, nodes) = ctx.release();
            (arena, Ok(Circuit { nodes, signature }))
        },
    }
}

/// How the parameters of a compilation are chosen: searched for, or
/// supplied manually.
enum ParamsMode {
    Search,
    Manual(Params),
}

/// The compiler: wraps one user circuit with the configuration surface —
/// parameter mode, plaintext-modulus constraint, security level, noise
/// margin — and produces the compiled artifact.
pub struct Compiler<C: CircuitFn> {
    circuit: C,
    params_mode: ParamsMode,
    plain_modulus_constraint: Option<PlainModulusConstraint>,
    security_level: SecurityLevel,
    noise_margin: u32,
}

/// The result of a whole compilation, as a function of the compiler's
/// configuration, the candidate table, and the estimator.
pub open spec fn compile_result_spec<C: CircuitFn, E: NoiseEstimator>(
    c: C,
    manual: Option<ParamsView>,
    constraint: Option<PlainModulusConstraint>,
    level: SecurityLevel,
    margin: u32,
    candidates: Seq<ParamsView>,
    est: E,
) -> Result<(Seq<Node>, ParamsView), Error> {
    match manual {
        Some(pv) => match compile_circuit_spec(c, pv) {
            Result::Ok(nodes) => Ok((nodes, pv)),
            Result::Err(e) => Err(e),
        },
        None => match constraint {
            None => Err(Error::MissingPlainModulusConstraint),
            Some(con) => match crate::params::search_spec(c, con, level, margin, candidates, est) {
                Result::Err(e) => Err(e),
                Result::Ok(pv) => match compile_circuit_spec(c, pv) {
                    Result::Ok(nodes) => Ok((nodes, pv)),
                    Result::Err(e) => Err(e),
                },
            },
        },
    }
}

impl<C: CircuitFn> Compiler<C> {
    /// The circuit under compilation.
    pub closed spec fn spec_circuit(&self) -> C {
        self.circuit
    }

    /// The manually supplied parameters, or `None` under automatic search.
    pub closed spec fn spec_manual_params(&self) -> Option<ParamsView> {
        match self.params_mode {
            ParamsMode::Manual(p) => Some(p@),
            ParamsMode::Search => None,
        }
    }

    /// The plaintext-modulus constraint, if one was given.
    pub closed spec fn spec_constraint(&self) -> Option<PlainModulusConstraint> {
        self.plain_modulus_constraint
    }

    /// The requested security level.
    pub closed spec fn spec_security_level(&self) -> SecurityLevel {
        self.security_level
    }

    /// The requested noise margin, in bits.
    pub closed spec fn spec_noise_margin(&self) -> u32 {
        self.noise_margin
    }

    /// Starts a compiler over the given circuit, in automatic-search mode,
    /// with no plaintext-modulus constraint, a 128-bit security level and a
    /// ten-bit noise margin.
    pub fn with_circuit(circuit: C) -> (s: Self)
        ensures
            s.spec_circuit() == circuit,
            s.spec_manual_params() is None,
            s.spec_constraint() is None,
            s.spec_security_level() == SecurityLevel::TC128,
            s.spec_noise_margin() == 10,
    {
        Self {
            circuit,
            params_mode: ParamsMode::Search,
            plain_modulus_constraint: None,
            security_level: SecurityLevel::TC128,
            noise_margin: 10,
        }
    }

    /// Selects automatic parameter search.
    pub fn find_params(self) -> (s: Self)
        ensures
            s.spec_circuit() == self.spec_circuit(),
            s.spec_manual_params() is None,
            s.spec_constraint() == self.spec_constraint(),
            s.spec_security_level() == self.spec_security_level(),
            s.spec_noise_margin() == self.spec_noise_margin(),
    {
        let mut s = self;
        s.params_mode = ParamsMode::Search;
        s
    }

    /// Sets the plaintext-modulus constraint used by the search.
    pub fn plain_modulus_constraint(self, p: PlainModulusConstraint) -> (s: Self)
        ensures
            s.spec_circuit() == self.spec_circuit(),
            s.spec_manual_params() == self.spec_manual_params(),
            s.spec_constraint() == Some(p),
            s.spec_security_level() == self.spec_security_level(),
            s.spec_noise_margin() == self.spec_noise_margin(),
    {
        let mut s = self;
        s.plain_modulus_constraint = Some(p);
        s
    }

    /// Supplies the parameters manually instead of searching.
    pub fn with_params(self, params: &Params) -> (s: Self)
        ensures
            s.spec_circuit() == self.spec_circuit(),
            s.spec_manual_params() == Some(params@),
            s.spec_constraint() == self.spec_constraint(),
            s.spec_security_level() == self.spec_security_level(),
            s.spec_noise_margin() == self.spec_noise_margin(),
    {
        let mut s = self;
        s.params_mode = ParamsMode::Manual(params.clone());
        s
    }

    /// Sets the security level candidates must satisfy.
    pub fn security_level(self, security_level: SecurityLevel) -> (s: Self)
        ensures
            s.spec_circuit() == self.spec_circuit(),
            s.spec_manual_params() == self.spec_manual_params(),
            s.spec_constraint() == self.spec_constraint(),
            s.spec_security_level() == security_level,
            s.spec_noise_margin() == self.spec_noise_margin(),
    {
        let mut s = self;
        s.security_level = security_level;
        s
    }

    /// Sets the minimum remaining noise budget, in bits, a searched
    /// parameter set must leave.
    pub fn noise_margin_bits(self, noise_margin: u32) -> (s: Self)
        ensures
            s.spec_circuit() == self.spec_circuit(),
            s.spec_manual_params() == self.spec_manual_params(),
            s.spec_constraint() == self.spec_constraint(),
            s.spec_security_level() == self.spec_security_level(),
            s.spec_noise_margin() == noise_margin,
    {
        let mut s = self;
        s.noise_margin = noise_margin;
        s
    }

    /// Compiles the circuit: under manual parameters, one build; under
    /// automatic search, the deterministic candidate scan of
    /// [`crate::params::determine_params`] followed by a final build. The
    /// arena comes back reset to zero whatever happens, so the next
    /// compilation on this arena starts at node index zero.
    pub fn compile<E: NoiseEstimator>(
        self,
        arena: Arena,
        candidates: &Vec<Params>,
        estimator: &E,
    ) -> (r: (Arena, Result<(Circuit, Params), Error>))
        requires
            arena.size() == 0,
        ensures
            r.0.size() == 0,
            match r.1 {
                Ok(out) => {
                    &&& compile_result_spec(
                        self.spec_circuit(),
                        self.spec_manual_params(),
                        self.spec_constraint(),
                        self.spec_security_level(),
                        self.spec_noise_margin(),
                        params_views(candidates@),
                        *estimator,
                    ) == Ok::<(Seq<Node>, ParamsView), Error>((out.0.nodes@, out.1@))
                    &&& graph_wf(out.0.nodes@)
                    &&& out.0.signature.arguments@ == self.spec_circuit().arg_types()
                    &&& out.0.signature.return_types@ == self.spec_circuit().ret_types()
                    &&& out.0.signature.num_ciphertexts@ == element_counts(
                        self.spec_circuit().ret_types(),
                    )
                },
                Err(e) => compile_result_spec(
                    self.spec_circuit(),
                    self.spec_manual_params(),
                    self.spec_constraint(),
                    self.spec_security_level(),
                    self.spec_noise_margin(),
                    params_views(candidates@),
                    *estimator,
                ) == Err::<(Seq<Node>, ParamsView), Error>(e),
            },
    {
        let Compiler { circuit, params_mode, plain_modulus_constraint, security_level, noise_margin } =
            self;
        match params_mode {
            ParamsMode::Manual(p) => {
                let (arena, res) = compile_circuit(&circuit, &p, arena);
                match res {
                    Ok(circ) => (arena, Ok((circ, p))),
                    Err(e) => (arena, Err(e)),
                }
            },
            ParamsMode::Search => {
                match plain_modulus_constraint {
                    None => (arena, Err(Error::MissingPlainModulusConstraint)),
                    Some(con) => {
                        let (arena, pres) = determine_params(
                            &circuit,
                            con,
                            security_level,
                            noise_margin,
                            candidates,
                            estimator,
                            arena,
                        );
                        match pres {
                            Err(e) => (arena, Err(e)),
                            Ok(params) => {
                                let (arena, res) = compile_circuit(&circuit, &params, arena);
                                match res {
                                    Ok(circ) => (arena, Ok((circ, params))),
                                    Err(e) => (arena, Err(e)),
                                }
                            },
                        }
                    },
                }
            },
        }
    }
}

/// Every compilation that succeeds under automatic search meets the margin:
/// the parameter set it selects satisfies the requested security level, and
/// the noise estimate of the produced graph under that set is at least the
/// requested margin.
pub proof fn lemma_compile_search_meets_margin<C: CircuitFn, E: NoiseEstimator>(
    c: C,
    constraint: PlainModulusConstraint,
    level: SecurityLevel,
    margin: u32,
    candidates: Seq<ParamsView>,
    est: E,
    nodes: Seq<Node>,
    p: ParamsView,
)
    requires
        compile_result_spec(c, None, Some(constraint), level, margin, candidates, est) == Ok::<
            (Seq<Node>, ParamsView),
            Error,
        >((nodes, p)),
    ensures
        p.security_level == level,
        est.estimate_spec(p, nodes) >= margin,
{
    match crate::params::search_spec(c, constraint, level, margin, candidates, est) {
        Result::Err(_) => {},
        Result::Ok(pv) => {
            crate::params::lemma_search_meets_margin(
                c,
                constraint,
                level,
                margin,
                candidates,
                est,
                pv,
            );
        },
    }
}

/// The body of the two-input multiplication program: multiplies its two
/// arguments, appending exactly one node.
pub fn simple_multiply(a: &ProgramNode, b: &ProgramNode, ctx: &mut Context) -> (r: ProgramNode)
    requires
        old(ctx).wf(),
        old(ctx).nodes().len() < usize::MAX,
        a.is_single(old(ctx).nodes().len()),
        b.is_single(old(ctx).nodes().len()),
    ensures
        final(ctx).wf(),
        final(ctx).scheme() == old(ctx).scheme(),
        final(ctx).nodes() == old(ctx).nodes().push(Node::Mul(a.ids@[0], b.ids@[0])),
        r.ids@ == seq![old(ctx).nodes().len() as usize],
        r.is_single(final(ctx).nodes().len()),
{
    a.mul(b, ctx)
}

/// The two-input multiplication program over encrypted signed integers,
/// presented as a circuit the compiler can build.
pub struct SimpleMultiplyCircuit;

impl CircuitFn for SimpleMultiplyCircuit {
    open spec fn scheme_spec(&self) -> SchemeType {
        SchemeType::Bfv
    }

    open spec fn arg_types(&self) -> Seq<TypeDesc> {
        seq![TypeDesc::CipherSigned, TypeDesc::CipherSigned]
    }

    open spec fn ret_types(&self) -> Seq<TypeDesc> {
        seq![TypeDesc::CipherSigned]
    }

    open spec fn body_spec(&self, pre: Seq<Node>, inputs: Seq<Seq<usize>>) -> Result<
        (Seq<Node>, Seq<Seq<usize>>),
        BuildFault,
    > {
        if pre.len() + 2 <= usize::MAX && inputs.len() == 2 && inputs[0].len() == 1
            && inputs[1].len() == 1 {
            Ok((pre.push(Node::Mul(inputs[0][0], inputs[1][0])), seq![seq![pre.len() as usize]]))
        } else {
            Err(BuildFault::GraphTooLarge)
        }
    }

    fn scheme(&self) -> (s: SchemeType) {
        SchemeType::Bfv
    }

    fn arg_types_exec(&self) -> (ts: Vec<TypeDesc>) {
        let ts = vec![TypeDesc::CipherSigned, TypeDesc::CipherSigned];
        proof {
            assert(ts@ =~= self.arg_types());
        }
        ts
    }

    fn ret_types_exec(&self) -> (ts: Vec<TypeDesc>) {
        let ts = vec![TypeDesc::CipherSigned];
        proof {
            assert(ts@ =~= self.ret_types());
        }
        ts
    }

    fn body(&self, inputs: &Vec<ProgramNode>, ctx: &mut Context) -> (r: Result<
        Vec<ProgramNode>,
        BuildFault,
    >) {
        if ctx.len() > usize::MAX - 2 {
            return Err(BuildFault::GraphTooLarge);
        }
        proof {
            assert(self.arg_types().len() == 2);
            assert(spec_num_elements(self.arg_types()[0]) == 1);
            assert(spec_num_elements(self.arg_types()[1]) == 1);
        }
        let a = &inputs[0];
        let b = &inputs[1];
        proof {
            assert(handle_views(inputs@)[0] == a.ids@);
            assert(handle_views(inputs@)[1] == b.ids@);
            assert(a.ids@.len() == 1 && b.ids@.len() == 1);
            assert(handle_wf(a.ids@, old(ctx).nodes().len()));
            assert(handle_wf(b.ids@, old(ctx).nodes().len()));
            assert(a.ids@[0] < old(ctx).nodes().len());
            assert(b.ids@[0] < old(ctx).nodes().len());
        }
        let out = simple_multiply(a, b, ctx);
        let outs = vec![out];
        proof {
            let ghost pre = old(ctx).nodes();
            let ghost iv = handle_views(inputs@);
            let hv = handle_views(outs@);
            assert(hv =~= seq![outs@[0].ids@]);
            assert(out.ids@ == seq![pre.len() as usize]);
            assert(hv =~= seq![seq![pre.len() as usize]]);
            crate::program_node::lemma_output_nodes_len(outs@[0].ids@);
            assert(hv.drop_last() =~= Seq::<Seq<usize>>::empty());
            assert(output_nodes_flat(hv) == output_nodes_flat(hv.drop_last()) + output_nodes(
                hv.last(),
            ));
            assert(output_nodes_flat(hv).len() == 1);
            assert(self.body_spec(pre, iv) == Ok::<(Seq<Node>, Seq<Seq<usize>>), BuildFault>(
                (ctx.nodes(), hv),
            ));
            assert(self.ret_types().len() == 1);
            assert(spec_num_elements(self.ret_types()[0]) == 1);
            assert(handle_wf(out.ids@, ctx.nodes().len()));
            assert(handles_wf(hv, ctx.nodes().len()));
        }
        Ok(outs)
    }
}

/// A circuit whose body deliberately faults while building, by invoking the
/// binary-decomposition gadget with no input nodes. It exercises the
/// guarantee that a faulting compilation leaves no state behind for the
/// next one.
pub struct FaultingCircuit;

impl CircuitFn for FaultingCircuit {
    open spec fn scheme_spec(&self) -> SchemeType {
        SchemeType::Bfv
    }

    open spec fn arg_types(&self) -> Seq<TypeDesc> {
        Seq::empty()
    }

    open spec fn ret_types(&self) -> Seq<TypeDesc> {
        Seq::empty()
    }

    open spec fn body_spec(&self, pre: Seq<Node>, inputs: Seq<Seq<usize>>) -> Result<
        (Seq<Node>, Seq<Seq<usize>>),
        BuildFault,
    > {
        Err(BuildFault::MalformedGadgetShape)
    }

    fn scheme(&self) -> (s: SchemeType) {
        SchemeType::Bfv
    }

    fn arg_types_exec(&self) -> (ts: Vec<TypeDesc>) {
        let ts: Vec<TypeDesc> = Vec::new();
        proof {
            assert(ts@ =~= self.arg_types());
        }
        ts
    }

    fn ret_types_exec(&self) -> (ts: Vec<TypeDesc>) {
        let ts: Vec<TypeDesc> = Vec::new();
        proof {
            assert(ts@ =~= self.ret_types());
        }
        ts
    }

    fn body(&self, inputs: &Vec<ProgramNode>, ctx: &mut Context) -> (r: Result<
        Vec<ProgramNode>,
        BuildFault,
    >) {
        let g = crate::gadget::ToUInt { n_bits: 8 };
        let no_inputs: Vec<usize> = Vec::new();
        match crate::gadget::invoke_gadget(&g, &no_inputs, ctx) {
            Err(f) => Err(f),
            Ok(_) => {
                proof {
                    assert(false);
                }
                Err(BuildFault::MalformedGadgetShape)
            },
        }
    }
}

} // verus!
