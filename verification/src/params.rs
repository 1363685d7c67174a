use vstd::prelude::*;

use crate::compiler::{compile_circuit, compile_circuit_spec, CircuitFn};
use crate::context::{Node, SchemeType};
use crate::gadget::{lemma_pow2n_mono, pow2n};
use crate::arena::Arena;
use crate::Error;

verus! {

/// Enumerated classical-bit-strength security levels.
#[derive(Clone, Copy, PartialEq, Eq, Structural, Debug)]
pub enum SecurityLevel {
    TC128,
    TC192,
    TC256,
}

/// How the plaintext modulus of a searched parameter set is picked: either
/// an exact value, or a generation policy asking for a power of two of at
/// least the given number of bits.
#[derive(Clone, Copy, PartialEq, Eq, Structural, Debug)]
pub enum PlainModulusConstraint {
    Raw(u64),
    BitsMinimum(u32),
}

/// The mathematical shape of a parameter set.
pub ghost struct ParamsView {
    pub scheme_type: SchemeType,
    pub lattice_dimension: u64,
    pub coeff_modulus: Seq<u64>,
    pub plain_modulus: u64,
    pub security_level: SecurityLevel,
}

/// One candidate cryptographic parameter set: the scheme tag, the
/// polynomial ring degree, the modulus chain (one entry per prime, as its
/// width in bits), the plaintext modulus, and the security level the set
/// was tabulated for.
#[derive(Debug)]
pub struct Params {
    pub scheme_type: SchemeType,
    pub lattice_dimension: u64,
    pub coeff_modulus: Vec<u64>,
    pub plain_modulus: u64,
    pub security_level: SecurityLevel,
}

impl View for Params {
    type V = ParamsView;

    open spec fn view(&self) -> ParamsView {
        ParamsView {
            scheme_type: self.scheme_type,
            lattice_dimension: self.lattice_dimension,
            coeff_modulus: self.coeff_modulus@,
            plain_modulus: self.plain_modulus,
            security_level: self.security_level,
        }
    }
}

/// Copies a vector of chain entries, element for element.
fn clone_u64_vec(v: &Vec<u64>) -> (r: Vec<u64>)
    ensures
        r@ == v@,
{
    let mut r: Vec<u64> = Vec::new();
    for i in 0..v.len()
        invariant
            r@ == v@.take(i as int),
    {
        r.push(v[i]);
        proof {
            assert(r@ =~= v@.take(i + 1));
        }
    }
    proof {
        assert(v@.take(v@.len() as int) =~= v@);
    }
    r
}

impl Clone for Params {
    /// A clone carries the same mathematical value.
    fn clone(&self) -> (r: Self)
        ensures
            r@ == self@,
    {
        Params {
            scheme_type: self.scheme_type,
            lattice_dimension: self.lattice_dimension,
            coeff_modulus: clone_u64_vec(&self.coeff_modulus),
            plain_modulus: self.plain_modulus,
            security_level: self.security_level,
        }
    }
}

/// The noise-estimation collaborator supplied by the cryptographic backend:
/// a pure function from a parameter set and a built graph to the remaining
/// noise budget, in bits, after worst-case evaluation. Purity is part of the
/// contract: each implementation fixes its estimate as a function of its
/// inputs, which is what makes the parameter search deterministic.
pub trait NoiseEstimator {
    /// The estimate as a mathematical function of the inputs.
    spec fn estimate_spec(&self, params: ParamsView, graph: Seq<Node>) -> u32;

    /// Computes the remaining noise budget for `params` on `graph`.
    fn estimate_noise(&self, params: &Params, graph: &Vec<Node>) -> (r: u32)
        ensures
            r == self.estimate_spec(params@, graph@),
    ;
}

/// Total width of the modulus chain, in bits, saturated at a million.
pub open spec fn spec_chain_total(chain: Seq<u64>) -> nat
    decreases chain.len(),
{
    if chain.len() == 0 {
        0
    } else {
        let rest = spec_chain_total(chain.drop_last());
        if rest + chain.last() > 1000000 {
            1000000
        } else {
            (rest + chain.last()) as nat
        }
    }
}

/// Number of multiplication nodes of the graph, saturated at a million.
pub open spec fn spec_mul_count(graph: Seq<Node>) -> nat
    decreases graph.len(),
{
    if graph.len() == 0 {
        0
    } else {
        let rest = spec_mul_count(graph.drop_last());
        let here: nat = match graph.last() {
            Node::Mul(_, _) => 1,
            _ => 0,
        };
        if rest + here > 1000000 {
            1000000
        } else {
            (rest + here) as nat
        }
    }
}

/// Width of a value in bits: zero for zero, one more than its half
/// otherwise.
pub open spec fn spec_bit_len(n: nat) -> nat
    decreases n,
{
    if n == 0 {
        0
    } else {
        1 + spec_bit_len(n / 2)
    }
}

proof fn lemma_bit_len_bound(x: nat, k: nat)
    requires
        x < pow2n(k),
    ensures
        spec_bit_len(x) <= k,
    decreases x,
{
    if x > 0 {
        assert(pow2n(k) == 2 * pow2n((k - 1) as nat));
        lemma_bit_len_bound(x / 2, (k - 1) as nat);
    }
}

/// The default noise model shipped with the frontend: the budget left is
/// the total chain width minus a worst-case cost growing with the plaintext
/// width and the number of multiplications, minus a fixed base cost.
pub open spec fn spec_noise_budget(params: ParamsView, graph: Seq<Node>) -> u32 {
    let total = spec_chain_total(params.coeff_modulus);
    let cost = spec_bit_len(params.plain_modulus as nat) * (1 + spec_mul_count(graph)) + 20;
    if total > cost {
        if total - cost > 0xFFFF_FFFF {
            0xFFFF_FFFFu32
        } else {
            (total - cost) as u32
        }
    } else {
        0
    }
}

fn chain_total(chain: &Vec<u64>) -> (t: u64)
    ensures
        t == spec_chain_total(chain@),
        t <= 1000000,
{
    let mut t: u64 = 0;
    let n = chain.len();
    for i in 0..n
        invariant
            n == chain@.len(),
            t == spec_chain_total(chain@.take(i as int)),
            t <= 1000000,
    {
        let e = chain[i];
        if e > 1000000 - t {
            t = 1000000;
        } else {
            t = t + e;
        }
        proof {
            assert(chain@.take(i + 1).drop_last() =~= chain@.take(i as int));
        }
    }
    proof {
        assert(chain@.take(n as int) =~= chain@);
    }
    t
}

fn mul_count(graph: &Vec<Node>) -> (c: u64)
    ensures
        c == spec_mul_count(graph@),
        c <= 1000000,
{
    let mut c: u64 = 0;
    let n = graph.len();
    for i in 0..n
        invariant
            n == graph@.len(),
            c == spec_mul_count(graph@.take(i as int)),
            c <= 1000000,
    {
        let here: u64 = match graph[i] {
            Node::Mul(_, _) => 1,
            _ => 0,
        };
        if c + here > 1000000 {
            c = 1000000;
        } else {
            c = c + here;
        }
        proof {
            assert(graph@.take(i + 1).drop_last() =~= graph@.take(i as int));
        }
    }
    proof {
        assert(graph@.take(n as int) =~= graph@);
    }
    c
}

fn bit_len(x: u64) -> (n: u32)
    ensures
        n == spec_bit_len(x as nat),
        n <= 64,
{
    proof {
        assert(pow2n(64) == 0x1_0000_0000_0000_0000nat) by {
            reveal_with_fuel(pow2n, 65);
        }
        lemma_bit_len_bound(x as nat, 64);
    }
    let mut v = x;
    let mut n: u32 = 0;
    while v > 0
        invariant
            n + spec_bit_len(v as nat) == spec_bit_len(x as nat),
            spec_bit_len(x as nat) <= 64,
        decreases v,
    {
        v = v / 2;
        n = n + 1;
    }
    n
}

/// The default noise-estimation backend. It never performs encryption: the
/// estimate is a pure function of the parameter set and the graph's shape.
pub struct DefaultNoiseModel;

impl NoiseEstimator for DefaultNoiseModel {
    open spec fn estimate_spec(&self, params: ParamsView, graph: Seq<Node>) -> u32 {
        spec_noise_budget(params, graph)
    }

    fn estimate_noise(&self, params: &Params, graph: &Vec<Node>) -> (r: u32)
        ensures
            r == self.estimate_spec(params@, graph@),
    {
        let total = chain_total(&params.coeff_modulus);
        let muls = mul_count(graph);
        let width = bit_len(params.plain_modulus) as u64;
        proof {
            assert(width * (1 + muls) <= 64 * 1000001) by (nonlinear_arith)
                requires
                    width <= 64,
                    muls <= 1000000,
            ;
        }
        let cost = width * (1 + muls) + 20;
        if total > cost {
            (total - cost) as u32
        } else {
            0
        }
    }
}

/// Appends one candidate to a table under construction, keeping every entry
/// tagged with the requested scheme and level.
fn push_candidate(
    table: &mut Vec<Params>,
    lattice_dimension: u64,
    coeff_modulus: Vec<u64>,
    level: SecurityLevel,
)
    ensures
        final(table)@.len() == old(table)@.len() + 1,
        forall|i: int|
            0 <= i < old(table)@.len() ==> final(table)@[i] == old(table)@[i],
        final(table)@.last()@ == (ParamsView {
            scheme_type: SchemeType::Bfv,
            lattice_dimension,
            coeff_modulus: coeff_modulus@,
            plain_modulus: 0,
            security_level: level,
        }),
{
    table.push(
        Params {
            scheme_type: SchemeType::Bfv,
            lattice_dimension,
            coeff_modulus,
            plain_modulus: 0,
            security_level: level,
        },
    );
}

/// The built-in security-level table: for each level, the ring-degree and
/// modulus-chain combinations considered safe, listed in increasing cost
/// order — smaller degrees first, and for one degree the shorter chains
/// first. The plaintext modulus of each entry is a placeholder that the
/// search fills from its constraint. The listed order is part of the
/// search's observable contract.
pub fn default_candidates(level: SecurityLevel) -> (table: Vec<Params>)
    ensures
        table@.len() > 0,
        forall|i: int|
            0 <= i < table@.len() ==> (#[trigger] table@[i])@.security_level == level
                && table@[i]@.scheme_type == SchemeType::Bfv,
        forall|i: int, j: int|
            0 <= i < j < table@.len() ==> (#[trigger] table@[i])@.lattice_dimension <= (
            #[trigger] table@[j])@.lattice_dimension,
        forall|i: int, j: int|
            0 <= i < j < table@.len() && (#[trigger] table@[i])@.lattice_dimension == (
            #[trigger] table@[j])@.lattice_dimension ==> table@[i]@.coeff_modulus.len()
                <= table@[j]@.coeff_modulus.len(),
{
    let mut table: Vec<Params> = Vec::new();
    match level {
        SecurityLevel::TC128 => {
            push_candidate(&mut table, 1024, vec![27], level);
            push_candidate(&mut table, 2048, vec![27, 27], level);
            push_candidate(&mut table, 4096, vec![54], level);
            push_candidate(&mut table, 4096, vec![54, 55], level);
            push_candidate(&mut table, 8192, vec![54, 54, 55], level);
            push_candidate(&mut table, 8192, vec![54, 54, 55, 55], level);
            push_candidate(&mut table, 16384, vec![54, 54, 55, 55, 55, 55, 55, 55], level);
        },
        SecurityLevel::TC192 => {
            push_candidate(&mut table, 1024, vec![19], level);
            push_candidate(&mut table, 2048, vec![37], level);
            push_candidate(&mut table, 4096, vec![37, 38], level);
            push_candidate(&mut table, 8192, vec![50, 50, 52], level);
            push_candidate(&mut table, 16384, vec![50, 51, 51, 51, 51, 51], level);
        },
        SecurityLevel::TC256 => {
            push_candidate(&mut table, 1024, vec![14], level);
            push_candidate(&mut table, 2048, vec![29], level);
            push_candidate(&mut table, 4096, vec![29, 29], level);
            push_candidate(&mut table, 8192, vec![39, 39, 40], level);
            push_candidate(&mut table, 16384, vec![47, 47, 47, 48, 48], level);
        },
    }
    table
}

/// The views of a vector of parameter sets, in order.
pub open spec fn params_views(ps: Seq<Params>) -> Seq<ParamsView> {
    ps.map_values(|p: Params| p@)
}

/// The plaintext modulus a constraint generates: the exact value, or a
/// power of two of the requested width, saturated at the widest power a
/// machine word carries.
pub open spec fn spec_plain_modulus_of(con: PlainModulusConstraint) -> u64 {
    match con {
        PlainModulusConstraint::Raw(v) => v,
        PlainModulusConstraint::BitsMinimum(b) => if b <= 63 {
            pow2n(b as nat) as u64
        } else {
            pow2n(63) as u64
        },
    }
}

/// A candidate with its plaintext modulus filled in from the constraint.
pub open spec fn apply_constraint_spec(cand: ParamsView, con: PlainModulusConstraint) -> ParamsView {
    ParamsView { plain_modulus: spec_plain_modulus_of(con), ..cand }
}

fn pow2_u64(b: u32) -> (r: u64)
    requires
        b <= 63,
    ensures
        r as nat == pow2n(b as nat),
{
    proof {
        assert(pow2n(63) == 0x8000_0000_0000_0000nat) by {
            reveal_with_fuel(pow2n, 64);
        }
    }
    let mut r: u64 = 1;
    for i in 0..b
        invariant
            b <= 63,
            r as nat == pow2n(i as nat),
            pow2n(63) == 0x8000_0000_0000_0000nat,
    {
        proof {
            lemma_pow2n_mono((i + 1) as nat, 63nat);
            assert(pow2n((i + 1) as nat) == 2 * pow2n(i as nat));
        }
        r = r * 2;
    }
    r
}

fn apply_constraint(cand: &Params, con: PlainModulusConstraint) -> (p: Params)
    ensures
        p@ == apply_constraint_spec(cand@, con),
{
    let plain = match con {
        PlainModulusConstraint::Raw(v) => v,
        PlainModulusConstraint::BitsMinimum(b) => pow2_u64(if b <= 63 {
            b
        } else {
            63
        }),
    };
    Params {
        scheme_type: cand.scheme_type,
        lattice_dimension: cand.lattice_dimension,
        coeff_modulus: clone_u64_vec(&cand.coeff_modulus),
        plain_modulus: plain,
        security_level: cand.security_level,
    }
}

/// What the search selects: scanning the candidates in their listed order —
/// the cost order supplied by the security-level table — it skips those
/// tabulated for another level, fills in the plaintext modulus, builds the
/// circuit, and accepts the first candidate whose estimated remaining noise
/// budget reaches the margin. A build error propagates; an exhausted list
/// is reported as such.
pub open spec fn search_spec<C: CircuitFn, E: NoiseEstimator>(
    c: C,
    con: PlainModulusConstraint,
    level: SecurityLevel,
    margin: u32,
    candidates: Seq<ParamsView>,
    est: E,
) -> Result<ParamsView, Error>
    decreases candidates.len(),
{
    if candidates.len() == 0 {
        Err(Error::SearchExhausted)
    } else if candidates.first().security_level != level {
        search_spec(c, con, level, margin, candidates.drop_first(), est)
    } else {
        let p = apply_constraint_spec(candidates.first(), con);
        match compile_circuit_spec(c, p) {
            Result::Err(e) => Err(e),
            Result::Ok(nodes) => if est.estimate_spec(p, nodes) >= margin {
                Ok(p)
            } else {
                search_spec(c, con, level, margin, candidates.drop_first(), est)
            },
        }
    }
}

/// Finds the cheapest parameter set meeting the noise-margin and
/// security-level constraints, building the circuit symbolically under each
/// trial set. The result is exactly [`search_spec`] of the inputs: the
/// enumeration order is part of the observable contract, and identical
/// inputs always select identical parameters. The arena comes back reset
/// after every trial build and on every exit.
pub fn determine_params<C: CircuitFn, E: NoiseEstimator>(
    circuit: &C,
    constraint: PlainModulusConstraint,
    security_level: SecurityLevel,
    noise_margin: u32,
    candidates: &Vec<Params>,
    estimator: &E,
    arena: Arena,
) -> (r: (Arena, Result<Params, Error>))
    requires
        arena.size() == 0,
    ensures
        r.0.size() == 0,
        match r.1 {
            Ok(p) => search_spec(
                *circuit,
                constraint,
                security_level,
                noise_margin,
                params_views(candidates@),
                *estimator,
            ) == Ok::<ParamsView, Error>(p@),
            Err(e) => search_spec(
                *circuit,
                constraint,
                security_level,
                noise_margin,
                params_views(candidates@),
                *estimator,
            ) == Err::<ParamsView, Error>(e),
        },
{
    let ghost views = params_views(candidates@);
    let n = candidates.len();
    let mut arena = arena;
    proof {
        assert(views.skip(0) =~= views);
    }
    for i in 0..n
        invariant
            arena.size() == 0,
            n == candidates@.len(),
            views == params_views(candidates@),
            search_spec(*circuit, constraint, security_level, noise_margin, views, *estimator)
                == search_spec(
                *circuit,
                constraint,
                security_level,
                noise_margin,
                views.skip(i as int),
                *estimator,
            ),
    {
        proof {
            assert(views.skip(i as int).first() == candidates@[i as int]@);
            assert(views.skip(i as int).drop_first() =~= views.skip(i + 1));
        }
        let cand = &candidates[i];
        if cand.security_level == security_level {
            let trial = apply_constraint(cand, constraint);
            let (a2, res) = compile_circuit(circuit, &trial, arena);
            arena = a2;
            match res {
                Err(e) => {
                    return (arena, Err(e));
                },
                Ok(circ) => {
                    let budget = estimator.estimate_noise(&trial, &circ.nodes);
                    if budget >= noise_margin {
                        return (arena, Ok(trial));
                    }
                },
            }
        }
    }
    proof {
        assert(views.skip(n as int) =~= Seq::<ParamsView>::empty());
    }
    (arena, Err(Error::SearchExhausted))
}

/// Every parameter set the search accepts leaves at least the requested
/// noise margin: when the search returns a set, the noise estimate of the
/// circuit built under it is at least the margin, and the set satisfies the
/// requested security level.
pub proof fn lemma_search_meets_margin<C: CircuitFn, E: NoiseEstimator>(
    c: C,
    con: PlainModulusConstraint,
    level: SecurityLevel,
    margin: u32,
    candidates: Seq<ParamsView>,
    est: E,
    p: ParamsView,
)
    requires
        search_spec(c, con, level, margin, candidates, est) == Ok::<ParamsView, Error>(p),
    ensures
        p.security_level == level,
        match compile_circuit_spec(c, p) {
            Result::Ok(nodes) => est.estimate_spec(p, nodes) >= margin,
            Result::Err(_) => false,
        },
    decreases candidates.len(),
{
    if candidates.len() == 0 {
    } else if candidates.first().security_level != level {
        lemma_search_meets_margin(c, con, level, margin, candidates.drop_first(), est, p);
    } else {
        let q = apply_constraint_spec(candidates.first(), con);
        match compile_circuit_spec(c, q) {
            Result::Err(_) => {},
            Result::Ok(nodes) => {
                if est.estimate_spec(q, nodes) >= margin {
                } else {
                    lemma_search_meets_margin(c, con, level, margin, candidates.drop_first(), est, p);
                }
            },
        }
    }
}

/// The search is deterministic: two results obtained from identical inputs
/// — the same circuit, constraint, security level, margin, candidate list
/// and estimator — are the same.
pub proof fn lemma_search_deterministic<C: CircuitFn, E: NoiseEstimator>(
    c: C,
    con: PlainModulusConstraint,
    level: SecurityLevel,
    margin: u32,
    candidates: Seq<ParamsView>,
    est: E,
    r1: Result<ParamsView, Error>,
    r2: Result<ParamsView, Error>,
)
    requires
        r1 == search_spec(c, con, level, margin, candidates, est),
        r2 == search_spec(c, con, level, margin, candidates, est),
    ensures
        r1 == r2,
{
}

} // verus!
