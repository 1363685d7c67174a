use circuit_frontend::arena::Arena;
use circuit_frontend::context::{Context, Node, SchemeType};
use circuit_frontend::gadget::{invoke_gadget, ToUInt};
use circuit_frontend::program_node::ProgramNode;
use circuit_frontend::BuildFault;

#[test]
fn arena_hands_out_sequential_indices() {
    let mut arena = Arena::new();
    assert_eq!(arena.allocated(), 0);
    assert_eq!(arena.allocate(), 0);
    assert_eq!(arena.allocate(), 1);
    assert_eq!(arena.allocate(), 2);
    assert_eq!(arena.allocated(), 3);
    arena.reset();
    assert_eq!(arena.allocated(), 0);
    assert_eq!(arena.allocate(), 0);
}

#[test]
fn context_appends_one_node_per_operation() {
    let mut ctx = Context::new(Arena::new(), SchemeType::Bfv);
    let a = ctx.add_input();
    let b = ctx.add_input();
    let c = ctx.add_constant(5);
    let s = ctx.add_addition(a, b);
    let p = ctx.add_multiplication(s, c);
    let n = ctx.add_negate(p);
    let d = ctx.add_subtraction(n, a);
    let q = ctx.add_constraint(d, 0);
    let o = ctx.add_output(q);
    assert_eq!((a, b, c, s, p, n, d, q, o), (0, 1, 2, 3, 4, 5, 6, 7, 8));
    let (arena, nodes) = ctx.release();
    assert_eq!(arena.allocated(), 0);
    assert_eq!(
        nodes,
        vec![
            Node::Input,
            Node::Input,
            Node::Constant(5),
            Node::Add(0, 1),
            Node::Mul(3, 2),
            Node::Neg(4),
            Node::Sub(5, 0),
            Node::Constraint(6, 0),
            Node::Output(7),
        ]
    );
}

#[test]
fn lifted_operations_mutate_the_context() {
    let mut ctx = Context::new(Arena::new(), SchemeType::Zkp);
    let a = ProgramNode::single(ctx.add_input());
    let b = ProgramNode::single(ctx.add_input());
    let sum = a.add(&b, &mut ctx);
    let prod = sum.mul(&a, &mut ctx);
    let negated = prod.neg(&mut ctx);
    let constraint = negated.constraint_eq(&b, &mut ctx);
    constraint.output(&mut ctx);
    let (_, nodes) = ctx.release();
    assert_eq!(
        nodes,
        vec![
            Node::Input,
            Node::Input,
            Node::Add(0, 1),
            Node::Mul(2, 0),
            Node::Neg(3),
            Node::Sub(4, 1),
            Node::Constraint(5, 0),
            Node::Output(6),
        ]
    );
}

#[test]
fn binary_decomposition_inserts_the_exact_subgraph() {
    let mut ctx = Context::new(Arena::new(), SchemeType::Zkp);
    let value = ProgramNode::single(ctx.add_input());
    let bits = value.to_unsigned(2, &mut ctx).unwrap();
    assert_eq!(bits.len(), 2);
    assert_eq!(bits[0].ids, vec![2]);
    assert_eq!(bits[1].ids, vec![10]);
    let (_, nodes) = ctx.release();
    assert_eq!(
        nodes,
        vec![
            // the decomposed value
            Node::Input,
            // the zero seed of the recombination
            Node::Constant(0),
            // bit 0: hidden input, binary constraint, recombination term
            Node::Input,
            Node::Constant(1),
            Node::Sub(2, 3),
            Node::Mul(2, 4),
            Node::Constraint(5, 0),
            Node::Constant(1),
            Node::Mul(2, 7),
            Node::Add(1, 8),
            // bit 1
            Node::Input,
            Node::Constant(1),
            Node::Sub(10, 11),
            Node::Mul(10, 12),
            Node::Constraint(13, 0),
            Node::Constant(2),
            Node::Mul(10, 15),
            Node::Add(9, 16),
            // the recombined sum equals the decomposed value
            Node::Sub(0, 17),
            Node::Constraint(18, 0),
        ]
    );
}

#[test]
fn gadget_with_wrong_shape_faults() {
    let mut ctx = Context::new(Arena::new(), SchemeType::Zkp);
    let _ = ctx.add_input();
    let gadget = ToUInt { n_bits: 4 };
    let no_inputs: Vec<usize> = Vec::new();
    let r = invoke_gadget(&gadget, &no_inputs, &mut ctx);
    assert_eq!(r.unwrap_err(), BuildFault::MalformedGadgetShape);

    let too_wide = ToUInt { n_bits: 129 };
    let one_input = vec![0usize];
    let r = invoke_gadget(&too_wide, &one_input, &mut ctx);
    assert_eq!(r.unwrap_err(), BuildFault::UnsupportedGadgetWidth);

    // A fault leaves the graph untouched.
    let (_, nodes) = ctx.release();
    assert_eq!(nodes, vec![Node::Input]);
}
