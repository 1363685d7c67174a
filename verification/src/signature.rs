use vstd::prelude::*;

verus! {

/// Identifier of a value type that can cross a compiled program's boundary.
#[derive(Clone, Copy, PartialEq, Eq, Structural, Debug)]
pub enum TypeDesc {
    /// An encrypted signed integer of the FHE frontend.
    CipherSigned,
    /// A native field element of the ZKP frontend.
    FieldElement,
}

/// The number of underlying ciphertext or field elements a value of the
/// type occupies in the graph.
pub open spec fn spec_num_elements(t: TypeDesc) -> nat {
    match t {
        TypeDesc::CipherSigned => 1,
        TypeDesc::FieldElement => 1,
    }
}

/// Executable counterpart of [`spec_num_elements`].
pub fn num_elements(t: TypeDesc) -> (n: usize)
    ensures
        n == spec_num_elements(t),
{
    match t {
        TypeDesc::CipherSigned => 1,
        TypeDesc::FieldElement => 1,
    }
}

/// The per-return element counts recorded in a signature.
pub open spec fn element_counts(rets: Seq<TypeDesc>) -> Seq<usize> {
    rets.map_values(|t: TypeDesc| spec_num_elements(t) as usize)
}

/// The shape descriptor computed once per compiled function from its static
/// shape: the ordered argument types, the ordered return types, and the
/// element count of each return. The runtime uses it to reject invocations
/// whose argument or return shapes do not match.
#[derive(Debug)]
pub struct CallSignature {
    pub arguments: Vec<TypeDesc>,
    pub return_types: Vec<TypeDesc>,
    pub num_ciphertexts: Vec<usize>,
}

/// Derives the call signature of a function with the given argument and
/// return types; the element counts column is computed from the return
/// types, one entry per return, in declaration order.
pub fn create_signature(arguments: Vec<TypeDesc>, return_types: Vec<TypeDesc>) -> (s: CallSignature)
    ensures
        s.arguments@ == arguments@,
        s.return_types@ == return_types@,
        s.num_ciphertexts@ == element_counts(return_types@),
{
    let n = return_types.len();
    let mut counts: Vec<usize> = Vec::new();
    for i in 0..n
        invariant
            n == return_types@.len(),
            counts@ == element_counts(return_types@.take(i as int)),
    {
        counts.push(num_elements(return_types[i]));
        proof {
            assert(counts@ =~= element_counts(return_types@.take(i + 1)));
        }
    }
    proof {
        assert(return_types@.take(n as int) =~= return_types@);
    }
    CallSignature { arguments, return_types, num_ciphertexts: counts }
}

} // verus!
