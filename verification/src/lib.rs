//! A compiler frontend for secure-computation programs.
//!
//! User-authored arithmetic functions are turned into a typed operation DAG
//! (the intermediate representation shared by the FHE and ZKP frontends),
//! cryptographic parameters for the FHE case are selected automatically under
//! correctness and security constraints, and machine integers are encoded
//! into finite-field elements in constant time for the ZKP frontend.

use vstd::prelude::*;

pub mod arena;
pub mod compiler;
pub mod context;
pub mod gadget;
pub mod native_field;
pub mod params;
pub mod program_node;
pub mod signature;

verus! {

/// A fault raised by a user body while the graph is being built. It is
/// converted into a clean error at the compiler's boundary, after the
/// context has been released and the arena reset.
#[derive(Clone, Copy, PartialEq, Eq, Structural, Debug)]
pub enum BuildFault {
    /// A gadget was invoked with the wrong number of input nodes.
    MalformedGadgetShape,
    /// A gadget was asked for a wider decomposition than the field carries.
    UnsupportedGadgetWidth,
    /// The graph grew past the largest representable node index.
    GraphTooLarge,
}

/// Every recoverable condition of a compilation, surfaced as a result value.
#[derive(Clone, Copy, PartialEq, Eq, Structural, Debug)]
pub enum Error {
    /// Automatic parameter search was requested without saying how to pick
    /// the plaintext modulus; reported before any candidate is evaluated.
    MissingPlainModulusConstraint,
    /// A manually supplied parameter set carries a scheme tag that does not
    /// match the circuit's expected scheme.
    IncorrectScheme,
    /// No candidate parameter set meets the noise-margin and security
    /// constraints; the caller must widen the search space.
    SearchExhausted,
    /// The user body faulted while building the graph; per-thread state was
    /// cleaned up before this error was surfaced.
    Fault(BuildFault),
}

} // verus!
