//! The in-memory capability provider. The EID core treats a backend as an
//! injected dependency and passes it by reference into every operation that a
//! cryptographic deployment would need it for; this no-crypto variant holds
//! nothing and rejects nothing, so the protocol discipline can be exercised
//! and verified on its own.

use vstd::prelude::*;

verus! {

/// A backend without cryptography: every proposal it is asked to produce
/// succeeds, and it keeps no state of its own.
pub struct EidDummyBackend {}

impl Default for EidDummyBackend {
    fn default() -> (r: Self)
        ensures
            r == (EidDummyBackend {  }),
    {
        EidDummyBackend {  }
    }
}

} // verus!
