//! Evolving Identity (EID): a protocol layer that tracks the membership of a
//! group as it changes over time, and lets a party without access to group
//! secrets audit those changes against a trusted checkpoint.
//!
//! The core abstraction is a chain of *evolvements*: immutable records of one
//! membership transition each (add, remove, update), ordered by a public
//! successor-validity rule. A *client* proposes and commits evolvements to its
//! own *state*; a *transcript*, seeded from a client's exported state, replays
//! an externally supplied evolvement log and reports an authoritative member
//! set without holding any secret.

pub mod types;
pub mod membership;
pub mod evolvement;
pub mod eid_dummy_backend;
pub mod eid_dummy_evolvement;
pub mod eid_dummy_state;
pub mod eid_dummy_client;
pub mod eid_dummy_transcript;
pub mod eid_mls_client;
pub mod eid_mls_transcript;
