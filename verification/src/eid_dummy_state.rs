//! The in-memory state: the materialized membership view at a point in the
//! evolvement chain. A state absorbs evolvements one at a time or as a log;
//! shape mismatches are caught by successor validation in the callers that
//! evolve a client or a transcript, before `apply` is invoked, so `apply`
//! itself installs the snapshot the evolvement carries.

use vstd::prelude::*;
use crate::eid_dummy_backend::EidDummyBackend;
use crate::eid_dummy_evolvement::{log_view, EidDummyEvolvement};
use crate::evolvement::replay;
use crate::membership::{clone_members, contains_pk, members_view, vec_contains_pk};
use crate::types::{EidError, Member, MemberView};

verus! {

/// The member set a chain of evolvements has produced so far.
#[derive(Debug)]
pub struct EidDummyState {
    pub members: Vec<Member>,
}

impl View for EidDummyState {
    type V = Seq<MemberView>;

    open spec fn view(&self) -> Seq<MemberView> {
        members_view(self.members@)
    }
}

impl Default for EidDummyState {
    fn default() -> (r: Self)
        ensures
            r@ == Seq::<MemberView>::empty(),
    {
        let r = EidDummyState { members: Vec::new() };
        proof {
            assert(r@ =~= Seq::<MemberView>::empty());
        }
        r
    }
}

impl Clone for EidDummyState {
    fn clone(&self) -> (r: Self)
        ensures
            r@ == self@,
    {
        EidDummyState { members: clone_members(&self.members) }
    }
}

impl EidDummyState {
    /// A state holding exactly the given members.
    pub fn new(members: Vec<Member>) -> (r: EidDummyState)
        ensures
            r@ == members_view(members@),
    {
        EidDummyState { members }
    }

    /// Installs the membership snapshot the evolvement carries. The no-crypto
    /// backend rejects nothing, so this always succeeds.
    pub fn apply(&mut self, evolvement: EidDummyEvolvement, backend: &EidDummyBackend) -> (r:
        Result<(), EidError>)
        ensures
            r is Ok,
            final(self)@ == evolvement@.members,
    {
        match evolvement {
            EidDummyEvolvement::Add { members, .. } => {
                self.members = members;
            },
            EidDummyEvolvement::Remove { members } => {
                self.members = members;
            },
            EidDummyEvolvement::Update { members } => {
                self.members = members;
            },
        }
        Ok(())
    }

    /// Absorbs a log of evolvements in order. Each element installs its
    /// snapshot, so the state ends at the log's replay; with the no-crypto
    /// backend no element can fail, and nothing is partially retained.
    pub fn apply_log(&mut self, log: Vec<EidDummyEvolvement>, backend: &EidDummyBackend) -> (r:
        Result<(), EidError>)
        ensures
            r is Ok,
            final(self)@ == replay(old(self)@, log_view(log@)),
    {
        let mut i: usize = 0;
        while i < log.len()
            invariant
                0 <= i <= log.len(),
                self@ == replay(old(self)@, log_view(log@).take(i as int)),
            decreases log.len() - i,
        {
            self.members = clone_members(log[i].members());
            proof {
                let lv = log_view(log@);
                assert(lv.take(i + 1).last() == lv[i as int]);
            }
            i += 1;
        }
        proof {
            assert(log_view(log@).take(log@.len() as int) =~= log_view(log@));
        }
        Ok(())
    }

    /// The current members, as a snapshot; a pure read.
    pub fn get_members(&self) -> (r: Vec<Member>)
        ensures
            members_view(r@) == self@,
    {
        clone_members(&self.members)
    }

    /// Membership test: whether some current member holds `client`'s public
    /// key. Lookups go by key material alone.
    pub fn verify_client(&self, client: &Member) -> (r: Result<bool, EidError>)
        ensures
            r is Ok,
            r->Ok_0 == contains_pk(self@, client@.pk),
    {
        Ok(vec_contains_pk(&self.members, &client.pk))
    }

    /// Turns an exported state into the value a transcript is seeded with.
    /// The in-memory state holds only public membership information, so it is
    /// its own transcript state.
    pub fn into_transcript_state(self, backend: &EidDummyBackend) -> (r: Result<
        EidDummyState,
        EidError,
    >)
        ensures
            r is Ok,
            r->Ok_0@ == self@,
    {
        Ok(self)
    }
}

} // verus!
