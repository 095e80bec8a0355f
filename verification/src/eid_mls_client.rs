//! The client of the group-messaging deployment, as far as it reaches without
//! the cryptographic engine: it is created at genesis, absorbs evolvements —
//! its own or received ones — into its committed state under successor
//! validation, answers membership queries, and exports the secret-free seed
//! an independent transcript audits it by. Proposing new evolvements (add,
//! remove, update) is the engine's part: a proposal there is a signed commit
//! of the group-messaging layer, and this library receives its outcome as an
//! [`EidMlsEvolvement`] with the engine's payload kept opaque.

use vstd::prelude::*;
use crate::eid_mls_transcript::{EidMlsEvolvement, EidMlsTranscriptState};
use crate::evolvement::{check_successor, valid_successor_of};
use crate::membership::{clone_members, distinct_pks, members_view};
use crate::types::{EidError, Member, MemberView};

verus! {

/// The live actor of the group-messaging deployment, reduced to its public
/// membership state; group secrets live in the engine, not here.
#[derive(Debug)]
pub struct EidMlsClient {
    pub(crate) members: Vec<Member>,
}

impl View for EidMlsClient {
    type V = Seq<MemberView>;

    closed spec fn view(&self) -> Seq<MemberView> {
        members_view(self.members@)
    }
}

impl EidMlsClient {
    /// A client is well formed when no two of its members hold the same key.
    /// Genesis establishes this and every commit preserves it.
    pub open spec fn wf(&self) -> bool {
        distinct_pks(self@)
    }

    /// Genesis: a client whose state contains exactly the creator as sole
    /// member. Empty identity material is invalid.
    pub fn create_eid(identity: Vec<u8>) -> (r: Result<EidMlsClient, EidError>)
        ensures
            r is Ok <==> identity@.len() > 0,
            r is Err ==> r->Err_0 == EidError::CreationError,
            r is Ok ==> ({
                let c = r->Ok_0;
                &&& c.wf()
                &&& c@ == seq![MemberView { id: identity@, pk: identity@ }]
            }),
    {
        if identity.len() == 0 {
            return Err(EidError::CreationError);
        }
        let creator = Member::new(identity);
        let ghost iv = creator@.id;
        let mut members: Vec<Member> = Vec::new();
        members.push(creator);
        let c = EidMlsClient { members };
        proof {
            assert(c@ =~= seq![MemberView { id: iv, pk: iv }]);
        }
        Ok(c)
    }

    /// Commits an evolvement the engine produced — here or at a peer — to
    /// this client's own state, after checking that it validly succeeds the
    /// current member set. An evolvement whose predecessor does not match the
    /// current state is rejected and the state is unchanged.
    pub fn evolve(&mut self, evolvement: EidMlsEvolvement) -> (r: Result<(), EidError>)
        requires
            old(self).wf(),
        ensures
            final(self).wf(),
            r is Ok <==> valid_successor_of(old(self)@, evolvement@.protocol()),
            r is Err ==> *final(self) == *old(self) && r->Err_0 == EidError::ApplyError,
            r is Ok ==> final(self)@ == evolvement@.members,
    {
        if !check_successor(&self.members, evolvement.kind, &evolvement.members) {
            return Err(EidError::ApplyError);
        }
        self.members = clone_members(&evolvement.members);
        Ok(())
    }

    /// The current members, as a snapshot; a pure read.
    pub fn get_members(&self) -> (r: Result<Vec<Member>, EidError>)
        ensures
            r is Ok,
            members_view(r->Ok_0@) == self@,
    {
        Ok(clone_members(&self.members))
    }

    /// The value an independent transcript is seeded with: the client's
    /// public membership view, sufficient to validate future evolvements and
    /// free of private key material.
    pub fn export_transcript_state(&self) -> (r: EidMlsTranscriptState)
        ensures
            r@ == self@,
    {
        EidMlsTranscriptState { members: clone_members(&self.members) }
    }
}

} // verus!
