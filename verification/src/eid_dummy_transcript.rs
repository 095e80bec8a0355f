//! The in-memory transcript: an independent, secret-free membership tracker.
//! Seeded from one client's exported state — the one snapshot it trusts — it
//! replays an externally supplied evolvement log, rejecting any element that
//! does not validly succeed the member set built so far. Its current state
//! always equals the replay of its append-only log from the trusted state, so
//! a non-member auditor can cross-check a client's live view.

use vstd::prelude::*;
use crate::eid_dummy_backend::EidDummyBackend;
use crate::eid_dummy_evolvement::{log_view, EidDummyEvolvement};
use crate::eid_dummy_state::EidDummyState;
use crate::evolvement::{
    check_successor, lemma_valid_chain_prefix, lemma_valid_chain_push, replay, valid_chain,
    valid_successor_of, EvolvementView,
};
use crate::membership::{clone_members, members_view};
use crate::types::{EidError, Member, MemberView};

verus! {

/// The audit view: a trusted snapshot, the state replayed from it, and the
/// append-only log of evolvements absorbed since.
#[derive(Debug)]
pub struct EidDummyTranscript {
    trusted_state: EidDummyState,
    current_state: EidDummyState,
    log: Vec<EidDummyEvolvement>,
}

/// The mathematical content of a transcript: the trusted member set, the
/// current member set, and the protocol content of the log.
pub ghost struct TranscriptView {
    pub trusted: Seq<MemberView>,
    pub current: Seq<MemberView>,
    pub log: Seq<EvolvementView>,
}

impl View for EidDummyTranscript {
    type V = TranscriptView;

    closed spec fn view(&self) -> TranscriptView {
        TranscriptView {
            trusted: self.trusted_state@,
            current: self.current_state@,
            log: log_view(self.log@),
        }
    }
}

impl EidDummyTranscript {
    /// The transcript invariant: the log is a valid successor chain from the
    /// trusted state, and the current state is exactly its replay.
    pub open spec fn wf(&self) -> bool {
        &&& valid_chain(self@.trusted, self@.log)
        &&& self@.current == replay(self@.trusted, self@.log)
    }

    /// A transcript seeded from an exported trusted state, with a pre-existing
    /// log replayed immediately. Construction fails, and nothing is built, if
    /// any element of the log fails successor validation against the member
    /// set left by the elements before it.
    pub fn new(
        trusted_state: EidDummyState,
        log: Vec<EidDummyEvolvement>,
        backend: &EidDummyBackend,
    ) -> (r: Result<EidDummyTranscript, EidError>)
        ensures
            r is Ok <==> valid_chain(trusted_state@, log_view(log@)),
            r is Err ==> r->Err_0 == EidError::ApplyError,
            r is Ok ==> ({
                let t = r->Ok_0;
                &&& t.wf()
                &&& t@.trusted == trusted_state@
                &&& t@.log == log_view(log@)
                &&& t@.current == replay(trusted_state@, log_view(log@))
            }),
    {
        let ghost tv = trusted_state@;
        let ghost lv = log_view(log@);
        let mut current = trusted_state.clone();
        let mut i: usize = 0;
        while i < log.len()
            invariant
                0 <= i <= log.len(),
                lv == log_view(log@),
                tv == trusted_state@,
                valid_chain(tv, lv.take(i as int)),
                current@ == replay(tv, lv.take(i as int)),
            decreases log.len() - i,
        {
            let e = &log[i];
            if !check_successor(&current.members, e.kind(), e.members()) {
                proof {
                    if valid_chain(tv, lv) {
                        lemma_valid_chain_prefix(tv, lv, i as int);
                    }
                }
                return Err(EidError::ApplyError);
            }
            current.members = clone_members(e.members());
            proof {
                lemma_valid_chain_push(tv, lv.take(i as int), lv[i as int]);
                assert(lv.take(i as int).push(lv[i as int]) =~= lv.take(i + 1));
            }
            i += 1;
        }
        proof {
            assert(lv.take(log@.len() as int) =~= lv);
        }
        Ok(EidDummyTranscript { trusted_state, current_state: current, log })
    }

    /// Absorbs one more evolvement: validates it against the current member
    /// set, installs its snapshot, and appends it to the log. An evolvement
    /// that does not validly succeed the current state is rejected and the
    /// transcript is unchanged.
    pub fn add_evolvement(
        &mut self,
        evolvement: EidDummyEvolvement,
        backend: &EidDummyBackend,
    ) -> (r: Result<(), EidError>)
        requires
            old(self).wf(),
        ensures
            final(self).wf(),
            final(self)@.trusted == old(self)@.trusted,
            r is Ok <==> valid_successor_of(old(self)@.current, evolvement@.protocol()),
            r is Err ==> *final(self) == *old(self) && r->Err_0 == EidError::ApplyError,
            r is Ok ==> final(self)@.log == old(self)@.log.push(evolvement@.protocol())
                && final(self)@.current == evolvement@.members,
    {
        if !check_successor(
            &self.current_state.members,
            evolvement.kind(),
            evolvement.members(),
        ) {
            return Err(EidError::ApplyError);
        }
        self.current_state.members = clone_members(evolvement.members());
        proof {
            lemma_valid_chain_push(self@.trusted, self@.log, evolvement@.protocol());
        }
        self.log.push(evolvement);
        proof {
            assert(log_view(self.log@) =~= log_view(old(self).log@).push(
                self.log@.last()@.protocol(),
            ));
        }
        Ok(())
    }

    /// The snapshot this transcript was seeded with and trusts.
    pub fn trusted_state(&self) -> (r: EidDummyState)
        ensures
            r@ == self@.trusted,
    {
        self.trusted_state.clone()
    }

    /// The full append-only history, for external audit or replay.
    pub fn log(&self) -> (r: Vec<EidDummyEvolvement>)
        ensures
            log_view(r@) == self@.log,
    {
        let mut r: Vec<EidDummyEvolvement> = Vec::new();
        let mut i: usize = 0;
        while i < self.log.len()
            invariant
                0 <= i <= self.log.len(),
                r@.len() == i,
                forall|k: int| 0 <= k < i ==> r@[k]@ == self.log@[k]@,
            decreases self.log.len() - i,
        {
            r.push(self.log[i].clone());
            i += 1;
        }
        proof {
            assert(log_view(r@) =~= log_view(self.log@));
        }
        r
    }

    /// The members the replayed log currently yields; a pure read.
    pub fn get_members(&self) -> (r: Vec<Member>)
        ensures
            members_view(r@) == self@.current,
    {
        self.current_state.get_members()
    }
}

} // verus!
