//! The transcript of the group-messaging deployment. An evolvement there is
//! produced by a cryptographic engine and carries its framed message — and,
//! for an add, a welcome artifact — as opaque payload; the transcript never
//! inspects that payload beyond the resulting member set the evolvement
//! declares, so the audit stays secret-free: it validates every step with the
//! same public successor rule and replays the declared snapshots.

use vstd::prelude::*;
use crate::evolvement::{
    check_successor, lemma_valid_chain_concat, lemma_valid_chain_prefix, lemma_valid_chain_push,
    replay, valid_chain,
    valid_successor_of, EvolvementKind, EvolvementView,
};
use crate::membership::{clone_members, members_view};
use crate::types::{clone_bytes, EidError, Member, MemberView};

verus! {

/// One committed membership transition of the group-messaging deployment:
/// the declared transition kind and resulting member set, plus the engine's
/// framed message bytes and, for an add, the welcome artifact the invited
/// party needs.
#[derive(Debug)]
pub struct EidMlsEvolvement {
    pub kind: EvolvementKind,
    pub members: Vec<Member>,
    pub message: Vec<u8>,
    pub welcome: Option<Vec<u8>>,
}

/// The mathematical content of such an evolvement: its protocol content and
/// its opaque payload bytes.
pub ghost struct MlsEvolvementView {
    pub kind: EvolvementKind,
    pub members: Seq<MemberView>,
    pub message: Seq<u8>,
    pub welcome: Option<Seq<u8>>,
}

impl MlsEvolvementView {
    /// The part of the evolvement the audit reasons about.
    pub open spec fn protocol(self) -> EvolvementView {
        EvolvementView { kind: self.kind, members: self.members }
    }
}

impl View for EidMlsEvolvement {
    type V = MlsEvolvementView;

    open spec fn view(&self) -> MlsEvolvementView {
        MlsEvolvementView {
            kind: self.kind,
            members: members_view(self.members@),
            message: self.message@,
            welcome: match self.welcome {
                Option::Some(w) => Option::Some(w@),
                Option::None => Option::None,
            },
        }
    }
}

/// The protocol content of an evolvement log, record by record.
pub open spec fn mls_log_view(s: Seq<EidMlsEvolvement>) -> Seq<EvolvementView> {
    Seq::new(s.len(), |i: int| s[i]@.protocol())
}

impl EidMlsEvolvement {
    /// The chain-integrity check, on declared snapshots alone: whether
    /// `candidate` could follow the member set this evolvement left behind.
    pub fn is_valid_successor(&self, candidate: &EidMlsEvolvement) -> (r: bool)
        ensures
            r == valid_successor_of(self@.members, candidate@.protocol()),
    {
        check_successor(&self.members, candidate.kind, &candidate.members)
    }
}

impl Clone for EidMlsEvolvement {
    fn clone(&self) -> (r: Self)
        ensures
            r@ == self@,
    {
        EidMlsEvolvement {
            kind: self.kind,
            members: clone_members(&self.members),
            message: clone_bytes(&self.message),
            welcome: match &self.welcome {
                Option::Some(w) => Option::Some(clone_bytes(w)),
                Option::None => Option::None,
            },
        }
    }
}

/// The public group information a transcript of this deployment is seeded
/// with and tracks: the member set, free of any group secret.
#[derive(Debug)]
pub struct EidMlsTranscriptState {
    pub members: Vec<Member>,
}

impl View for EidMlsTranscriptState {
    type V = Seq<MemberView>;

    open spec fn view(&self) -> Seq<MemberView> {
        members_view(self.members@)
    }
}

impl Clone for EidMlsTranscriptState {
    fn clone(&self) -> (r: Self)
        ensures
            r@ == self@,
    {
        EidMlsTranscriptState { members: clone_members(&self.members) }
    }
}

impl EidMlsTranscriptState {
    /// A transcript state holding exactly the given members.
    pub fn new(members: Vec<Member>) -> (r: EidMlsTranscriptState)
        ensures
            r@ == members_view(members@),
    {
        EidMlsTranscriptState { members }
    }

    /// The current members, as a snapshot; a pure read.
    pub fn get_members(&self) -> (r: Vec<Member>)
        ensures
            members_view(r@) == self@,
    {
        clone_members(&self.members)
    }
}

/// The audit view of the group-messaging deployment: a trusted snapshot, the
/// state replayed from it, and the append-only log absorbed since.
pub struct EidMlsTranscript {
    trusted_state: EidMlsTranscriptState,
    current_state: EidMlsTranscriptState,
    log: Vec<EidMlsEvolvement>,
}

/// The mathematical content of the transcript.
pub ghost struct MlsTranscriptView {
    pub trusted: Seq<MemberView>,
    pub current: Seq<MemberView>,
    pub log: Seq<EvolvementView>,
}

impl View for EidMlsTranscript {
    type V = MlsTranscriptView;

    closed spec fn view(&self) -> MlsTranscriptView {
        MlsTranscriptView {
            trusted: self.trusted_state@,
            current: self.current_state@,
            log: mls_log_view(self.log@),
        }
    }
}

impl EidMlsTranscript {
    /// The transcript invariant: the log is a valid successor chain from the
    /// trusted state, and the current state is exactly its replay.
    pub open spec fn wf(&self) -> bool {
        &&& valid_chain(self@.trusted, self@.log)
        &&& self@.current == replay(self@.trusted, self@.log)
    }

    /// A transcript seeded from an exported trusted state, with a
    /// pre-existing log replayed immediately at construction; it fails, and
    /// nothing is built, if any element fails successor validation against
    /// the member set left by the elements before it.
    pub fn new(trusted_state: EidMlsTranscriptState, log: Vec<EidMlsEvolvement>) -> (r: Result<
        EidMlsTranscript,
        EidError,
    >)
        ensures
            r is Ok <==> valid_chain(trusted_state@, mls_log_view(log@)),
            r is Err ==> r->Err_0 == EidError::ApplyError,
            r is Ok ==> ({
                let t = r->Ok_0;
                &&& t.wf()
                &&& t@.trusted == trusted_state@
                &&& t@.log == mls_log_view(log@)
                &&& t@.current == replay(trusted_state@, mls_log_view(log@))
            }),
    {
        let current = trusted_state.clone();
        let mut transcript = EidMlsTranscript {
            trusted_state,
            current_state: current,
            log: Vec::new(),
        };
        proof {
            assert(mls_log_view(transcript.log@) =~= Seq::<EvolvementView>::empty());
        }
        match transcript.apply_log(log) {
            Ok(()) => Ok(transcript),
            Err(e) => Err(e),
        }
    }

    /// Absorbs a log of evolvements in order, each validated against the
    /// member set left by the one before. The first failing element makes the
    /// whole call fail and leaves the transcript unchanged: no prefix is
    /// silently committed.
    pub fn apply_log(&mut self, log: Vec<EidMlsEvolvement>) -> (r: Result<(), EidError>)
        requires
            old(self).wf(),
        ensures
            final(self).wf(),
            final(self)@.trusted == old(self)@.trusted,
            r is Ok <==> valid_chain(old(self)@.current, mls_log_view(log@)),
            r is Err ==> *final(self) == *old(self) && r->Err_0 == EidError::ApplyError,
            r is Ok ==> final(self)@.log == old(self)@.log + mls_log_view(log@)
                && final(self)@.current == replay(old(self)@.current, mls_log_view(log@)),
    {
        let ghost cv = self@.current;
        let ghost lv = mls_log_view(log@);
        let mut i: usize = 0;
        while i < log.len()
            invariant
                0 <= i <= log.len(),
                lv == mls_log_view(log@),
                cv == self@.current,
                valid_chain(cv, lv.take(i as int)),
                *self == *old(self),
                old(self).wf(),
            decreases log.len() - i,
        {
            let prev: &Vec<Member> = if i == 0 {
                &self.current_state.members
            } else {
                &log[i - 1].members
            };
            proof {
                if i > 0 {
                    assert(lv.take(i as int).last() == lv[i as int - 1]);
                }
                assert(members_view(prev@) == replay(cv, lv.take(i as int)));
            }
            if !check_successor(prev, log[i].kind, &log[i].members) {
                proof {
                    if valid_chain(cv, lv) {
                        lemma_valid_chain_prefix(cv, lv, i as int);
                    }
                }
                return Err(EidError::ApplyError);
            }
            proof {
                lemma_valid_chain_push(cv, lv.take(i as int), lv[i as int]);
                assert(lv.take(i as int).push(lv[i as int]) =~= lv.take(i + 1));
            }
            i += 1;
        }
        proof {
            assert(lv.take(log@.len() as int) =~= lv);
        }
        let ghost old_log = self@.log;
        if log.len() > 0 {
            self.current_state.members = clone_members(&log[log.len() - 1].members);
            proof {
                assert(lv.last() == lv[log@.len() - 1]);
            }
        }
        let mut rest = log;
        self.log.append(&mut rest);
        proof {
            assert(mls_log_view(self.log@) =~= old_log + lv);
            lemma_valid_chain_concat(self@.trusted, old_log, lv);
        }
        Ok(())
    }

    /// Absorbs one more evolvement: validates it against the current member
    /// set, installs its declared snapshot, and appends it to the log. An
    /// evolvement that does not validly succeed the current state is rejected
    /// and the transcript is unchanged.
    pub fn evolve(&mut self, evolvement: EidMlsEvolvement) -> (r: Result<(), EidError>)
        requires
            old(self).wf(),
        ensures
            final(self).wf(),
            final(self)@.trusted == old(self)@.trusted,
            r is Ok <==> valid_successor_of(old(self)@.current, evolvement@.protocol()),
            r is Err ==> *final(self) == *old(self) && r->Err_0 == EidError::ApplyError,
            r is Ok ==> final(self)@.log == old(self)@.log.push(evolvement@.protocol())
                && final(self)@.current == evolvement@.members,
    {
        if !check_successor(&self.current_state.members, evolvement.kind, &evolvement.members) {
            return Err(EidError::ApplyError);
        }
        self.current_state.members = clone_members(&evolvement.members);
        proof {
            lemma_valid_chain_push(self@.trusted, self@.log, evolvement@.protocol());
        }
        self.log.push(evolvement);
        proof {
            assert(mls_log_view(self.log@) =~= mls_log_view(old(self).log@).push(
                self.log@.last()@.protocol(),
            ));
        }
        Ok(())
    }

    /// The full append-only history, for external audit or replay.
    pub fn log(&self) -> (r: Vec<EidMlsEvolvement>)
        ensures
            mls_log_view(r@) == self@.log,
    {
        let mut r: Vec<EidMlsEvolvement> = Vec::new();
        let mut i: usize = 0;
        while i < self.log.len()
            invariant
                0 <= i <= self.log.len(),
                r@.len() == i,
                forall|k: int| 0 <= k < i ==> r@[k]@ == self.log@[k]@,
            decreases self.log.len() - i,
        {
            r.push(self.log[i].clone());
            i += 1;
        }
        proof {
            assert(mls_log_view(r@) =~= mls_log_view(self.log@));
        }
        r
    }

    /// The members the replayed log currently yields; a pure read.
    pub fn get_members(&self) -> (r: Vec<Member>)
        ensures
            members_view(r@) == self@.current,
    {
        self.current_state.get_members()
    }
}

} // verus!
