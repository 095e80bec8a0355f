//! The in-memory evolvement: one immutable record of a committed membership
//! transition. It carries the membership snapshot the transition results in
//! and, for an add, the payload the invited party needs to join (here, the
//! invited member itself).

use vstd::prelude::*;
use crate::evolvement::{check_successor, valid_successor_of, EvolvementKind, EvolvementView};
use crate::membership::{clone_members, members_view};
use crate::types::{Member, MemberView};

verus! {

/// One committed membership transition of the in-memory deployment, immutable
/// once produced by a client operation.
#[derive(Debug)]
pub enum EidDummyEvolvement {
    /// One new party joined; `invited` is the payload handed to it.
    Add { members: Vec<Member>, invited: Member },
    /// One member left.
    Remove { members: Vec<Member> },
    /// One member refreshed its key material.
    Update { members: Vec<Member> },
}

/// The mathematical content of such an evolvement: its protocol content and,
/// for an add, the payload handed to the invited party.
pub ghost struct DummyEvolvementView {
    pub kind: EvolvementKind,
    pub members: Seq<MemberView>,
    pub invited: Option<MemberView>,
}

impl DummyEvolvementView {
    /// The part of the evolvement successor validation reasons about.
    pub open spec fn protocol(self) -> EvolvementView {
        EvolvementView { kind: self.kind, members: self.members }
    }
}

impl View for EidDummyEvolvement {
    type V = DummyEvolvementView;

    open spec fn view(&self) -> DummyEvolvementView {
        match self {
            EidDummyEvolvement::Add { members, invited } => DummyEvolvementView {
                kind: EvolvementKind::Add,
                members: members_view(members@),
                invited: Option::Some(invited@),
            },
            EidDummyEvolvement::Remove { members } => DummyEvolvementView {
                kind: EvolvementKind::Remove,
                members: members_view(members@),
                invited: Option::None,
            },
            EidDummyEvolvement::Update { members } => DummyEvolvementView {
                kind: EvolvementKind::Update,
                members: members_view(members@),
                invited: Option::None,
            },
        }
    }
}

/// The protocol content of an evolvement log, record by record.
pub open spec fn log_view(s: Seq<EidDummyEvolvement>) -> Seq<EvolvementView> {
    Seq::new(s.len(), |i: int| s[i]@.protocol())
}

impl EidDummyEvolvement {
    /// The membership snapshot this evolvement results in.
    pub fn members(&self) -> (r: &Vec<Member>)
        ensures
            members_view(r@) == self@.members,
    {
        match self {
            EidDummyEvolvement::Add { members, .. } => members,
            EidDummyEvolvement::Remove { members } => members,
            EidDummyEvolvement::Update { members } => members,
        }
    }

    /// The kind of transition this evolvement commits.
    pub fn kind(&self) -> (r: EvolvementKind)
        ensures
            r == self@.kind,
    {
        match self {
            EidDummyEvolvement::Add { .. } => EvolvementKind::Add,
            EidDummyEvolvement::Remove { .. } => EvolvementKind::Remove,
            EidDummyEvolvement::Update { .. } => EvolvementKind::Update,
        }
    }

    /// The chain-integrity check: whether `candidate` could have been produced
    /// by one legal transition of its declared kind from the member set this
    /// evolvement left behind. It reads only public snapshot information, so a
    /// party without group secrets can reject reordered, replayed or forged
    /// evolvements.
    pub fn is_valid_successor(&self, candidate: &EidDummyEvolvement) -> (r: bool)
        ensures
            r == valid_successor_of(self@.members, candidate@.protocol()),
    {
        check_successor(self.members(), candidate.kind(), candidate.members())
    }
}

impl Clone for EidDummyEvolvement {
    fn clone(&self) -> (r: Self)
        ensures
            r@ == self@,
    {
        match self {
            EidDummyEvolvement::Add { members, invited } => EidDummyEvolvement::Add {
                members: clone_members(members),
                invited: invited.clone(),
            },
            EidDummyEvolvement::Remove { members } => EidDummyEvolvement::Remove {
                members: clone_members(members),
            },
            EidDummyEvolvement::Update { members } => EidDummyEvolvement::Update {
                members: clone_members(members),
            },
        }
    }
}

} // verus!
