//! The in-memory client: the live actor that proposes membership evolvements
//! (add, remove, update-own-key) and applies incoming ones to its own state.
//! A proposal never touches the client's committed state — the caller commits
//! it separately through `evolve` — and every commit is guarded by successor
//! validation, so the client's member set always has distinct keys.

use vstd::prelude::*;
use vstd::pervasive::VecAdditionalExecFns;
use crate::eid_dummy_backend::EidDummyBackend;
use crate::eid_dummy_evolvement::EidDummyEvolvement;
use crate::eid_dummy_state::EidDummyState;
use crate::evolvement::{check_successor, valid_successor_of, EvolvementKind};
use crate::membership::{
    clone_members, contains_id, contains_member, contains_pk, distinct_pks, find_first_id,
    first_id_index, lemma_first_id_index, lemma_remove_pk, members_view, remove_pk,
    remove_pk_members, vec_contains_pk,
};
use crate::types::{clone_bytes, EidError, Member, MemberView};

verus! {

/// The key material a no-crypto key refresh derives from the old: one byte is
/// appended, so the refreshed key always differs from the one it replaces.
pub open spec fn refreshed_pk(pk: Seq<u8>) -> Seq<u8> {
    pk.push(0u8)
}

/// The live, identity-holding actor of the in-memory deployment.
#[derive(Debug)]
pub struct EidDummyClient {
    pub(crate) state: EidDummyState,
    pub(crate) own_id: Vec<u8>,
}

/// The mathematical content of a client: its current member set and the
/// stable identity it acts under.
pub ghost struct ClientView {
    pub members: Seq<MemberView>,
    pub own_id: Seq<u8>,
}

impl View for EidDummyClient {
    type V = ClientView;

    closed spec fn view(&self) -> ClientView {
        ClientView { members: self.state@, own_id: self.own_id@ }
    }
}

impl EidDummyClient {
    /// A client is well formed when no two of its members hold the same key.
    /// Genesis establishes this and every commit path preserves it.
    pub open spec fn wf(&self) -> bool {
        distinct_pks(self@.members)
    }

    /// Genesis: a client whose state holds exactly the creator, known under
    /// the given identity material. Empty identity material is invalid.
    pub fn create_eid(identity: Vec<u8>, backend: &EidDummyBackend) -> (r: Result<
        EidDummyClient,
        EidError,
    >)
        ensures
            r is Ok <==> identity@.len() > 0,
            r is Err ==> r->Err_0 == EidError::CreationError,
            r is Ok ==> ({
                let c = r->Ok_0;
                &&& c.wf()
                &&& c@.own_id == identity@
                &&& c@.members == seq![MemberView { id: identity@, pk: identity@ }]
            }),
    {
        if identity.len() == 0 {
            return Err(EidError::CreationError);
        }
        let own_id = clone_bytes(&identity);
        let creator = Member::new(identity);
        let ghost iv = creator@.id;
        let mut members: Vec<Member> = Vec::new();
        members.push(creator);
        let c = EidDummyClient { state: EidDummyState { members }, own_id };
        proof {
            assert(c@.members =~= seq![MemberView { id: iv, pk: iv }]);
        }
        Ok(c)
    }

    /// Proposes adding a new member known under `identity`. The proposal does
    /// not change the client's own state; the returned evolvement extends the
    /// current member set by the invited member and validly succeeds it. An
    /// identity that is already a member is rejected, not silently ignored,
    /// as is empty identity material.
    pub fn add(&mut self, identity: Vec<u8>, backend: &EidDummyBackend) -> (r: Result<
        EidDummyEvolvement,
        EidError,
    >)
        requires
            old(self).wf(),
        ensures
            *final(self) == *old(self),
            r is Ok <==> (identity@.len() > 0 && !contains_pk(old(self)@.members, identity@)),
            r is Err ==> r->Err_0 == EidError::AddMemberError,
            r is Ok ==> ({
                let e = r->Ok_0;
                &&& e@.kind == EvolvementKind::Add
                &&& e@.members == old(self)@.members.push(
                    MemberView { id: identity@, pk: identity@ },
                )
                &&& e@.invited == Some(MemberView { id: identity@, pk: identity@ })
                &&& valid_successor_of(old(self)@.members, e@.protocol())
            }),
    {
        if identity.len() == 0 {
            return Err(EidError::AddMemberError);
        }
        if vec_contains_pk(&self.state.members, &identity) {
            return Err(EidError::AddMemberError);
        }
        let invited = Member::new(identity);
        let mut members = clone_members(&self.state.members);
        members.push(invited.clone());
        proof {
            let cur = self@.members;
            let res = members_view(members@);
            let nm = invited@;
            assert(res =~= cur.push(nm));
            assert forall|i: int, j: int| 0 <= i < j < res.len() implies res[i].pk
                != res[j].pk by {
                if j == cur.len() {
                    assert(res[i] == cur[i]);
                    assert(!contains_pk(cur, nm.pk));
                }
            }
            assert forall|i: int| 0 <= i < cur.len() implies contains_member(res, cur[i]) by {
                assert(res[i] == cur[i]);
            }
            assert forall|j: int| 0 <= j < res.len() implies contains_member(cur, res[j])
                || !contains_pk(cur, res[j].pk) by {
                if j < cur.len() {
                    assert(cur[j] == res[j]);
                }
            }
        }
        Ok(EidDummyEvolvement::Add { members, invited })
    }

    /// Proposes removing an existing member, looked up by its current key
    /// material. The proposal does not change the client's own state; the
    /// returned evolvement drops exactly that member and validly succeeds the
    /// current member set. A party that is not a member is rejected.
    pub fn remove(&mut self, member: &Member, backend: &EidDummyBackend) -> (r: Result<
        EidDummyEvolvement,
        EidError,
    >)
        requires
            old(self).wf(),
        ensures
            *final(self) == *old(self),
            r is Ok <==> contains_pk(old(self)@.members, member@.pk),
            r is Err ==> r->Err_0 == EidError::InvalidMemberError,
            r is Ok ==> ({
                let e = r->Ok_0;
                &&& e@.kind == EvolvementKind::Remove
                &&& e@.members == remove_pk(old(self)@.members, member@.pk)
                &&& valid_successor_of(old(self)@.members, e@.protocol())
            }),
    {
        if !vec_contains_pk(&self.state.members, &member.pk) {
            return Err(EidError::InvalidMemberError);
        }
        let members = remove_pk_members(&self.state.members, &member.pk);
        proof {
            lemma_remove_pk(self@.members, member@.pk);
        }
        Ok(EidDummyEvolvement::Remove { members })
    }

    /// Proposes refreshing the caller's own key material: the member tracked
    /// first under the client's identity gets a derived key, and group size
    /// and tracked identities stay. The proposal does not change the client's
    /// own state; the returned evolvement validly succeeds the current member
    /// set. The refresh is rejected when the client no longer has a member in
    /// the group, or when the derived key would collide with a key already
    /// held — the failure a cryptographic backend reports as a rejected key
    /// refresh.
    pub fn update(&mut self, backend: &EidDummyBackend) -> (r: Result<
        EidDummyEvolvement,
        EidError,
    >)
        requires
            old(self).wf(),
        ensures
            *final(self) == *old(self),
            r is Ok <==> (contains_id(old(self)@.members, old(self)@.own_id) && !contains_pk(
                old(self)@.members,
                refreshed_pk(
                    old(self)@.members[first_id_index(old(self)@.members, old(self)@.own_id)].pk,
                ),
            )),
            r is Err ==> r->Err_0 == EidError::UpdateMemberError,
            r is Ok ==> ({
                let e = r->Ok_0;
                let cur = old(self)@.members;
                let k = first_id_index(cur, old(self)@.own_id);
                &&& e@.kind == EvolvementKind::Update
                &&& e@.members == cur.update(
                    k,
                    MemberView { id: cur[k].id, pk: refreshed_pk(cur[k].pk) },
                )
                &&& valid_successor_of(cur, e@.protocol())
            }),
    {
        let ghost cur = self@.members;
        let ghost oid = self@.own_id;
        let i: usize = match find_first_id(&self.state.members, &self.own_id) {
            Some(i) => i,
            None => {
                return Err(EidError::UpdateMemberError);
            },
        };
        proof {
            lemma_first_id_index(cur, oid, i as int);
        }
        let mut npk = clone_bytes(&self.state.members[i].pk);
        npk.push(0u8);
        if vec_contains_pk(&self.state.members, &npk) {
            return Err(EidError::UpdateMemberError);
        }
        let nm = Member { id: clone_bytes(&self.state.members[i].id), pk: npk };
        let mut members = clone_members(&self.state.members);
        members.set(i, nm);
        proof {
            let k = i as int;
            let res = members_view(members@);
            let goal = cur.update(k, MemberView { id: cur[k].id, pk: refreshed_pk(cur[k].pk) });
            assert(res =~= goal);
            assert forall|a: int, b: int| 0 <= a < b < res.len() implies res[a].pk != res[b].pk by {
                if a != k && b != k {
                    assert(res[a] == cur[a] && res[b] == cur[b]);
                } else {
                    assert(!contains_pk(cur, res[k].pk));
                }
            }
            assert forall|j: int| 0 <= j < res.len() implies contains_id(cur, res[j].id) by {
                if j != k {
                    assert(res[j] == cur[j]);
                } else {
                    assert(res[k].id == cur[k].id);
                }
            }
            assert forall|j: int| 0 <= j < cur.len() implies contains_id(res, cur[j].id) by {
                if j != k {
                    assert(res[j] == cur[j]);
                } else {
                    assert(res[k].id == cur[k].id);
                }
            }
            assert(!contains_member(cur, res[k]));
        }
        Ok(EidDummyEvolvement::Update { members })
    }

    /// Commits an evolvement — produced by this client or received from a
    /// peer — to this client's own state, after checking that it validly
    /// succeeds the current member set. An evolvement whose predecessor does
    /// not match the current state is rejected and the state is unchanged.
    pub fn evolve(&mut self, evolvement: EidDummyEvolvement, backend: &EidDummyBackend) -> (r:
        Result<(), EidError>)
        requires
            old(self).wf(),
        ensures
            final(self).wf(),
            final(self)@.own_id == old(self)@.own_id,
            r is Ok <==> valid_successor_of(old(self)@.members, evolvement@.protocol()),
            r is Err ==> *final(self) == *old(self) && r->Err_0 == EidError::ApplyError,
            r is Ok ==> final(self)@.members == evolvement@.members,
    {
        if !check_successor(&self.state.members, evolvement.kind(), evolvement.members()) {
            return Err(EidError::ApplyError);
        }
        let applied = self.state.apply(evolvement, backend);
        if applied.is_err() {
            proof {
                assert(false);
            }
            return Err(EidError::ApplyError);
        }
        Ok(())
    }

    /// The current members, as a snapshot; a pure read.
    pub fn get_members(&self) -> (r: Result<Vec<Member>, EidError>)
        ensures
            r is Ok,
            members_view(r->Ok_0@) == self@.members,
    {
        Ok(self.state.get_members())
    }

    /// The value an independent transcript is seeded with: the client's
    /// public membership view, and nothing of its identity or key secrets.
    pub fn export_transcript_state(&self) -> (r: EidDummyState)
        ensures
            r@ == self@.members,
    {
        self.state.clone()
    }
}

} // verus!
