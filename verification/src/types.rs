//! Shared value types of the EID core: the error taxonomy and the member
//! handle that every state, evolvement and transcript speaks of.

use vstd::prelude::*;

verus! {

/// Errors an EID operation can report. Every fallible operation returns one of
/// these to its immediate caller; the core performs no retries and no silent
/// recovery.
#[derive(Clone, Copy, Debug, PartialEq, Eq, Structural)]
pub enum EidError {
    /// Genesis failed: the creator's identity material is invalid.
    CreationError,
    /// An add proposal was rejected: the identity is already a member, or the
    /// identity material is invalid.
    AddMemberError,
    /// A remove proposal was rejected by the backend.
    RemoveMemberError,
    /// A remove proposal named a party that is not currently a member.
    InvalidMemberError,
    /// An update proposal was rejected: the caller has no member in the group,
    /// or the refreshed key material collides with an existing member's key.
    UpdateMemberError,
    /// A state could not absorb an evolvement: the evolvement is not a valid
    /// successor of the state's current member set.
    ApplyError,
    /// Lifecycle misuse: an operation needs an initialized state.
    StateNotInitialized,
    /// Lifecycle misuse: an operation would initialize a state twice.
    StateAlreadyInitialized,
}

/// One group participant. A member carries a stable identity (the public-key
/// bytes it was first known under) and its current public-key material, which
/// an update replaces. Equality and membership lookups go by the current
/// public-key bytes alone.
#[derive(Debug)]
pub struct Member {
    pub id: Vec<u8>,
    pub pk: Vec<u8>,
}

/// The mathematical content of a `Member`: its stable identity bytes and its
/// current public-key bytes.
pub ghost struct MemberView {
    pub id: Seq<u8>,
    pub pk: Seq<u8>,
}

impl View for Member {
    type V = MemberView;

    open spec fn view(&self) -> MemberView {
        MemberView { id: self.id@, pk: self.pk@ }
    }
}

/// Byte-for-byte comparison of two key strings.
pub(crate) fn bytes_eq(a: &Vec<u8>, b: &Vec<u8>) -> (r: bool)
    ensures
        r == (a@ == b@),
{
    if a.len() != b.len() {
        return false;
    }
    let mut i: usize = 0;
    while i < a.len()
        invariant
            0 <= i <= a.len(),
            a.len() == b.len(),
            forall|k: int| 0 <= k < i ==> a@[k] == b@[k],
        decreases a.len() - i,
    {
        if a[i] != b[i] {
            return false;
        }
        i += 1;
    }
    proof {
        assert(a@ =~= b@);
    }
    true
}

/// An owned copy of a key string.
pub(crate) fn clone_bytes(v: &Vec<u8>) -> (r: Vec<u8>)
    ensures
        r@ == v@,
{
    let mut r: Vec<u8> = Vec::new();
    let mut i: usize = 0;
    while i < v.len()
        invariant
            0 <= i <= v.len(),
            r@ == v@.subrange(0, i as int),
        decreases v.len() - i,
    {
        r.push(v[i]);
        proof {
            assert(v@.subrange(0, i as int).push(v@[i as int]) =~= v@.subrange(0, i + 1));
        }
        i += 1;
    }
    proof {
        assert(v@.subrange(0, v@.len() as int) =~= v@);
    }
    r
}

impl Member {
    /// A new member known under the given public-key bytes; its stable
    /// identity starts out equal to them.
    pub fn new(pk: Vec<u8>) -> (r: Member)
        ensures
            r@ == (MemberView { id: pk@, pk: pk@ }),
    {
        let id = clone_bytes(&pk);
        Member { id, pk }
    }

    /// A member whose stable identity and current key material are given
    /// separately, as a deserialized or replayed record carries them.
    pub fn from_parts(id: Vec<u8>, pk: Vec<u8>) -> (r: Member)
        ensures
            r@ == (MemberView { id: id@, pk: pk@ }),
    {
        Member { id, pk }
    }

    /// The member's current public-key bytes.
    pub fn pk(&self) -> (r: Vec<u8>)
        ensures
            r@ == self@.pk,
    {
        clone_bytes(&self.pk)
    }

    /// The member's stable identity bytes.
    pub fn id(&self) -> (r: Vec<u8>)
        ensures
            r@ == self@.id,
    {
        clone_bytes(&self.id)
    }
}

impl EidError {
    /// A short name for the error kind, in place of a display formatter.
    pub fn description(&self) -> (r: &'static str)
        ensures
            self is CreationError ==> r@ == "CreationError"@,
            self is AddMemberError ==> r@ == "AddMemberError"@,
            self is RemoveMemberError ==> r@ == "RemoveMemberError"@,
            self is InvalidMemberError ==> r@ == "InvalidMemberError"@,
            self is UpdateMemberError ==> r@ == "UpdateMemberError"@,
            self is ApplyError ==> r@ == "ApplyError"@,
            self is StateNotInitialized ==> r@ == "StateNotInitialized"@,
            self is StateAlreadyInitialized ==> r@ == "StateAlreadyInitialized"@,
    {
        match self {
            EidError::CreationError => "CreationError",
            EidError::AddMemberError => "AddMemberError",
            EidError::RemoveMemberError => "RemoveMemberError",
            EidError::InvalidMemberError => "InvalidMemberError",
            EidError::UpdateMemberError => "UpdateMemberError",
            EidError::ApplyError => "ApplyError",
            EidError::StateNotInitialized => "StateNotInitialized",
            EidError::StateAlreadyInitialized => "StateAlreadyInitialized",
        }
    }
}

impl Clone for Member {
    fn clone(&self) -> (r: Self)
        ensures
            r@ == self@,
    {
        Member { id: clone_bytes(&self.id), pk: clone_bytes(&self.pk) }
    }
}

impl PartialEq for Member {
    fn eq(&self, other: &Member) -> (r: bool) {
        bytes_eq(&self.pk, &other.pk)
    }
}

impl vstd::std_specs::cmp::PartialEqSpecImpl for Member {
    open spec fn obeys_eq_spec() -> bool {
        true
    }

    open spec fn eq_spec(&self, other: &Member) -> bool {
        self@.pk == other@.pk
    }
}

} // verus!
