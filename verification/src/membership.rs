//! Member-list reasoning: the spec-level view of a member list and the
//! executable queries (lookup, distinctness, containment) that successor
//! validation and the client operations are built from. A member list has set
//! semantics: no duplicate keys, order irrelevant for membership truth.

use vstd::prelude::*;
use crate::types::{bytes_eq, Member, MemberView};

verus! {

/// The mathematical content of a member list.
pub open spec fn members_view(s: Seq<Member>) -> Seq<MemberView> {
    Seq::new(s.len(), |i: int| s[i]@)
}

/// Some member of `ms` currently holds the public key `pk`.
pub open spec fn contains_pk(ms: Seq<MemberView>, pk: Seq<u8>) -> bool {
    exists|i: int| 0 <= i < ms.len() && ms[i].pk == pk
}

/// Some member of `ms` is tracked under the stable identity `id`.
pub open spec fn contains_id(ms: Seq<MemberView>, id: Seq<u8>) -> bool {
    exists|i: int| 0 <= i < ms.len() && ms[i].id == id
}

/// `m` occurs in `ms`, identity and key material both equal.
pub open spec fn contains_member(ms: Seq<MemberView>, m: MemberView) -> bool {
    exists|i: int| 0 <= i < ms.len() && ms[i] == m
}

/// No two members of `ms` hold the same public key.
pub open spec fn distinct_pks(ms: Seq<MemberView>) -> bool {
    forall|i: int, j: int| 0 <= i < j < ms.len() ==> ms[i].pk != ms[j].pk
}

/// Whether `a` and `b` agree on identity and key material.
pub(crate) fn member_eq_full(a: &Member, b: &Member) -> (r: bool)
    ensures
        r == (a@ == b@),
{
    bytes_eq(&a.id, &b.id) && bytes_eq(&a.pk, &b.pk)
}

/// Whether some member of `v` holds the public key `pk`.
pub(crate) fn vec_contains_pk(v: &Vec<Member>, pk: &Vec<u8>) -> (r: bool)
    ensures
        r == contains_pk(members_view(v@), pk@),
{
    let mut i: usize = 0;
    while i < v.len()
        invariant
            0 <= i <= v.len(),
            forall|k: int| 0 <= k < i ==> members_view(v@)[k].pk != pk@,
        decreases v.len() - i,
    {
        if bytes_eq(&v[i].pk, pk) {
            proof {
                assert(members_view(v@)[i as int].pk == pk@);
            }
            return true;
        }
        i += 1;
    }
    false
}

/// Whether some member of `v` is tracked under the stable identity `id`.
pub(crate) fn vec_contains_id(v: &Vec<Member>, id: &Vec<u8>) -> (r: bool)
    ensures
        r == contains_id(members_view(v@), id@),
{
    let mut i: usize = 0;
    while i < v.len()
        invariant
            0 <= i <= v.len(),
            forall|k: int| 0 <= k < i ==> members_view(v@)[k].id != id@,
        decreases v.len() - i,
    {
        if bytes_eq(&v[i].id, id) {
            proof {
                assert(members_view(v@)[i as int].id == id@);
            }
            return true;
        }
        i += 1;
    }
    false
}

/// Whether `m` occurs in `v`, identity and key material both equal.
pub(crate) fn vec_contains_member(v: &Vec<Member>, m: &Member) -> (r: bool)
    ensures
        r == contains_member(members_view(v@), m@),
{
    let mut i: usize = 0;
    while i < v.len()
        invariant
            0 <= i <= v.len(),
            forall|k: int| 0 <= k < i ==> members_view(v@)[k] != m@,
        decreases v.len() - i,
    {
        if member_eq_full(&v[i], m) {
            proof {
                assert(members_view(v@)[i as int] == m@);
            }
            return true;
        }
        i += 1;
    }
    false
}

/// Whether every member of `a` occurs in `b` unchanged.
pub(crate) fn all_members_in(a: &Vec<Member>, b: &Vec<Member>) -> (r: bool)
    ensures
        r == (forall|i: int|
            0 <= i < a@.len() ==> contains_member(members_view(b@), members_view(a@)[i])),
{
    let mut i: usize = 0;
    while i < a.len()
        invariant
            0 <= i <= a.len(),
            forall|k: int| 0 <= k < i ==> contains_member(members_view(b@), members_view(a@)[k]),
        decreases a.len() - i,
    {
        if !vec_contains_member(b, &a[i]) {
            proof {
                assert(!contains_member(members_view(b@), members_view(a@)[i as int]));
            }
            return false;
        }
        i += 1;
    }
    true
}

/// Whether every member of `a` is tracked in `b` under its stable identity.
pub(crate) fn all_ids_in(a: &Vec<Member>, b: &Vec<Member>) -> (r: bool)
    ensures
        r == (forall|i: int|
            0 <= i < a@.len() ==> contains_id(members_view(b@), members_view(a@)[i].id)),
{
    let mut i: usize = 0;
    while i < a.len()
        invariant
            0 <= i <= a.len(),
            forall|k: int|
                0 <= k < i ==> contains_id(members_view(b@), members_view(a@)[k].id),
        decreases a.len() - i,
    {
        if !vec_contains_id(b, &a[i].id) {
            proof {
                assert(!contains_id(members_view(b@), members_view(a@)[i as int].id));
            }
            return false;
        }
        i += 1;
    }
    true
}

/// Whether each member of `res` either occurs in `cur` unchanged or holds a
/// key that `cur` does not know at all.
pub(crate) fn all_in_or_fresh(cur: &Vec<Member>, res: &Vec<Member>) -> (r: bool)
    ensures
        r == (forall|j: int|
            0 <= j < res@.len() ==> contains_member(members_view(cur@), members_view(res@)[j])
                || !contains_pk(members_view(cur@), members_view(res@)[j].pk)),
{
    let mut j: usize = 0;
    while j < res.len()
        invariant
            0 <= j <= res.len(),
            forall|k: int|
                0 <= k < j ==> contains_member(members_view(cur@), members_view(res@)[k])
                    || !contains_pk(members_view(cur@), members_view(res@)[k].pk),
        decreases res.len() - j,
    {
        if !vec_contains_member(cur, &res[j]) && vec_contains_pk(cur, &res[j].pk) {
            proof {
                assert(!(contains_member(members_view(cur@), members_view(res@)[j as int])
                    || !contains_pk(members_view(cur@), members_view(res@)[j as int].pk)));
            }
            return false;
        }
        j += 1;
    }
    true
}

/// Whether some member of `res` does not occur in `cur` unchanged.
pub(crate) fn any_member_changed(cur: &Vec<Member>, res: &Vec<Member>) -> (r: bool)
    ensures
        r == (exists|j: int|
            0 <= j < res@.len() && !contains_member(members_view(cur@), members_view(res@)[j])),
{
    let mut j: usize = 0;
    while j < res.len()
        invariant
            0 <= j <= res.len(),
            forall|k: int| 0 <= k < j ==> contains_member(members_view(cur@), members_view(res@)[k]),
        decreases res.len() - j,
    {
        if !vec_contains_member(cur, &res[j]) {
            proof {
                assert(!contains_member(members_view(cur@), members_view(res@)[j as int]));
            }
            return true;
        }
        j += 1;
    }
    false
}

/// Whether no two members of `v` hold the same public key.
pub(crate) fn pks_distinct(v: &Vec<Member>) -> (r: bool)
    ensures
        r == distinct_pks(members_view(v@)),
{
    let mut i: usize = 0;
    while i < v.len()
        invariant
            0 <= i <= v.len(),
            forall|k: int, l: int|
                0 <= k < l < v@.len() && k < i ==> members_view(v@)[k].pk != members_view(v@)[l].pk,
        decreases v.len() - i,
    {
        let mut j: usize = i + 1;
        while j < v.len()
            invariant
                0 <= i < j <= v.len(),
                forall|l: int| i < l < j ==> members_view(v@)[i as int].pk != members_view(v@)[l].pk,
            decreases v.len() - j,
        {
            if bytes_eq(&v[i].pk, &v[j].pk) {
                proof {
                    assert(members_view(v@)[i as int].pk == members_view(v@)[j as int].pk);
                }
                return false;
            }
            j += 1;
        }
        i += 1;
    }
    true
}

/// The member list with every holder of the public key `pk` taken away and
/// the order of the others kept.
pub open spec fn remove_pk(ms: Seq<MemberView>, pk: Seq<u8>) -> Seq<MemberView>
    decreases ms.len(),
{
    if ms.len() == 0 {
        Seq::empty()
    } else {
        let rest = remove_pk(ms.drop_last(), pk);
        if ms.last().pk == pk {
            rest
        } else {
            rest.push(ms.last())
        }
    }
}

/// What taking a public key out of a member list leaves behind: members of
/// the list other than the key's holder, all of them, and exactly one fewer
/// when the list had no duplicate keys and did hold the key.
pub proof fn lemma_remove_pk(ms: Seq<MemberView>, pk: Seq<u8>)
    ensures
        forall|j: int|
            0 <= j < remove_pk(ms, pk).len() ==> contains_member(ms, #[trigger] remove_pk(ms, pk)[j])
                && remove_pk(ms, pk)[j].pk != pk,
        forall|m: MemberView|
            contains_member(ms, m) && m.pk != pk ==> contains_member(remove_pk(ms, pk), m),
        distinct_pks(ms) ==> distinct_pks(remove_pk(ms, pk)),
        distinct_pks(ms) && contains_pk(ms, pk) ==> remove_pk(ms, pk).len() + 1 == ms.len(),
        !contains_pk(ms, pk) ==> remove_pk(ms, pk) == ms,
    decreases ms.len(),
{
    if ms.len() == 0 {
        assert(remove_pk(ms, pk) =~= ms);
    } else {
        let head = ms.drop_last();
        let rest = remove_pk(head, pk);
        lemma_remove_pk(head, pk);
        assert(forall|m: MemberView| contains_member(head, m) ==> contains_member(ms, m));
        assert(forall|m: MemberView|
            contains_member(ms, m) && m != ms.last() ==> contains_member(head, m)) by {
            assert forall|m: MemberView|
                contains_member(ms, m) && m != ms.last() implies contains_member(head, m) by {
                let w = choose|i: int| 0 <= i < ms.len() && ms[i] == m;
                assert(head[w] == m);
            }
        }
        if distinct_pks(ms) {
            assert(distinct_pks(head));
            if ms.last().pk != pk {
                assert(forall|j: int| 0 <= j < rest.len() ==> rest[j].pk != ms.last().pk);
                assert(distinct_pks(rest.push(ms.last())));
                if contains_pk(ms, pk) {
                    let w = choose|i: int| 0 <= i < ms.len() && ms[i].pk == pk;
                    assert(head[w] == ms[w]);
                    assert(contains_pk(head, pk));
                }
            } else {
                assert(forall|i: int| 0 <= i < head.len() ==> head[i].pk != pk);
                assert(!contains_pk(head, pk));
            }
        }
        if !contains_pk(ms, pk) {
            assert(forall|i: int| 0 <= i < head.len() ==> head[i] == ms[i] && ms[i].pk != pk);
            assert(!contains_pk(head, pk));
            assert(ms.last().pk != pk);
            assert(remove_pk(ms, pk) =~= ms);
        }
        assert(forall|m: MemberView|
            contains_member(ms, m) && m.pk != pk ==> contains_member(remove_pk(ms, pk), m)) by {
            assert forall|m: MemberView|
                contains_member(ms, m) && m.pk != pk implies contains_member(
                remove_pk(ms, pk),
                m,
            ) by {
                if m == ms.last() {
                    assert(remove_pk(ms, pk).last() == m);
                } else {
                    assert(contains_member(head, m));
                    assert(contains_member(rest, m));
                    let w = choose|i: int| 0 <= i < rest.len() && rest[i] == m;
                    assert(remove_pk(ms, pk)[w] == m);
                }
            }
        }
    }
}

/// The member list with every holder of the public key `pk` taken away.
pub(crate) fn remove_pk_members(v: &Vec<Member>, pk: &Vec<u8>) -> (r: Vec<Member>)
    ensures
        members_view(r@) == remove_pk(members_view(v@), pk@),
{
    let mut r: Vec<Member> = Vec::new();
    let mut i: usize = 0;
    while i < v.len()
        invariant
            0 <= i <= v.len(),
            members_view(r@) == remove_pk(members_view(v@).take(i as int), pk@),
        decreases v.len() - i,
    {
        let ghost mv = members_view(v@);
        proof {
            assert(mv.take(i + 1).drop_last() =~= mv.take(i as int));
            assert(mv.take(i + 1).last() == mv[i as int]);
        }
        if !bytes_eq(&v[i].pk, pk) {
            r.push(v[i].clone());
            proof {
                assert(members_view(r@) =~= remove_pk(mv.take(i as int), pk@).push(mv[i as int]));
            }
        }
        i += 1;
    }
    proof {
        assert(members_view(v@).take(v@.len() as int) =~= members_view(v@));
    }
    r
}

/// The position of the first member of `ms` tracked under the identity `id`,
/// or the list's length when no member is.
pub open spec fn first_id_index(ms: Seq<MemberView>, id: Seq<u8>) -> int
    decreases ms.len(),
{
    if ms.len() == 0 {
        0
    } else if ms[0].id == id {
        0
    } else {
        1 + first_id_index(ms.drop_first(), id)
    }
}

/// The position of the first member of `v` tracked under the identity `id`,
/// when one is.
pub(crate) fn find_first_id(v: &Vec<Member>, id: &Vec<u8>) -> (r: Option<usize>)
    ensures
        match r {
            Some(i) => i < v@.len() && members_view(v@)[i as int].id == id@ && (forall|k: int|
                0 <= k < i ==> members_view(v@)[k].id != id@),
            None => !contains_id(members_view(v@), id@),
        },
{
    let mut i: usize = 0;
    while i < v.len()
        invariant
            0 <= i <= v.len(),
            forall|k: int| 0 <= k < i ==> members_view(v@)[k].id != id@,
        decreases v.len() - i,
    {
        if bytes_eq(&v[i].id, id) {
            proof {
                assert(members_view(v@)[i as int].id == id@);
            }
            return Some(i);
        }
        i += 1;
    }
    None
}

/// The first position holding an identity is the one an in-order search
/// finds: the members before it carry other identities, and it carries `id`.
pub proof fn lemma_first_id_index(ms: Seq<MemberView>, id: Seq<u8>, i: int)
    requires
        0 <= i < ms.len(),
        ms[i].id == id,
        forall|k: int| 0 <= k < i ==> ms[k].id != id,
    ensures
        first_id_index(ms, id) == i,
    decreases i,
{
    if i > 0 {
        lemma_first_id_index(ms.drop_first(), id, i - 1);
    }
}

/// An owned copy of a member list, member for member.
pub(crate) fn clone_members(v: &Vec<Member>) -> (r: Vec<Member>)
    ensures
        members_view(r@) == members_view(v@),
{
    let mut r: Vec<Member> = Vec::new();
    let mut i: usize = 0;
    while i < v.len()
        invariant
            0 <= i <= v.len(),
            r@.len() == i,
            forall|k: int| 0 <= k < i ==> r@[k]@ == v@[k]@,
        decreases v.len() - i,
    {
        r.push(v[i].clone());
        i += 1;
    }
    proof {
        assert(members_view(r@) =~= members_view(v@));
    }
    r
}

} // verus!
