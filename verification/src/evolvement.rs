//! Successor validity: the public, secret-free rule that orders evolvements
//! into a verifiable chain. An evolvement records the membership snapshot that
//! one legal transition produced; a candidate may follow a predecessor only if
//! its snapshot is reachable from the predecessor's by exactly one transition
//! of the declared kind. Chains of evolvements are replayed by folding the
//! snapshots in order.

use vstd::prelude::*;
use crate::membership::{
    all_ids_in, all_in_or_fresh, all_members_in, any_member_changed, contains_id, contains_member,
    contains_pk, distinct_pks, members_view, pks_distinct,
};
use crate::types::{Member, MemberView};

verus! {

/// The kind of membership transition an evolvement commits.
#[derive(Clone, Copy, Debug, PartialEq, Eq, Structural)]
pub enum EvolvementKind {
    /// One new party joins the group.
    Add,
    /// One existing member leaves the group.
    Remove,
    /// One member refreshes its key material; the tracked identities stay.
    Update,
}

/// The protocol content of an evolvement: the kind of the transition and the
/// membership snapshot it results in.
pub ghost struct EvolvementView {
    pub kind: EvolvementKind,
    pub members: Seq<MemberView>,
}

/// The snapshot `res` extends `cur` by exactly one party whose key `cur` does
/// not know; every member of `cur` carries over unchanged.
pub open spec fn valid_add(cur: Seq<MemberView>, res: Seq<MemberView>) -> bool {
    &&& res.len() == cur.len() + 1
    &&& distinct_pks(res)
    &&& (forall|i: int| 0 <= i < cur.len() ==> contains_member(res, cur[i]))
    &&& (forall|j: int|
        0 <= j < res.len() ==> contains_member(cur, res[j]) || !contains_pk(cur, res[j].pk))
}

/// The snapshot `res` is `cur` with exactly one member taken away; every
/// remaining member carries over unchanged.
pub open spec fn valid_remove(cur: Seq<MemberView>, res: Seq<MemberView>) -> bool {
    &&& res.len() + 1 == cur.len()
    &&& distinct_pks(res)
    &&& (forall|j: int| 0 <= j < res.len() ==> contains_member(cur, res[j]))
}

/// The snapshot `res` tracks the same identities as `cur`, with the same
/// cardinality, and at least one member's key material differs.
pub open spec fn valid_update(cur: Seq<MemberView>, res: Seq<MemberView>) -> bool {
    &&& res.len() == cur.len()
    &&& distinct_pks(res)
    &&& (forall|j: int| 0 <= j < res.len() ==> contains_id(cur, res[j].id))
    &&& (forall|i: int| 0 <= i < cur.len() ==> contains_id(res, cur[i].id))
    &&& (exists|j: int| 0 <= j < res.len() && !contains_member(cur, res[j]))
}

/// The chain-integrity rule: an evolvement may follow the member set `cur`
/// only if its snapshot is reachable from `cur` by one legal transition of
/// its declared kind.
pub open spec fn valid_successor_of(cur: Seq<MemberView>, e: EvolvementView) -> bool {
    match e.kind {
        EvolvementKind::Add => valid_add(cur, e.members),
        EvolvementKind::Remove => valid_remove(cur, e.members),
        EvolvementKind::Update => valid_update(cur, e.members),
    }
}

/// The member set that absorbing `log` in order, starting from `trusted`,
/// leaves behind: each evolvement installs the snapshot it carries.
pub open spec fn replay(trusted: Seq<MemberView>, log: Seq<EvolvementView>) -> Seq<MemberView> {
    if log.len() == 0 {
        trusted
    } else {
        log.last().members
    }
}

/// Every evolvement of `log` is a valid successor of the member set left by
/// the evolvements before it, starting from `trusted`.
pub open spec fn valid_chain(trusted: Seq<MemberView>, log: Seq<EvolvementView>) -> bool
    decreases log.len(),
{
    if log.len() == 0 {
        true
    } else {
        valid_chain(trusted, log.drop_last()) && valid_successor_of(
            replay(trusted, log.drop_last()),
            log.last(),
        )
    }
}

/// Law: successor-chain monotonicity. A valid chain stays valid when an
/// evolvement that validly succeeds its end is appended, and the appended
/// evolvement's snapshot becomes the replayed member set.
pub proof fn lemma_valid_chain_push(
    trusted: Seq<MemberView>,
    log: Seq<EvolvementView>,
    e: EvolvementView,
)
    requires
        valid_chain(trusted, log),
        valid_successor_of(replay(trusted, log), e),
    ensures
        valid_chain(trusted, log.push(e)),
        replay(trusted, log.push(e)) == e.members,
{
    assert(log.push(e).drop_last() =~= log);
    assert(log.push(e).last() == e);
}

/// Law: every prefix of a valid chain is itself a valid chain, and the
/// evolvement right after a prefix validly succeeds that prefix's replay.
pub proof fn lemma_valid_chain_prefix(trusted: Seq<MemberView>, log: Seq<EvolvementView>, i: int)
    requires
        valid_chain(trusted, log),
        0 <= i <= log.len(),
    ensures
        valid_chain(trusted, log.take(i)),
        i < log.len() ==> valid_successor_of(replay(trusted, log.take(i)), log[i]),
    decreases log.len() - i,
{
    if i == log.len() {
        assert(log.take(i) =~= log);
    } else {
        lemma_valid_chain_prefix(trusted, log, i + 1);
        assert(log.take(i + 1).drop_last() =~= log.take(i));
        assert(log.take(i + 1).last() == log[i]);
    }
}

/// Law: chains compose. A valid chain followed by a chain that is valid from
/// the first chain's replay forms one valid chain, replayed as the second
/// chain's replay.
pub proof fn lemma_valid_chain_concat(
    trusted: Seq<MemberView>,
    first: Seq<EvolvementView>,
    second: Seq<EvolvementView>,
)
    requires
        valid_chain(trusted, first),
        valid_chain(replay(trusted, first), second),
    ensures
        valid_chain(trusted, first + second),
        replay(trusted, first + second) == replay(replay(trusted, first), second),
    decreases second.len(),
{
    if second.len() == 0 {
        assert(first + second =~= first);
    } else {
        lemma_valid_chain_concat(trusted, first, second.drop_last());
        assert((first + second).drop_last() =~= first + second.drop_last());
        assert((first + second).last() == second.last());
    }
}

/// Law: transcript/client agreement. A client commits an evolvement by
/// installing its declared snapshot, and a transcript absorbs it the same
/// way; so along any valid chain from a shared starting member set — a
/// transcript's trusted seed and the member set the client held when it was
/// exported — client and transcript report the same member set after every
/// step: the last absorbed evolvement's snapshot.
pub proof fn lemma_chain_agreement(start: Seq<MemberView>, log: Seq<EvolvementView>, i: int)
    requires
        valid_chain(start, log),
        0 <= i <= log.len(),
    ensures
        valid_chain(start, log.take(i)),
        replay(start, log.take(i)) == if i == 0 {
            start
        } else {
            log[i - 1].members
        },
{
    lemma_valid_chain_prefix(start, log, i);
    if i > 0 {
        assert(log.take(i).last() == log[i - 1]);
    }
}

/// Whether the snapshot carried by an evolvement of the given kind validly
/// succeeds the member set `cur`.
pub(crate) fn check_successor(cur: &Vec<Member>, kind: EvolvementKind, res: &Vec<Member>) -> (r:
    bool)
    ensures
        r == valid_successor_of(
            members_view(cur@),
            EvolvementView { kind, members: members_view(res@) },
        ),
{
    match kind {
        EvolvementKind::Add => {
            if res.len() == 0 || res.len() - 1 != cur.len() {
                return false;
            }
            pks_distinct(res) && all_members_in(cur, res) && all_in_or_fresh(cur, res)
        },
        EvolvementKind::Remove => {
            if cur.len() == 0 || res.len() != cur.len() - 1 {
                return false;
            }
            pks_distinct(res) && all_members_in(res, cur)
        },
        EvolvementKind::Update => {
            if res.len() != cur.len() {
                return false;
            }
            pks_distinct(res) && all_ids_in(res, cur) && all_ids_in(cur, res)
                && any_member_changed(cur, res)
        },
    }
}

} // verus!
