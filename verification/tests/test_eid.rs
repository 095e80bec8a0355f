//! Scenario tests for the in-memory EID client and transcript: genesis,
//! propose/commit separation, duplicate and non-member rejection, key
//! refresh, successor chaining, and transcript/client agreement.

use eid::eid_dummy_backend::EidDummyBackend;
use eid::eid_dummy_client::EidDummyClient;
use eid::eid_dummy_evolvement::EidDummyEvolvement;
use eid::eid_dummy_state::EidDummyState;
use eid::eid_dummy_transcript::EidDummyTranscript;
use eid::types::{EidError, Member};

fn pks(members: &Vec<Member>) -> Vec<Vec<u8>> {
    members.iter().map(|m| m.pk()).collect()
}

#[test]
fn create() {
    let backend = EidDummyBackend::default();
    let client = EidDummyClient::create_eid(b"creator".to_vec(), &backend).expect("creation failed");
    let members = client.get_members().expect("failed to get members");
    assert_eq!(1, members.len());
    assert_eq!(b"creator".to_vec(), members[0].pk());
    let state = client.export_transcript_state();
    assert!(state.verify_client(&members[0]).unwrap());
    assert!(!state.verify_client(&Member::new(b"other".to_vec())).unwrap());
}

#[test]
fn create_rejects_empty_identity() {
    let backend = EidDummyBackend::default();
    let err = EidDummyClient::create_eid(Vec::new(), &backend).expect_err("empty identity");
    assert!(matches!(err, EidError::CreationError));
}

#[test]
fn add() {
    let backend = EidDummyBackend::default();
    let mut client =
        EidDummyClient::create_eid(b"test_key".to_vec(), &backend).expect("creation failed");

    // Create the transcript, trusting the client's state.
    let mut transcript = EidDummyTranscript::new(
        client.export_transcript_state(),
        vec![],
        &backend,
    )
    .expect("failed to create transcript");

    let alice = Member::new(b"alice".to_vec());
    let add_alice_evolvement = client
        .add(b"alice".to_vec(), &backend)
        .expect("failed to add member");

    // The member list is unchanged before evolving.
    let members = client.get_members().expect("failed to get members");
    assert_eq!(1, members.len());

    client
        .evolve(add_alice_evolvement.clone(), &backend)
        .expect("failed to apply state");

    let members = client.get_members().expect("failed to get members");
    assert!(members.contains(&alice));
    assert_eq!(2, members.len());

    transcript
        .add_evolvement(add_alice_evolvement.clone(), &backend)
        .expect("transcript rejected the evolvement");
    assert_eq!(pks(&transcript.get_members()), pks(&members));

    // Adding Alice a second time is rejected, not silently ignored.
    let member_in_eid_error = client
        .add(b"alice".to_vec(), &backend)
        .expect_err("adding a member a second time");
    assert!(matches!(member_in_eid_error, EidError::AddMemberError));
    assert_eq!(2, client.get_members().expect("failed to get members").len());

    // Add Bob.
    let bob = Member::new(b"bob".to_vec());
    let add_bob_evolvement = client
        .add(b"bob".to_vec(), &backend)
        .expect("failed to add member");
    client
        .evolve(add_bob_evolvement.clone(), &backend)
        .expect("failed to apply state");

    assert!(add_alice_evolvement.is_valid_successor(&add_bob_evolvement));
    transcript
        .add_evolvement(add_bob_evolvement, &backend)
        .expect("transcript rejected the evolvement");

    let members = client.get_members().expect("failed to get members");
    assert_eq!(pks(&transcript.get_members()), pks(&members));
    assert!(members.contains(&bob));
    assert_eq!(3, members.len());
}

#[test]
fn add_rejects_empty_identity() {
    let backend = EidDummyBackend::default();
    let mut client =
        EidDummyClient::create_eid(b"test_key".to_vec(), &backend).expect("creation failed");
    let err = client.add(Vec::new(), &backend).expect_err("empty identity");
    assert!(matches!(err, EidError::AddMemberError));
    assert_eq!(1, client.get_members().unwrap().len());
}

#[test]
fn remove() {
    let backend = EidDummyBackend::default();
    let mut client =
        EidDummyClient::create_eid(b"test_key".to_vec(), &backend).expect("creation failed");

    let mut transcript = EidDummyTranscript::new(
        client.export_transcript_state(),
        vec![],
        &backend,
    )
    .expect("failed to create transcript");

    let alice = Member::new(b"alice".to_vec());
    let evolvement_add = client
        .add(b"alice".to_vec(), &backend)
        .expect("failed to add member");
    client
        .evolve(evolvement_add.clone(), &backend)
        .expect("failed to apply state");

    transcript
        .add_evolvement(evolvement_add.clone(), &backend)
        .expect("transcript rejected the evolvement");
    assert_eq!(
        pks(&transcript.get_members()),
        pks(&client.get_members().expect("failed to get members"))
    );

    let evolvement_remove = client
        .remove(&alice, &backend)
        .expect("failed to remove member");
    client
        .evolve(evolvement_remove.clone(), &backend)
        .expect("failed to apply remove on client state");

    assert!(evolvement_add.is_valid_successor(&evolvement_remove));
    transcript
        .add_evolvement(evolvement_remove, &backend)
        .expect("transcript rejected the evolvement");
    assert_eq!(
        pks(&transcript.get_members()),
        pks(&client.get_members().expect("failed to get members"))
    );

    // Removing Alice a second time is rejected.
    let member_not_in_eid_error = client
        .remove(&alice, &backend)
        .expect_err("removing a non-member");
    assert!(matches!(member_not_in_eid_error, EidError::InvalidMemberError));
    let members = client.get_members().expect("failed to get members");
    assert!(!members.contains(&alice));
    assert_eq!(1, members.len());
}

#[test]
fn update() {
    let backend = EidDummyBackend::default();
    let mut client =
        EidDummyClient::create_eid(b"test_key".to_vec(), &backend).expect("creation failed");

    let mut transcript = EidDummyTranscript::new(
        client.export_transcript_state(),
        vec![],
        &backend,
    )
    .expect("failed to create transcript");
    let alice_before_update_1 = client.get_members().expect("failed to get members")[0].clone();

    let update_evolvement_1 = client.update(&backend).expect("updating client keys failed");

    // The member list is unchanged before evolving.
    assert_eq!(
        vec![alice_before_update_1.pk()],
        pks(&client.get_members().unwrap())
    );

    client
        .evolve(update_evolvement_1.clone(), &backend)
        .expect("failed to apply update on client state");
    transcript
        .add_evolvement(update_evolvement_1.clone(), &backend)
        .expect("transcript rejected the evolvement");
    assert_eq!(
        pks(&transcript.get_members()),
        pks(&client.get_members().expect("failed to get members"))
    );

    let members_after_update_1 = client.get_members().expect("failed to get members");
    assert!(!members_after_update_1.contains(&alice_before_update_1));
    assert_eq!(1, members_after_update_1.len());
    // The key material changed; the tracked identity did not.
    assert_ne!(alice_before_update_1.pk(), members_after_update_1[0].pk());
    assert_eq!(alice_before_update_1.id(), members_after_update_1[0].id());

    // Update a second time.
    let alice_before_update_2 = members_after_update_1[0].clone();
    let update_evolvement_2 = client.update(&backend).expect("updating client keys failed");
    client
        .evolve(update_evolvement_2.clone(), &backend)
        .expect("failed to apply update on client state");
    assert!(update_evolvement_1.is_valid_successor(&update_evolvement_2));
    transcript
        .add_evolvement(update_evolvement_2, &backend)
        .expect("transcript rejected the evolvement");
    assert_eq!(
        pks(&transcript.get_members()),
        pks(&client.get_members().expect("failed to get members"))
    );

    let members_after_update_2 = client.get_members().expect("failed to get members");
    assert!(!members_after_update_2.contains(&alice_before_update_2));
    assert_eq!(1, members_after_update_2.len());
}

#[test]
fn update_rejected_after_own_removal() {
    let backend = EidDummyBackend::default();
    let mut client =
        EidDummyClient::create_eid(b"c0".to_vec(), &backend).expect("creation failed");
    let own = client.get_members().unwrap()[0].clone();
    let add = client.add(b"alice".to_vec(), &backend).expect("failed to add member");
    client.evolve(add, &backend).expect("failed to apply state");
    let remove_own = client.remove(&own, &backend).expect("failed to remove member");
    client.evolve(remove_own, &backend).expect("failed to apply state");

    let err = client.update(&backend).expect_err("update without an own member");
    assert!(matches!(err, EidError::UpdateMemberError));
}

#[test]
fn cross_chain_evolvements_rejected() {
    let backend = EidDummyBackend::default();
    let mut client =
        EidDummyClient::create_eid(b"c0".to_vec(), &backend).expect("creation failed");
    let mut unrelated =
        EidDummyClient::create_eid(b"x0".to_vec(), &backend).expect("creation failed");

    let e1 = client.add(b"alice".to_vec(), &backend).expect("failed to add member");
    client.evolve(e1.clone(), &backend).expect("failed to apply state");

    // An evolvement produced on an unrelated chain is not a valid successor
    // and cannot be committed here.
    let foreign = unrelated.add(b"bob".to_vec(), &backend).expect("failed to add member");
    assert!(!e1.is_valid_successor(&foreign));
    let err = client.evolve(foreign, &backend).expect_err("foreign evolvement");
    assert!(matches!(err, EidError::ApplyError));
    assert_eq!(2, client.get_members().unwrap().len());
}

#[test]
fn transcript_replays_full_log_at_construction() {
    let backend = EidDummyBackend::default();
    let mut client =
        EidDummyClient::create_eid(b"c0".to_vec(), &backend).expect("creation failed");
    let trusted = client.export_transcript_state();

    let e1 = client.add(b"alice".to_vec(), &backend).expect("failed to add member");
    client.evolve(e1.clone(), &backend).expect("failed to apply state");
    let e2 = client.add(b"bob".to_vec(), &backend).expect("failed to add member");
    client.evolve(e2.clone(), &backend).expect("failed to apply state");
    let alice = Member::new(b"alice".to_vec());
    let e3 = client.remove(&alice, &backend).expect("failed to remove member");
    client.evolve(e3.clone(), &backend).expect("failed to apply state");

    let transcript = EidDummyTranscript::new(trusted, vec![e1, e2, e3], &backend)
        .expect("failed to create transcript");
    assert_eq!(
        pks(&transcript.get_members()),
        pks(&client.get_members().unwrap())
    );
    assert_eq!(3, transcript.log().len());
    assert_eq!(vec![b"c0".to_vec()], pks(&transcript.trusted_state().get_members()));
}

#[test]
fn transcript_rejects_reordered_log() {
    let backend = EidDummyBackend::default();
    let mut client =
        EidDummyClient::create_eid(b"c0".to_vec(), &backend).expect("creation failed");
    let trusted = client.export_transcript_state();

    let e1 = client.add(b"alice".to_vec(), &backend).expect("failed to add member");
    client.evolve(e1.clone(), &backend).expect("failed to apply state");
    let e2 = client.add(b"bob".to_vec(), &backend).expect("failed to add member");
    client.evolve(e2.clone(), &backend).expect("failed to apply state");

    // Replaying the log out of order fails successor validation.
    let err = EidDummyTranscript::new(trusted, vec![e2, e1], &backend)
        .expect_err("reordered log accepted");
    assert!(matches!(err, EidError::ApplyError));
}

#[test]
fn transcript_rejects_replayed_evolvement() {
    let backend = EidDummyBackend::default();
    let mut client =
        EidDummyClient::create_eid(b"c0".to_vec(), &backend).expect("creation failed");
    let mut transcript = EidDummyTranscript::new(
        client.export_transcript_state(),
        vec![],
        &backend,
    )
    .expect("failed to create transcript");

    let e1 = client.add(b"alice".to_vec(), &backend).expect("failed to add member");
    client.evolve(e1.clone(), &backend).expect("failed to apply state");
    transcript
        .add_evolvement(e1.clone(), &backend)
        .expect("transcript rejected the evolvement");

    // Replaying the same evolvement twice is rejected: its predecessor no
    // longer matches the current state.
    let err = transcript
        .add_evolvement(e1, &backend)
        .expect_err("replayed evolvement accepted");
    assert!(matches!(err, EidError::ApplyError));
    assert_eq!(1, transcript.log().len());
}

#[test]
fn scenario_add_remove_lifecycle() {
    let backend = EidDummyBackend::default();
    let mut client = EidDummyClient::create_eid(b"C0".to_vec(), &backend).expect("creation failed");
    assert_eq!(vec![b"C0".to_vec()], pks(&client.get_members().unwrap()));

    let a = Member::new(b"A".to_vec());
    let e1 = client.add(b"A".to_vec(), &backend).expect("failed to add member");
    // Propose/commit separation: nothing committed before evolve.
    assert_eq!(vec![b"C0".to_vec()], pks(&client.get_members().unwrap()));
    client.evolve(e1, &backend).expect("failed to apply state");
    let members = client.get_members().unwrap();
    assert_eq!(2, members.len());
    assert!(members.contains(&a));
    assert!(members.contains(&Member::new(b"C0".to_vec())));

    let err = client.add(b"A".to_vec(), &backend).expect_err("duplicate add");
    assert!(matches!(err, EidError::AddMemberError));
    assert_eq!(2, client.get_members().unwrap().len());

    let e2 = client.remove(&a, &backend).expect("failed to remove member");
    client.evolve(e2, &backend).expect("failed to apply state");
    assert_eq!(vec![b"C0".to_vec()], pks(&client.get_members().unwrap()));

    let err = client.remove(&a, &backend).expect_err("removing a non-member");
    assert!(matches!(err, EidError::InvalidMemberError));
}

#[test]
fn state_absorbs_evolvements() {
    let backend = EidDummyBackend::default();
    let c0 = Member::new(b"c0".to_vec());
    let alice = Member::new(b"alice".to_vec());

    let mut state = EidDummyState::default();
    assert_eq!(0, state.get_members().len());

    let e1 = EidDummyEvolvement::Add {
        members: vec![c0.clone(), alice.clone()],
        invited: alice.clone(),
    };
    state.apply(e1, &backend).expect("apply failed");
    assert_eq!(2, state.get_members().len());
    assert!(state.verify_client(&alice).unwrap());

    let e2 = EidDummyEvolvement::Remove { members: vec![c0.clone()] };
    let e3 = EidDummyEvolvement::Update {
        members: vec![Member::from_parts(b"c0".to_vec(), b"c0-2".to_vec())],
    };
    state.apply_log(vec![e2, e3], &backend).expect("apply_log failed");
    let members = state.get_members();
    assert_eq!(vec![b"c0-2".to_vec()], pks(&members));
    assert!(!state.verify_client(&c0).unwrap());

    let exported = state.into_transcript_state(&backend).expect("export failed");
    assert_eq!(vec![b"c0-2".to_vec()], pks(&exported.get_members()));
}

#[test]
fn update_refreshes_first_member_with_own_identity() {
    let backend = EidDummyBackend::default();
    let mut client = EidDummyClient::create_eid(b"k".to_vec(), &backend).expect("creation failed");

    // Refresh the own key, freeing the key bytes the identity started under.
    let u1 = client.update(&backend).expect("updating client keys failed");
    client.evolve(u1, &backend).expect("failed to apply state");
    assert_eq!(vec![b"k\0".to_vec()], pks(&client.get_members().unwrap()));

    // A new party may now join under those bytes: two members share the
    // tracked identity, under different keys.
    let add = client.add(b"k".to_vec(), &backend).expect("failed to add member");
    client.evolve(add, &backend).expect("failed to apply state");

    // The next refresh touches the first member tracked under the client's
    // identity — its own — and leaves the newcomer alone.
    let u2 = client.update(&backend).expect("updating client keys failed");
    client.evolve(u2, &backend).expect("failed to apply state");
    assert_eq!(
        vec![b"k\0\0".to_vec(), b"k".to_vec()],
        pks(&client.get_members().unwrap())
    );
}

#[test]
fn update_rejects_colliding_refreshed_key() {
    let backend = EidDummyBackend::default();
    let mut client = EidDummyClient::create_eid(b"k".to_vec(), &backend).expect("creation failed");

    // A member already holds the very bytes the refresh would derive.
    let add = client.add(b"k\0".to_vec(), &backend).expect("failed to add member");
    client.evolve(add, &backend).expect("failed to apply state");

    let err = client.update(&backend).expect_err("colliding refreshed key accepted");
    assert!(matches!(err, EidError::UpdateMemberError));
    assert_eq!(2, client.get_members().unwrap().len());
}
