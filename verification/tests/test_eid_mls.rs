//! Tests for the transcript of the group-messaging deployment: evolvements
//! arrive from outside with opaque engine payloads, and the transcript
//! validates and replays them on declared snapshots alone.

use eid::eid_mls_client::EidMlsClient;
use eid::eid_mls_transcript::{EidMlsEvolvement, EidMlsTranscript, EidMlsTranscriptState};
use eid::evolvement::EvolvementKind;
use eid::types::{EidError, Member};

fn pks(members: &Vec<Member>) -> Vec<Vec<u8>> {
    members.iter().map(|m| m.pk()).collect()
}

fn add_evolvement(members: Vec<Member>, message: &[u8]) -> EidMlsEvolvement {
    EidMlsEvolvement {
        kind: EvolvementKind::Add,
        members,
        message: message.to_vec(),
        welcome: Some(b"welcome".to_vec()),
    }
}

#[test]
fn transcript_follows_add_and_remove() {
    let c0 = Member::new(b"c0".to_vec());
    let trusted = EidMlsTranscriptState::new(vec![c0.clone()]);
    let mut transcript =
        EidMlsTranscript::new(trusted, vec![]).expect("failed to create transcript");
    assert_eq!(vec![b"c0".to_vec()], pks(&transcript.get_members()));

    let alice = Member::new(b"alice".to_vec());
    let e1 = add_evolvement(vec![c0.clone(), alice.clone()], b"commit-1");
    transcript.evolve(e1).expect("transcript rejected a valid add");
    assert_eq!(vec![b"c0".to_vec(), b"alice".to_vec()], pks(&transcript.get_members()));

    let e2 = EidMlsEvolvement {
        kind: EvolvementKind::Remove,
        members: vec![c0.clone()],
        message: b"commit-2".to_vec(),
        welcome: None,
    };
    transcript.evolve(e2).expect("transcript rejected a valid remove");
    assert_eq!(vec![b"c0".to_vec()], pks(&transcript.get_members()));
    assert_eq!(2, transcript.log().len());
}

#[test]
fn transcript_rejects_forged_snapshot() {
    let c0 = Member::new(b"c0".to_vec());
    let trusted = EidMlsTranscriptState::new(vec![c0.clone()]);
    let mut transcript =
        EidMlsTranscript::new(trusted, vec![]).expect("failed to create transcript");

    // An add whose snapshot drops the existing member is not one legal
    // transition and is rejected.
    let forged = add_evolvement(
        vec![Member::new(b"mallory".to_vec()), Member::new(b"eve".to_vec())],
        b"commit-x",
    );
    let err = transcript.evolve(forged).expect_err("forged evolvement accepted");
    assert!(matches!(err, EidError::ApplyError));
    assert_eq!(vec![b"c0".to_vec()], pks(&transcript.get_members()));
}

#[test]
fn apply_log_is_atomic() {
    let c0 = Member::new(b"c0".to_vec());
    let alice = Member::new(b"alice".to_vec());
    let trusted = EidMlsTranscriptState::new(vec![c0.clone()]);
    let mut transcript =
        EidMlsTranscript::new(trusted, vec![]).expect("failed to create transcript");

    let good = add_evolvement(vec![c0.clone(), alice.clone()], b"commit-1");
    // The second element repeats the first snapshot and fails validation.
    let bad = add_evolvement(vec![c0.clone(), alice.clone()], b"commit-2");
    let err = transcript
        .apply_log(vec![good.clone(), bad])
        .expect_err("invalid log accepted");
    assert!(matches!(err, EidError::ApplyError));
    // Nothing of the failing log was committed, not even its valid prefix.
    assert_eq!(vec![b"c0".to_vec()], pks(&transcript.get_members()));
    assert_eq!(0, transcript.log().len());

    let bob = Member::new(b"bob".to_vec());
    let next = add_evolvement(vec![c0.clone(), alice.clone(), bob.clone()], b"commit-2");
    transcript
        .apply_log(vec![good, next])
        .expect("valid log rejected");
    assert_eq!(3, transcript.get_members().len());
    assert_eq!(2, transcript.log().len());
}

#[test]
fn successor_check_reads_snapshots_only() {
    let c0 = Member::new(b"c0".to_vec());
    let alice = Member::new(b"alice".to_vec());
    let e1 = add_evolvement(vec![c0.clone(), alice.clone()], b"commit-1");

    // Successor validity depends on the declared snapshots, not on the
    // opaque payload bytes.
    let bob = Member::new(b"bob".to_vec());
    let e2a = add_evolvement(vec![c0.clone(), alice.clone(), bob.clone()], b"payload-a");
    let e2b = add_evolvement(vec![c0.clone(), alice.clone(), bob.clone()], b"payload-b");
    assert!(e1.is_valid_successor(&e2a));
    assert!(e1.is_valid_successor(&e2b));

    // Updates must keep the tracked identities.
    let refreshed = Member::from_parts(b"alice".to_vec(), b"alice-2".to_vec());
    let update = EidMlsEvolvement {
        kind: EvolvementKind::Update,
        members: vec![c0.clone(), refreshed],
        message: b"commit-3".to_vec(),
        welcome: None,
    };
    assert!(e1.is_valid_successor(&update));

    let stranger = Member::new(b"stranger".to_vec());
    let bad_update = EidMlsEvolvement {
        kind: EvolvementKind::Update,
        members: vec![c0.clone(), stranger],
        message: b"commit-3".to_vec(),
        welcome: None,
    };
    assert!(!e1.is_valid_successor(&bad_update));
}

#[test]
fn client_create_rejects_empty_identity() {
    let err = EidMlsClient::create_eid(Vec::new()).expect_err("empty identity");
    assert!(matches!(err, EidError::CreationError));
    assert_eq!("CreationError", err.description());
}

#[test]
fn client_and_transcript_agree() {
    let mut client = EidMlsClient::create_eid(b"c0".to_vec()).expect("creation failed");
    let mut transcript = EidMlsTranscript::new(client.export_transcript_state(), vec![])
        .expect("failed to create transcript");

    let c0 = Member::new(b"c0".to_vec());
    let alice = Member::new(b"alice".to_vec());
    let e1 = add_evolvement(vec![c0.clone(), alice.clone()], b"commit-1");
    client.evolve(e1.clone()).expect("client rejected a valid evolvement");
    transcript.evolve(e1.clone()).expect("transcript rejected a valid evolvement");
    assert_eq!(
        pks(&transcript.get_members()),
        pks(&client.get_members().unwrap())
    );
    assert_eq!(2, client.get_members().unwrap().len());

    // Absorbing the same evolvement twice is rejected on both sides, and
    // neither state moves.
    let err = client.evolve(e1.clone()).expect_err("replayed evolvement accepted");
    assert!(matches!(err, EidError::ApplyError));
    assert_eq!("ApplyError", err.description());
    let err = transcript.evolve(e1).expect_err("replayed evolvement accepted");
    assert!(matches!(err, EidError::ApplyError));
    assert_eq!(
        pks(&transcript.get_members()),
        pks(&client.get_members().unwrap())
    );
}
