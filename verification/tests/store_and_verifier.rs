use zk_strategy_game::bytes::{bytes_eq, copy_bytes};
use zk_strategy_game::session::{Identity, Session, SessionState};
use zk_strategy_game::store::{mutate, Mutation, SessionStore, StoreError};
use zk_strategy_game::submission::{check_shape, verify, KeyShape, ShapeError, VerificationResult};

fn party(tag: u8) -> Identity {
    Identity::new(vec![tag; 32])
}

fn active(move_count: u64) -> Session {
    Session {
        id: 1,
        player_a: party(1),
        player_b: party(2),
        stake_a: 10,
        stake_b: 20,
        state: SessionState::Active,
        move_count,
        last_commitment: None,
    }
}

#[test]
fn bytes_are_compared_by_content() {
    assert!(bytes_eq(&vec![], &vec![]));
    assert!(bytes_eq(&vec![1, 2, 3], &vec![1, 2, 3]));
    assert!(!bytes_eq(&vec![1, 2, 3], &vec![1, 2, 4]));
    assert!(!bytes_eq(&vec![1, 2, 3], &vec![1, 2]));
    assert!(!bytes_eq(&vec![], &vec![0]));
    assert!(!bytes_eq(&vec![9, 2, 3], &vec![1, 2, 3]));
}

#[test]
fn bytes_are_copied_whole() {
    assert_eq!(copy_bytes(&vec![]), Vec::<u8>::new());
    assert_eq!(copy_bytes(&vec![7, 0, 255]), vec![7, 0, 255]);
}

#[test]
fn identities_are_the_same_by_their_bytes() {
    assert!(party(1).same_as(&party(1)));
    assert!(!party(1).same_as(&party(2)));
    assert!(!party(1).same_as(&Identity::new(vec![1; 31])));
    assert_eq!(party(4).duplicate(), party(4));
}

#[test]
fn session_knows_its_players_and_terms() {
    let s = active(0);
    assert!(s.has_player(&party(1)));
    assert!(s.has_player(&party(2)));
    assert!(!s.has_player(&party(3)));
    assert!(s.opened_by(&party(1), &party(2), 10, 20));
    assert!(!s.opened_by(&party(2), &party(1), 10, 20));
    assert!(!s.opened_by(&party(1), &party(2), 20, 10));
    assert!(s.is_valid());
    assert_eq!(s.duplicate(), s);
}

#[test]
fn verifier_tells_shape_from_verdict() {
    let key = KeyShape { input_count: 2 };
    let inputs = vec![vec![0u8; 32], vec![1u8; 32]];
    assert_eq!(verify(&vec![1], &inputs, &key, true), Ok(VerificationResult { accepted: true }));
    assert_eq!(verify(&vec![1], &inputs, &key, false), Ok(VerificationResult { accepted: false }));
    assert_eq!(verify(&vec![], &inputs, &key, true), Err(ShapeError::EmptyProof));
    assert_eq!(verify(&vec![1], &vec![vec![0u8; 32]], &key, true), Err(ShapeError::InputCount));
    assert_eq!(verify(&vec![1], &vec![], &key, false), Err(ShapeError::InputCount));
    assert_eq!(
        verify(&vec![1], &vec![vec![0u8; 32], vec![]], &key, true),
        Err(ShapeError::InputSize)
    );
    assert_eq!(
        verify(&vec![1], &vec![vec![0u8; 64], vec![0u8; 32]], &key, false),
        Err(ShapeError::InputSize)
    );
}

#[test]
fn verifier_gives_the_same_answer_to_the_same_question() {
    let key = KeyShape { input_count: 3 };
    let inputs = vec![vec![0u8; 32], vec![1u8; 32], vec![2u8; 32]];
    let first = verify(&vec![5; 10], &inputs, &key, true);
    let second = verify(&vec![5; 10], &inputs, &key, true);
    assert_eq!(first, second);
    assert_eq!(first, Ok(VerificationResult { accepted: true }));
}

#[test]
fn shape_faults_come_in_order() {
    let key = KeyShape { input_count: 1 };
    assert_eq!(check_shape(&vec![], &vec![], &key), Err(ShapeError::EmptyProof));
    assert_eq!(check_shape(&vec![1], &vec![vec![1], vec![2]], &key), Err(ShapeError::InputCount));
    assert_eq!(check_shape(&vec![1], &vec![vec![1]], &key), Err(ShapeError::InputSize));
    assert_eq!(check_shape(&vec![1], &vec![vec![1; 32]], &key), Ok(()));
    assert_eq!(check_shape(&vec![1], &vec![], &KeyShape { input_count: 0 }), Ok(()));
}

#[test]
fn store_creates_once() {
    let mut store = SessionStore::new();
    assert!(!store.contains(1));
    let made = store.create(1, party(1), party(2), 10, 20).unwrap();
    assert_eq!(made.state, SessionState::Pending);
    assert_eq!(made.move_count, 0);
    assert_eq!(made.last_commitment, None);
    assert_eq!(made.id, 1);
    assert!(store.contains(1));
    assert_eq!(store.get(1), Ok(made));

    assert_eq!(store.create(1, party(3), party(4), 1, 2), Err(StoreError::AlreadyExists));
    assert_eq!(store.create(1, party(3), party(3), -1, 2), Err(StoreError::AlreadyExists));
    assert_eq!(store.get(1).unwrap().stake_a, 10);
    assert_eq!(store.get(1).unwrap().player_a, party(1));
}

#[test]
fn store_refuses_sessions_that_break_the_invariant() {
    let mut store = SessionStore::new();
    assert_eq!(store.create(1, party(1), party(1), 10, 20), Err(StoreError::InvalidSession));
    assert_eq!(store.create(1, party(1), party(2), -10, 20), Err(StoreError::InvalidSession));
    assert_eq!(store.create(1, party(1), party(2), 10, -20), Err(StoreError::InvalidSession));
    assert!(!store.contains(1));
    assert_eq!(store.get(1), Err(StoreError::NotFound));
}

#[test]
fn store_updates_along_the_lifecycle() {
    let mut store = SessionStore::new();
    assert_eq!(store.update(1, Mutation::Activate), Err(StoreError::NotFound));
    store.create(1, party(1), party(2), 10, 20).unwrap();

    assert_eq!(
        store.update(1, Mutation::RecordMove { commitment: vec![3; 32] }),
        Err(StoreError::InvalidTransition)
    );
    assert_eq!(store.close(1), Err(StoreError::InvalidTransition));
    assert_eq!(store.get(1).unwrap().state, SessionState::Pending);

    let s = store.update(1, Mutation::Activate).unwrap();
    assert_eq!(s.state, SessionState::Active);
    assert_eq!(store.update(1, Mutation::Activate), Err(StoreError::InvalidTransition));

    assert_eq!(
        store.update(1, Mutation::RecordMove { commitment: vec![3; 31] }),
        Err(StoreError::InvalidSession)
    );
    let s = store.update(1, Mutation::RecordMove { commitment: vec![3; 32] }).unwrap();
    assert_eq!(s.move_count, 1);
    assert_eq!(s.last_commitment, Some(vec![3; 32]));
    assert_eq!(store.get(1), Ok(s));

    assert_eq!(store.close(1), Ok(()));
    let closed = store.get(1).unwrap();
    assert_eq!(closed.state, SessionState::Closed);
    assert_eq!(closed.move_count, 1);

    assert_eq!(store.close(1), Err(StoreError::AlreadyClosed));
    assert_eq!(store.update(1, Mutation::Activate), Err(StoreError::InvalidTransition));
    assert_eq!(
        store.update(1, Mutation::RecordMove { commitment: vec![4; 32] }),
        Err(StoreError::InvalidTransition)
    );
    assert_eq!(store.get(1), Ok(closed));
    assert_eq!(store.close(2), Err(StoreError::NotFound));
}

#[test]
fn mutation_counts_one_move_up_to_the_limit() {
    let next = mutate(active(5), Mutation::RecordMove { commitment: vec![1; 32] }).unwrap();
    assert_eq!(next.move_count, 6);
    assert_eq!(next.last_commitment, Some(vec![1; 32]));
    assert_eq!(next.state, SessionState::Active);
    assert_eq!(next.stake_a, 10);

    let last = mutate(active(u64::MAX - 1), Mutation::RecordMove { commitment: vec![1; 32] });
    assert_eq!(last.unwrap().move_count, u64::MAX);
    assert_eq!(
        mutate(active(u64::MAX), Mutation::RecordMove { commitment: vec![1; 32] }),
        Err(StoreError::MoveLimit)
    );
}

#[test]
fn store_restores_what_was_kept() {
    let mut store = SessionStore::new();
    assert_eq!(store.restore(active(3)), Ok(()));
    assert_eq!(store.get(1), Ok(active(3)));
    assert_eq!(store.restore(active(4)), Err(StoreError::AlreadyExists));
    assert_eq!(store.get(1).unwrap().move_count, 3);

    let mut broken = active(0);
    broken.id = 2;
    broken.state = SessionState::Pending;
    broken.move_count = 1;
    assert_eq!(store.restore(broken), Err(StoreError::InvalidSession));
    assert!(!store.contains(2));
}
