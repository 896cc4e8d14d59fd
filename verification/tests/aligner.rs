use melee_actions::generate_interactions;
use melee_actions::states::BroadState;
use melee_actions::states::HighLevelAction;
use melee_actions::Action;
use melee_actions::Vector;

fn action(frame_start: usize) -> Action {
    Action {
        start_state: BroadState::Ground,
        action_taken: HighLevelAction::GroundWait,
        frame_start,
        frame_end: frame_start + 1,
        initial_position: Vector { x: 0, y: 0 },
        initial_velocity: Vector { x: 0, y: 0 },
    }
}

fn actions(starts: &[usize]) -> Vec<Action> {
    starts.iter().map(|&s| action(s)).collect()
}

#[test]
fn empty_inputs_yield_no_pairs() {
    let some = actions(&[3, 9]);
    let none: Vec<Action> = Vec::new();
    assert!(generate_interactions(&none, &none).is_empty());
    assert!(generate_interactions(&some, &none).is_empty());
    assert!(generate_interactions(&none, &some).is_empty());
}

#[test]
fn two_pointer_merge_example() {
    // initiations at 10, 50, 90 against responses at 5, 40, 60, 95: the
    // response at 5 precedes every initiation and is skipped; each later
    // initiation is answered by the first response starting after it
    let opponent = actions(&[10, 50, 90]);
    let player = actions(&[5, 40, 60, 95]);
    let pairs = generate_interactions(&player, &opponent);
    let got: Vec<(usize, usize)> = pairs
        .iter()
        .map(|it| (it.opponent_initiation, it.player_response))
        .collect();
    assert_eq!(got, vec![(0, 1), (1, 2), (2, 3)]);
}

#[test]
fn responses_must_start_strictly_after_their_initiation() {
    // a response on the very frame of the initiation does not answer it
    let opponent = actions(&[10]);
    let player = actions(&[10]);
    assert!(generate_interactions(&player, &opponent).is_empty());

    let player = actions(&[11]);
    let pairs = generate_interactions(&player, &opponent);
    assert_eq!(pairs.len(), 1);
    assert_eq!(pairs[0].opponent_initiation, 0);
    assert_eq!(pairs[0].player_response, 0);
}

#[test]
fn only_the_first_qualifying_response_pairs() {
    // one initiation, many later responses: one pair
    let opponent = actions(&[10]);
    let player = actions(&[20, 30, 40]);
    let pairs = generate_interactions(&player, &opponent);
    assert_eq!(pairs.len(), 1);
    assert_eq!((pairs[0].opponent_initiation, pairs[0].player_response), (0, 0));
}

#[test]
fn an_idle_player_leaves_initiations_unanswered() {
    // the eventual response answers the initiation current when it came;
    // initiations after it wait for a response that never arrives
    let opponent = actions(&[10, 20, 30]);
    let player = actions(&[5, 100]);
    let pairs = generate_interactions(&player, &opponent);
    assert_eq!(pairs.len(), 1);
    assert_eq!((pairs[0].opponent_initiation, pairs[0].player_response), (0, 1));
}

#[test]
fn alternating_exchange_pairs_each_round() {
    let opponent = actions(&[10, 30, 50]);
    let player = actions(&[20, 40, 60]);
    let pairs = generate_interactions(&player, &opponent);
    let got: Vec<(usize, usize)> = pairs
        .iter()
        .map(|it| (it.opponent_initiation, it.player_response))
        .collect();
    assert_eq!(got, vec![(0, 0), (1, 1), (2, 2)]);
}
