use melee_actions::parser::Courtesy;
use melee_actions::parser::CourtesyReturn;
use melee_actions::parser::ActionBuilder;
use melee_actions::states::BroadState;
use melee_actions::states::HighLevelAction;
use melee_actions::states::MeleeState;
use melee_actions::Action;
use melee_actions::Character;
use melee_actions::Direction;
use melee_actions::Frame;
use melee_actions::Vector;

fn frame(state: MeleeState) -> Frame {
    Frame {
        character: Character::Fox,
        port_idx: 0,
        direction: Direction::Right,
        velocity: Vector { x: 0, y: 0 },
        hit_velocity: Vector { x: 0, y: 0 },
        position: Vector { x: 0, y: 0 },
        state,
        anim_frame: 0,
    }
}

fn frames(states: &[MeleeState]) -> Vec<Frame> {
    states.iter().map(|&s| frame(s)).collect()
}

#[test]
fn peek_does_not_consume() {
    let v = frames(&[MeleeState::Wait, MeleeState::Fall]);
    let mut c = ActionBuilder::new(&v);
    assert!(!c.finished());
    assert_eq!(c.peek(), Some(MeleeState::Wait));
    assert_eq!(c.peek(), Some(MeleeState::Wait));
    assert_eq!(c.next(), Some(MeleeState::Wait));
    assert_eq!(c.peek(), Some(MeleeState::Fall));
    assert_eq!(c.next(), Some(MeleeState::Fall));
    assert!(c.finished());
    assert_eq!(c.peek(), None);
    assert_eq!(c.next(), None);
}

#[test]
fn peek_n_is_bounded_and_lazy() {
    let v = frames(&[MeleeState::Wait, MeleeState::Fall, MeleeState::Dash]);
    let mut c = ActionBuilder::new(&v);
    assert_eq!(c.peek_n(2), vec![MeleeState::Wait, MeleeState::Fall]);
    assert_eq!(c.peek_n(5), vec![MeleeState::Wait, MeleeState::Fall, MeleeState::Dash]);
    assert_eq!(c.peek_n(0), vec![]);
    c.next();
    assert_eq!(c.peek_n(5), vec![MeleeState::Fall, MeleeState::Dash]);
    // lookahead consumed nothing
    assert_eq!(c.next(), Some(MeleeState::Fall));
}

#[test]
fn next_frame_returns_whole_frames() {
    let mut f0 = frame(MeleeState::Wait);
    f0.position = Vector { x: 7, y: -3 };
    let v = vec![f0, frame(MeleeState::Fall)];
    let mut c = ActionBuilder::new(&v);
    let got = c.peek_frame().unwrap();
    assert_eq!(got.position, Vector { x: 7, y: -3 });
    let got = c.next_frame().unwrap();
    assert_eq!(got.state, MeleeState::Wait);
    assert_eq!(c.next_frame().unwrap().state, MeleeState::Fall);
    assert!(c.next_frame().is_none());
}

#[test]
fn skip_broad_state_stops_at_category_change() {
    let v = frames(&[
        MeleeState::Fall,
        MeleeState::FallF,
        MeleeState::JumpF,
        MeleeState::Wait,
        MeleeState::Fall,
    ]);
    let mut c = ActionBuilder::new(&v);
    c.skip_broad_state(BroadState::Air);
    // the three air frames are consumed, the ground frame is not
    assert_eq!(c.peek(), Some(MeleeState::Wait));
    c.skip_broad_state(BroadState::Air);
    assert_eq!(c.peek(), Some(MeleeState::Wait));
}

#[test]
fn skip_while_at_most_caps_consumption() {
    let v = frames(&[
        MeleeState::Wait,
        MeleeState::Wait,
        MeleeState::Wait,
        MeleeState::Wait,
        MeleeState::Wait,
    ]);
    let mut c = ActionBuilder::new(&v);
    let n = c.skip_while_at_most(BroadState::Ground, 3);
    assert_eq!(n, 3);
    assert_eq!(c.peek(), Some(MeleeState::Wait));
    let n = c.skip_while_at_most(BroadState::Ground, 3);
    assert_eq!(n, 2);
    assert!(c.finished());
}

#[test]
fn courtesy_full_window_elapsed_is_skip_max() {
    // exactly five matching frames then a mismatch, timeout five
    let v = frames(&[
        MeleeState::Wait,
        MeleeState::Wait,
        MeleeState::Wait,
        MeleeState::Wait,
        MeleeState::Wait,
        MeleeState::Fall,
    ]);
    let mut c = ActionBuilder::new(&v);
    let r = Action::skip_courtesy(&mut c, Courtesy { timeout: 5, state: BroadState::Ground });
    assert_eq!(r, CourtesyReturn::SkipMax(5));
    assert_eq!(c.peek(), Some(MeleeState::Fall));
}

#[test]
fn courtesy_early_change_is_skip_some() {
    // three matching frames then a mismatch, timeout five
    let v = frames(&[
        MeleeState::Wait,
        MeleeState::Wait,
        MeleeState::Wait,
        MeleeState::Fall,
    ]);
    let mut c = ActionBuilder::new(&v);
    let r = Action::skip_courtesy(&mut c, Courtesy { timeout: 5, state: BroadState::Ground });
    assert_eq!(r, CourtesyReturn::SkipSome(3));
    assert_eq!(c.peek(), Some(MeleeState::Fall));
}

#[test]
fn courtesy_immediate_change_is_no_skip() {
    let v = frames(&[MeleeState::Fall, MeleeState::Wait]);
    let mut c = ActionBuilder::new(&v);
    let r = Action::skip_courtesy(&mut c, Courtesy { timeout: 5, state: BroadState::Ground });
    assert_eq!(r, CourtesyReturn::NoSkip);
    assert_eq!(c.peek(), Some(MeleeState::Fall));
}

#[test]
fn action_building_snapshots_the_starting_frame() {
    let mut f0 = frame(MeleeState::Wait);
    f0.position = Vector { x: 1500, y: 0 };
    f0.velocity = Vector { x: -250, y: 10 };
    let v = vec![f0, frame(MeleeState::Wait), frame(MeleeState::Wait)];
    let mut c = ActionBuilder::new(&v);
    c.start_action();
    assert!(c.action_init_data.is_some());
    c.skip_broad_state(BroadState::Ground);
    let a = c.finish_action(HighLevelAction::GroundWait);
    // finishing consumes the snapshot
    assert!(c.action_init_data.is_none());
    assert_eq!(a.frame_start, 0);
    assert_eq!(a.frame_end, 3);
    assert_eq!(a.start_state, BroadState::Ground);
    assert_eq!(a.action_taken, HighLevelAction::GroundWait);
    assert_eq!(a.initial_position, Vector { x: 1500, y: 0 });
    assert_eq!(a.initial_velocity, Vector { x: -250, y: 10 });
}
