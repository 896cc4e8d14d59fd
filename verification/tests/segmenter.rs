use melee_actions::parse;
use melee_actions::states::AirAttack;
use melee_actions::states::BroadState;
use melee_actions::states::GroundAttack;
use melee_actions::states::HighLevelAction;
use melee_actions::states::MeleeState;
use melee_actions::Character;
use melee_actions::Direction;
use melee_actions::Frame;
use melee_actions::Vector;

fn frame(state: MeleeState) -> Frame {
    Frame {
        character: Character::Fox,
        port_idx: 0,
        direction: Direction::Right,
        velocity: Vector { x: 0, y: 0 },
        hit_velocity: Vector { x: 0, y: 0 },
        position: Vector { x: 0, y: 0 },
        state,
        anim_frame: 0,
    }
}

fn frames(states: &[MeleeState]) -> Vec<Frame> {
    states.iter().map(|&s| frame(s)).collect()
}

fn repeated(state: MeleeState, n: usize) -> Vec<Frame> {
    std::iter::repeat(frame(state)).take(n).collect()
}

fn check_ordering(frames: &[Frame], actions: &[melee_actions::Action]) {
    for a in actions {
        assert!(a.frame_start < a.frame_end, "empty span: {:?}", a);
        assert!(a.frame_end <= frames.len(), "span past the end: {:?}", a);
    }
    for pair in actions.windows(2) {
        assert!(
            pair[0].frame_end <= pair[1].frame_start,
            "overlapping actions: {:?} and {:?}",
            pair[0],
            pair[1]
        );
    }
}

#[test]
fn empty_input_yields_no_actions() {
    let v: Vec<Frame> = Vec::new();
    assert!(parse(&v).is_empty());
}

#[test]
fn ground_wait_commits_after_full_courtesy() {
    let v = repeated(MeleeState::Wait, 7);
    let actions = parse(&v);
    check_ordering(&v, &actions);
    assert_eq!(actions.len(), 1);
    assert_eq!(actions[0].action_taken, HighLevelAction::GroundWait);
    assert_eq!(actions[0].start_state, BroadState::Ground);
    assert_eq!((actions[0].frame_start, actions[0].frame_end), (0, 7));
}

#[test]
fn fullhop_above_threshold() {
    // a jump squat whose terminal frame's vertical velocity exceeds the
    // character's threshold, then a full quiet air window
    let mut v = frames(&[MeleeState::Wait, MeleeState::Wait]);
    for _ in 0..3 {
        let mut f = frame(MeleeState::KneeBend);
        f.velocity = Vector { x: 0, y: 1500 };
        v.push(f);
    }
    v.extend(repeated(MeleeState::Fall, 10));
    let actions = parse(&v);
    check_ordering(&v, &actions);
    assert_eq!(actions.len(), 1);
    assert_eq!(actions[0].action_taken, HighLevelAction::Fullhop);
    assert_eq!((actions[0].frame_start, actions[0].frame_end), (0, 15));
}

#[test]
fn shorthop_below_threshold() {
    let mut v = frames(&[MeleeState::Wait, MeleeState::Wait]);
    v.extend(repeated(MeleeState::KneeBend, 3));
    v.extend(repeated(MeleeState::Fall, 10));
    let actions = parse(&v);
    check_ordering(&v, &actions);
    assert_eq!(actions.len(), 1);
    assert_eq!(actions[0].action_taken, HighLevelAction::Shorthop);
}

#[test]
fn jump_by_a_character_without_a_threshold_is_abandoned() {
    // the threshold table has no entry for the final roster character, so
    // the jump is dropped rather than classified by a guess
    let mut v = frames(&[MeleeState::Wait]);
    let mut squat = frame(MeleeState::KneeBend);
    squat.character = Character::Roy;
    v.push(squat);
    v.extend(repeated(MeleeState::Fall, 10));
    let actions = parse(&v);
    check_ordering(&v, &actions);
    assert_eq!(actions.len(), 1);
    assert_eq!(actions[0].action_taken, HighLevelAction::AirWait);
    assert_eq!((actions[0].frame_start, actions[0].frame_end), (2, 12));
}

fn waveland_input(landing_x_velocity: i32) -> Vec<Frame> {
    let mut v = frames(&[MeleeState::Fall, MeleeState::EscapeAir, MeleeState::EscapeAir]);
    let mut landing = frame(MeleeState::LandingFallSpecial);
    landing.velocity = Vector { x: landing_x_velocity, y: 0 };
    v.push(landing);
    v.push(frame(MeleeState::LandingFallSpecial));
    v
}

#[test]
fn airdodge_into_landing_is_a_waveland() {
    // horizontal landing velocity of -2.0 units: left; +2.0: right; 0: down
    let cases = [
        (-2000, HighLevelAction::WavelandLeft),
        (2000, HighLevelAction::WavelandRight),
        (0, HighLevelAction::WavelandDown),
        (-100, HighLevelAction::WavelandDown),
        (101, HighLevelAction::WavelandRight),
    ];
    for (vx, expected) in cases {
        let v = waveland_input(vx);
        let actions = parse(&v);
        check_ordering(&v, &actions);
        assert_eq!(actions.len(), 1, "velocity {}", vx);
        assert_eq!(actions[0].action_taken, expected, "velocity {}", vx);
        assert_eq!((actions[0].frame_start, actions[0].frame_end), (0, 5));
    }
}

fn wavedash_input(landing_x_velocity: i32) -> Vec<Frame> {
    let mut v = frames(&[MeleeState::Wait, MeleeState::KneeBend, MeleeState::EscapeAir]);
    let mut landing = frame(MeleeState::LandingFallSpecial);
    landing.velocity = Vector { x: landing_x_velocity, y: 0 };
    v.push(landing);
    v.push(frame(MeleeState::LandingFallSpecial));
    v
}

#[test]
fn waveland_inside_a_jump_window_is_a_wavedash() {
    let cases = [
        (-2000, HighLevelAction::WavedashLeft),
        (2000, HighLevelAction::WavedashRight),
        (0, HighLevelAction::WavedashDown),
    ];
    for (vx, expected) in cases {
        let v = wavedash_input(vx);
        let actions = parse(&v);
        check_ordering(&v, &actions);
        assert_eq!(actions.len(), 1, "velocity {}", vx);
        assert_eq!(actions[0].action_taken, expected, "velocity {}", vx);
    }
}

#[test]
fn airdodge_without_a_landing_stands_alone() {
    let mut v = frames(&[MeleeState::Fall]);
    v.extend(repeated(MeleeState::EscapeAir, 3));
    v.extend(repeated(MeleeState::Fall, 2));
    let actions = parse(&v);
    check_ordering(&v, &actions);
    assert_eq!(actions.len(), 1);
    assert_eq!(actions[0].action_taken, HighLevelAction::Airdodge);
    assert_eq!((actions[0].frame_start, actions[0].frame_end), (0, 4));
}

#[test]
fn hitstun_absorbs_a_short_gap() {
    // a hitstun run, a two-frame air gap inside the five-frame tolerance,
    // more hitstun, then a lasting return to the ground: one action
    let mut v = repeated(MeleeState::Fall, 2);
    v.extend(repeated(MeleeState::DamageHi1, 3));
    v.extend(repeated(MeleeState::Fall, 2));
    v.extend(repeated(MeleeState::DamageHi1, 2));
    v.extend(repeated(MeleeState::Wait, 8));
    let actions = parse(&v);
    check_ordering(&v, &actions);
    assert_eq!(actions.len(), 2);
    assert_eq!(actions[0].action_taken, HighLevelAction::Hitstun);
    assert_eq!((actions[0].frame_start, actions[0].frame_end), (0, 9));
    assert_eq!(actions[1].action_taken, HighLevelAction::GroundWait);
    assert_eq!((actions[1].frame_start, actions[1].frame_end), (9, 17));
}

#[test]
fn hitstun_absorbs_a_gap_of_any_category() {
    // the gap need not be airborne: a grounded two-frame gap inside the
    // tolerance is absorbed too when hitstun resumes
    let mut v = frames(&[MeleeState::Fall]);
    v.extend(repeated(MeleeState::DamageHi1, 2));
    v.extend(repeated(MeleeState::Wait, 2));
    v.extend(repeated(MeleeState::DamageHi1, 2));
    v.extend(repeated(MeleeState::Wait, 8));
    let actions = parse(&v);
    check_ordering(&v, &actions);
    assert_eq!(actions.len(), 2);
    assert_eq!(actions[0].action_taken, HighLevelAction::Hitstun);
    assert_eq!((actions[0].frame_start, actions[0].frame_end), (0, 7));
    assert_eq!(actions[1].action_taken, HighLevelAction::GroundWait);
    assert_eq!((actions[1].frame_start, actions[1].frame_end), (7, 15));
}

#[test]
fn hitstun_absorbs_a_gap_of_exactly_the_tolerance() {
    // a five-frame gap sits exactly on the tolerance and is still absorbed
    let mut v = frames(&[MeleeState::Fall]);
    v.extend(repeated(MeleeState::DamageHi1, 2));
    v.extend(repeated(MeleeState::Fall, 5));
    v.extend(repeated(MeleeState::DamageHi1, 2));
    let actions = parse(&v);
    check_ordering(&v, &actions);
    assert_eq!(actions.len(), 1);
    assert_eq!(actions[0].action_taken, HighLevelAction::Hitstun);
    assert_eq!((actions[0].frame_start, actions[0].frame_end), (0, 10));
}

#[test]
fn hitstun_excludes_a_gap_of_six_frames() {
    // one frame past the tolerance: the episode ends with the first run
    let mut v = frames(&[MeleeState::Fall]);
    v.extend(repeated(MeleeState::DamageHi1, 2));
    v.extend(repeated(MeleeState::Fall, 6));
    v.extend(repeated(MeleeState::DamageHi1, 2));
    let actions = parse(&v);
    check_ordering(&v, &actions);
    assert_eq!(actions.len(), 2);
    assert_eq!(actions[0].action_taken, HighLevelAction::Hitstun);
    assert_eq!((actions[0].frame_start, actions[0].frame_end), (0, 3));
    assert_eq!(actions[1].action_taken, HighLevelAction::Hitstun);
    assert_eq!((actions[1].frame_start, actions[1].frame_end), (3, 11));
}

#[test]
fn hitstun_leaves_a_trailing_gap_outside_the_action() {
    // a short gap that hitstun never resumes after is not part of the action
    let mut v = frames(&[MeleeState::Fall]);
    v.extend(repeated(MeleeState::DamageHi1, 3));
    v.extend(repeated(MeleeState::Fall, 2));
    v.extend(repeated(MeleeState::Wait, 6));
    let actions = parse(&v);
    check_ordering(&v, &actions);
    assert_eq!(actions.len(), 2);
    assert_eq!(actions[0].action_taken, HighLevelAction::Hitstun);
    assert_eq!((actions[0].frame_start, actions[0].frame_end), (0, 4));
    assert_eq!(actions[1].action_taken, HighLevelAction::GroundWait);
    assert_eq!((actions[1].frame_start, actions[1].frame_end), (4, 12));
}

#[test]
fn hitstun_ends_at_a_long_gap() {
    // the air gap after the hitstun run exceeds the tolerance, so the
    // action ends with the run and the air is a separate wait
    let mut v = repeated(MeleeState::Fall, 1);
    v.extend(repeated(MeleeState::DamageHi1, 3));
    v.extend(repeated(MeleeState::Fall, 12));
    let actions = parse(&v);
    check_ordering(&v, &actions);
    assert_eq!(actions.len(), 2);
    assert_eq!(actions[0].action_taken, HighLevelAction::Hitstun);
    assert_eq!((actions[0].frame_start, actions[0].frame_end), (0, 4));
    assert_eq!(actions[1].action_taken, HighLevelAction::AirWait);
}

#[test]
fn attack_is_classified_and_consumed_whole() {
    let mut v = frames(&[MeleeState::Wait]);
    v.extend(repeated(MeleeState::Attack11, 2));
    v.extend(repeated(MeleeState::Attack12, 2));
    v.extend(repeated(MeleeState::Wait, 6));
    let actions = parse(&v);
    check_ordering(&v, &actions);
    assert_eq!(actions.len(), 2);
    assert_eq!(
        actions[0].action_taken,
        HighLevelAction::GroundAttack(GroundAttack::Jab)
    );
    assert_eq!((actions[0].frame_start, actions[0].frame_end), (0, 5));
    assert_eq!(actions[1].action_taken, HighLevelAction::GroundWait);
}

#[test]
fn shorthop_aerial() {
    let mut v = frames(&[MeleeState::Wait, MeleeState::KneeBend]);
    v.extend(repeated(MeleeState::AttackAirN, 3));
    v.extend(repeated(MeleeState::Fall, 2));
    let actions = parse(&v);
    check_ordering(&v, &actions);
    // the trailing two air frames are a truncated tail and emit nothing
    assert_eq!(actions.len(), 1);
    assert_eq!(
        actions[0].action_taken,
        HighLevelAction::ShorthopAerial(AirAttack::Nair)
    );
    assert_eq!((actions[0].frame_start, actions[0].frame_end), (0, 5));
}

#[test]
fn air_jump_then_aerial_is_a_jump_aerial() {
    let mut v = frames(&[MeleeState::Fall, MeleeState::JumpAerialF]);
    v.extend(repeated(MeleeState::AttackAirHi, 3));
    v.extend(repeated(MeleeState::Wait, 6));
    let actions = parse(&v);
    check_ordering(&v, &actions);
    assert_eq!(actions.len(), 2);
    assert_eq!(
        actions[0].action_taken,
        HighLevelAction::JumpAerial(AirAttack::Uair)
    );
    assert_eq!(actions[1].action_taken, HighLevelAction::GroundWait);
}

#[test]
fn quiet_air_jump_stands_alone() {
    let mut v = frames(&[MeleeState::Fall, MeleeState::JumpAerialF]);
    v.extend(repeated(MeleeState::JumpAerialF, 10));
    v.extend(repeated(MeleeState::JumpAerialF, 2));
    let actions = parse(&v);
    check_ordering(&v, &actions);
    assert_eq!(actions.len(), 1);
    assert_eq!(actions[0].action_taken, HighLevelAction::AirJump);
    assert_eq!((actions[0].frame_start, actions[0].frame_end), (0, 14));
}

#[test]
fn walk_commits_with_its_direction() {
    let mut v: Vec<Frame> = Vec::new();
    let mut w = frame(MeleeState::WalkSlow);
    w.direction = Direction::Left;
    v.push(w);
    v.extend(repeated(MeleeState::WalkMiddle, 5));
    v.extend(repeated(MeleeState::WalkFast, 2));
    let actions = parse(&v);
    check_ordering(&v, &actions);
    assert_eq!(actions.len(), 1);
    assert_eq!(actions[0].action_taken, HighLevelAction::WalkLeft);
    assert_eq!((actions[0].frame_start, actions[0].frame_end), (0, 8));
}

#[test]
fn dash_commits_with_its_direction() {
    let mut v = frames(&[MeleeState::Dash]);
    v.extend(repeated(MeleeState::Run, 5));
    let actions = parse(&v);
    check_ordering(&v, &actions);
    assert_eq!(actions.len(), 1);
    assert_eq!(actions[0].action_taken, HighLevelAction::DashRight);
    assert_eq!((actions[0].frame_start, actions[0].frame_end), (0, 6));
}

#[test]
fn dash_attack_preempts_the_dash() {
    let mut v = frames(&[MeleeState::Dash]);
    v.extend(repeated(MeleeState::AttackDash, 3));
    let actions = parse(&v);
    check_ordering(&v, &actions);
    assert_eq!(actions.len(), 1);
    assert_eq!(
        actions[0].action_taken,
        HighLevelAction::GroundAttack(GroundAttack::DashAttack)
    );
    assert_eq!((actions[0].frame_start, actions[0].frame_end), (0, 4));
}

#[test]
fn roll_reads_its_direction_frame() {
    let mut v = frames(&[MeleeState::Wait]);
    v.extend(repeated(MeleeState::EscapeF, 3));
    let actions = parse(&v);
    check_ordering(&v, &actions);
    assert_eq!(actions.len(), 1);
    assert_eq!(actions[0].action_taken, HighLevelAction::RollForward);
    assert_eq!((actions[0].frame_start, actions[0].frame_end), (0, 4));

    let mut v = frames(&[MeleeState::Wait]);
    v.extend(repeated(MeleeState::EscapeB, 3));
    let actions = parse(&v);
    assert_eq!(actions[0].action_taken, HighLevelAction::RollBackward);
}

#[test]
fn grab_and_spotdodge_are_single_shot() {
    let mut v = frames(&[MeleeState::Wait]);
    v.extend(repeated(MeleeState::Catch, 3));
    let actions = parse(&v);
    check_ordering(&v, &actions);
    assert_eq!(actions.len(), 1);
    assert_eq!(actions[0].action_taken, HighLevelAction::Grab);

    let mut v = frames(&[MeleeState::Wait]);
    v.extend(repeated(MeleeState::Escape, 2));
    let actions = parse(&v);
    assert_eq!(actions.len(), 1);
    assert_eq!(actions[0].action_taken, HighLevelAction::Spotdodge);
}

#[test]
fn crouch_commits_after_full_courtesy() {
    let mut v = repeated(MeleeState::Squat, 5);
    v.extend(repeated(MeleeState::SquatWait, 3));
    let actions = parse(&v);
    check_ordering(&v, &actions);
    assert_eq!(actions.len(), 1);
    assert_eq!(actions[0].action_taken, HighLevelAction::Crouch);
    assert_eq!((actions[0].frame_start, actions[0].frame_end), (0, 8));
}

#[test]
fn shield_commits_after_full_courtesy() {
    let mut v = frames(&[MeleeState::GuardOn]);
    v.extend(repeated(MeleeState::Guard, 5));
    let actions = parse(&v);
    check_ordering(&v, &actions);
    assert_eq!(actions.len(), 1);
    assert_eq!(actions[0].action_taken, HighLevelAction::Shield);
    assert_eq!((actions[0].frame_start, actions[0].frame_end), (0, 6));
}

#[test]
fn ledge_wait_commits_after_full_courtesy() {
    let mut v = frames(&[MeleeState::CliffCatch]);
    v.extend(repeated(MeleeState::CliffWait, 16));
    let actions = parse(&v);
    check_ordering(&v, &actions);
    assert_eq!(actions.len(), 1);
    assert_eq!(actions[0].action_taken, HighLevelAction::LedgeWait);
    assert_eq!((actions[0].frame_start, actions[0].frame_end), (1, 16));
}

#[test]
fn ledge_drop_after_quiet_air_window() {
    let mut v = repeated(MeleeState::CliffWait, 2);
    v.extend(repeated(MeleeState::Fall, 10));
    let actions = parse(&v);
    check_ordering(&v, &actions);
    assert_eq!(actions.len(), 1);
    assert_eq!(actions[0].action_taken, HighLevelAction::LedgeDrop);
    assert_eq!((actions[0].frame_start, actions[0].frame_end), (0, 12));
}

#[test]
fn ledge_hop_is_a_drop_then_a_jump() {
    let mut v = frames(&[MeleeState::CliffWait, MeleeState::Fall, MeleeState::Fall]);
    v.extend(repeated(MeleeState::JumpAerialF, 11));
    let actions = parse(&v);
    check_ordering(&v, &actions);
    assert_eq!(actions.len(), 1);
    assert_eq!(actions[0].action_taken, HighLevelAction::LedgeHop);
    assert_eq!((actions[0].frame_start, actions[0].frame_end), (0, 14));
}

#[test]
fn ledgedash_is_a_waveland_off_the_hang() {
    let mut v = frames(&[
        MeleeState::CliffWait,
        MeleeState::Fall,
        MeleeState::JumpAerialF,
        MeleeState::EscapeAir,
        MeleeState::EscapeAir,
    ]);
    let mut landing = frame(MeleeState::LandingFallSpecial);
    landing.velocity = Vector { x: 2000, y: 0 };
    v.push(landing);
    v.push(frame(MeleeState::LandingFallSpecial));
    let actions = parse(&v);
    check_ordering(&v, &actions);
    assert_eq!(actions.len(), 1);
    assert_eq!(actions[0].action_taken, HighLevelAction::LedgeDash);
    assert_eq!((actions[0].frame_start, actions[0].frame_end), (0, 7));
}

#[test]
fn ledge_aerial_after_the_hop() {
    let mut v = frames(&[MeleeState::CliffWait, MeleeState::Fall, MeleeState::JumpAerialF]);
    v.extend(repeated(MeleeState::AttackAirHi, 3));
    let actions = parse(&v);
    check_ordering(&v, &actions);
    assert_eq!(actions.len(), 1);
    assert_eq!(
        actions[0].action_taken,
        HighLevelAction::LedgeAerial(AirAttack::Uair)
    );
    assert_eq!((actions[0].frame_start, actions[0].frame_end), (0, 6));
}

#[test]
fn ledge_recovery_animation_classifies_directly() {
    let mut v = repeated(MeleeState::CliffWait, 2);
    v.extend(repeated(MeleeState::CliffAttackQuick, 4));
    let actions = parse(&v);
    check_ordering(&v, &actions);
    assert_eq!(actions.len(), 1);
    assert_eq!(actions[0].action_taken, HighLevelAction::LedgeAttack);
    assert_eq!((actions[0].frame_start, actions[0].frame_end), (0, 6));

    let mut v = repeated(MeleeState::CliffWait, 2);
    v.extend(repeated(MeleeState::CliffClimbSlow, 4));
    let actions = parse(&v);
    assert_eq!(actions[0].action_taken, HighLevelAction::LedgeGetUp);

    let mut v = repeated(MeleeState::CliffWait, 2);
    v.extend(repeated(MeleeState::CliffEscapeQuick, 4));
    let actions = parse(&v);
    assert_eq!(actions[0].action_taken, HighLevelAction::LedgeRoll);

    let mut v = repeated(MeleeState::CliffWait, 2);
    v.extend(repeated(MeleeState::CliffJumpQuick1, 4));
    let actions = parse(&v);
    assert_eq!(actions[0].action_taken, HighLevelAction::LedgeJump);
}

#[test]
fn hitstun_off_the_ledge() {
    let mut v = frames(&[MeleeState::CliffWait]);
    v.extend(repeated(MeleeState::DamageFlyN, 3));
    v.extend(repeated(MeleeState::Wait, 6));
    let actions = parse(&v);
    check_ordering(&v, &actions);
    assert_eq!(actions.len(), 2);
    assert_eq!(actions[0].action_taken, HighLevelAction::Hitstun);
    assert_eq!((actions[0].frame_start, actions[0].frame_end), (0, 4));
    assert_eq!(actions[1].action_taken, HighLevelAction::GroundWait);
}

#[test]
fn inactionable_spans_produce_no_action() {
    // frames classified inactionable or as special landing emit nothing
    let mut v = repeated(MeleeState::Sleep, 4);
    v.extend(repeated(MeleeState::Wait, 6));
    let actions = parse(&v);
    check_ordering(&v, &actions);
    assert_eq!(actions.len(), 1);
    assert_eq!(actions[0].action_taken, HighLevelAction::GroundWait);
    assert_eq!((actions[0].frame_start, actions[0].frame_end), (4, 10));
}

#[test]
fn ground_attack_after_an_air_jump_is_an_unparseable_tail() {
    // only an aerial specialises an air jump; a grounded attack straight
    // out of it emits nothing
    let mut v = frames(&[MeleeState::Fall, MeleeState::JumpAerialF]);
    v.extend(repeated(MeleeState::Attack11, 3));
    v.extend(repeated(MeleeState::Wait, 6));
    let actions = parse(&v);
    check_ordering(&v, &actions);
    assert_eq!(actions.len(), 1);
    assert_eq!(actions[0].action_taken, HighLevelAction::GroundWait);
}

#[test]
fn ledge_hop_default_when_the_jump_resolves_plainly() {
    // an air jump off the hang followed by something that is neither an
    // airdodge, an attack, a landing nor hitstun stays a ledge hop
    let mut v = frames(&[MeleeState::CliffWait, MeleeState::Fall, MeleeState::JumpAerialF]);
    v.extend(repeated(MeleeState::Catch, 2));
    let actions = parse(&v);
    check_ordering(&v, &actions);
    assert_eq!(actions.len(), 1);
    assert_eq!(actions[0].action_taken, HighLevelAction::LedgeHop);
}

#[test]
fn inactionable_only_input_yields_nothing() {
    let v = repeated(MeleeState::Sleep, 12);
    assert!(parse(&v).is_empty());
}

#[test]
fn walk_direction_follows_the_first_frame() {
    let mut v = frames(&[MeleeState::WalkFast]);
    v.extend(repeated(MeleeState::WalkFast, 6));
    let actions = parse(&v);
    assert_eq!(actions.len(), 1);
    assert_eq!(actions[0].action_taken, HighLevelAction::WalkRight);
}

#[test]
fn long_mixed_sequence_stays_ordered_and_non_overlapping() {
    let mut v = repeated(MeleeState::Wait, 7);
    v.push(frame(MeleeState::Dash));
    v.extend(repeated(MeleeState::Run, 5));
    v.extend(repeated(MeleeState::KneeBend, 3));
    v.extend(repeated(MeleeState::AttackAirN, 4));
    v.extend(repeated(MeleeState::Fall, 3));
    v.extend(repeated(MeleeState::DamageHi1, 4));
    v.extend(repeated(MeleeState::Fall, 2));
    v.extend(repeated(MeleeState::DamageHi1, 2));
    v.extend(repeated(MeleeState::Wait, 9));
    v.extend(repeated(MeleeState::Squat, 8));
    let actions = parse(&v);
    check_ordering(&v, &actions);
    assert!(actions.len() >= 4);
    // every action begins on the frame its snapshot was taken from
    for a in &actions {
        assert_eq!(a.start_state, v[a.frame_start].state.broad_state());
        assert_eq!(a.initial_position, v[a.frame_start].position);
        assert_eq!(a.initial_velocity, v[a.frame_start].velocity);
    }
}
