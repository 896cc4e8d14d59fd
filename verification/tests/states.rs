use melee_actions::states::ActionableState;
use melee_actions::states::AirAttack;
use melee_actions::states::AttackType;
use melee_actions::states::BroadState;
use melee_actions::states::GroundAttack;
use melee_actions::states::HighLevelAction;
use melee_actions::states::LedgeAction;
use melee_actions::states::MeleeState;

#[test]
fn broad_state_total_over_catalogue() {
    // every id in the catalogue classifies without panicking
    for id in 0..=340u16 {
        let _ = MeleeState::from_u16(id).broad_state();
    }
}

#[test]
fn out_of_catalogue_ids_degrade_to_inactionable() {
    assert_eq!(MeleeState::from_u16(341).broad_state(), BroadState::GenericInactionable);
    assert_eq!(MeleeState::from_u16(500).broad_state(), BroadState::GenericInactionable);
    assert_eq!(MeleeState::from_u16(u16::MAX).broad_state(), BroadState::GenericInactionable);
    assert_eq!(MeleeState::from_u16(341), MeleeState::Passive);
}

#[test]
fn from_u16_hits_catalogue_entries() {
    assert_eq!(MeleeState::from_u16(0), MeleeState::DeadDown);
    assert_eq!(MeleeState::from_u16(14), MeleeState::Wait);
    assert_eq!(MeleeState::from_u16(24), MeleeState::KneeBend);
    assert_eq!(MeleeState::from_u16(253), MeleeState::CliffWait);
    assert_eq!(MeleeState::from_u16(340), MeleeState::BarrelCannonWait);
}

#[test]
fn broad_state_samples() {
    assert_eq!(MeleeState::Wait.broad_state(), BroadState::Ground);
    assert_eq!(MeleeState::Fall.broad_state(), BroadState::Air);
    assert_eq!(MeleeState::WalkSlow.broad_state(), BroadState::Walk);
    assert_eq!(MeleeState::Dash.broad_state(), BroadState::DashRun);
    assert_eq!(MeleeState::KneeBend.broad_state(), BroadState::JumpSquat);
    assert_eq!(MeleeState::JumpAerialF.broad_state(), BroadState::AirJump);
    assert_eq!(MeleeState::Attack11.broad_state(), BroadState::Attack);
    assert_eq!(MeleeState::DamageHi1.broad_state(), BroadState::Hitstun);
    assert_eq!(MeleeState::GuardOn.broad_state(), BroadState::Shield);
    assert_eq!(MeleeState::CliffCatch.broad_state(), BroadState::Ledge);
    assert_eq!(MeleeState::CliffAttackQuick.broad_state(), BroadState::LedgeAction);
    assert_eq!(MeleeState::LandingFallSpecial.broad_state(), BroadState::SpecialLanding);
    assert_eq!(MeleeState::EscapeAir.broad_state(), BroadState::Airdodge);
    assert_eq!(MeleeState::EscapeF.broad_state(), BroadState::Roll);
    assert_eq!(MeleeState::Escape.broad_state(), BroadState::Spotdodge);
    assert_eq!(MeleeState::Catch.broad_state(), BroadState::Grab);
    assert_eq!(MeleeState::SquatWait.broad_state(), BroadState::Crouch);
    assert_eq!(MeleeState::Sleep.broad_state(), BroadState::GenericInactionable);
}

#[test]
fn actionable_state_marks_valid_starting_points() {
    assert_eq!(MeleeState::Wait.actionable_state(), Some(ActionableState::Ground));
    assert_eq!(MeleeState::WalkFast.actionable_state(), Some(ActionableState::Ground));
    assert_eq!(MeleeState::SquatWait.actionable_state(), Some(ActionableState::Ground));
    assert_eq!(MeleeState::Fall.actionable_state(), Some(ActionableState::Air));
    assert_eq!(MeleeState::JumpAerialB.actionable_state(), Some(ActionableState::Air));
    assert_eq!(MeleeState::Dash.actionable_state(), Some(ActionableState::Dash));
    assert_eq!(MeleeState::Run.actionable_state(), Some(ActionableState::Run));
    assert_eq!(MeleeState::TurnRun.actionable_state(), Some(ActionableState::Run));
    assert_eq!(MeleeState::Guard.actionable_state(), Some(ActionableState::Shield));
    assert_eq!(MeleeState::CliffWait.actionable_state(), Some(ActionableState::Ledge));
}

#[test]
fn committed_frames_are_not_actionable() {
    // mid-attack, hitstun, the single-frame ledge catch, jump squat, and
    // inactionable states cannot begin a new action
    assert_eq!(MeleeState::Attack11.actionable_state(), None);
    assert_eq!(MeleeState::AttackAirN.actionable_state(), None);
    assert_eq!(MeleeState::DamageFlyN.actionable_state(), None);
    assert_eq!(MeleeState::CliffCatch.actionable_state(), None);
    assert_eq!(MeleeState::KneeBend.actionable_state(), None);
    assert_eq!(MeleeState::Sleep.actionable_state(), None);
    assert_eq!(MeleeState::LandingFallSpecial.actionable_state(), None);
    assert_eq!(MeleeState::EscapeAir.actionable_state(), None);
}

#[test]
fn ledge_action_aliases_quick_and_slow_variants() {
    assert_eq!(MeleeState::CliffClimbSlow.ledge_action(), Some(LedgeAction::GetUp));
    assert_eq!(MeleeState::CliffClimbQuick.ledge_action(), Some(LedgeAction::GetUp));
    assert_eq!(MeleeState::CliffAttackSlow.ledge_action(), Some(LedgeAction::Attack));
    assert_eq!(MeleeState::CliffAttackQuick.ledge_action(), Some(LedgeAction::Attack));
    assert_eq!(MeleeState::CliffEscapeSlow.ledge_action(), Some(LedgeAction::Roll));
    assert_eq!(MeleeState::CliffEscapeQuick.ledge_action(), Some(LedgeAction::Roll));
    assert_eq!(MeleeState::CliffJumpSlow1.ledge_action(), Some(LedgeAction::Jump));
    assert_eq!(MeleeState::CliffJumpSlow2.ledge_action(), Some(LedgeAction::Jump));
    assert_eq!(MeleeState::CliffJumpQuick1.ledge_action(), Some(LedgeAction::Jump));
    assert_eq!(MeleeState::CliffJumpQuick2.ledge_action(), Some(LedgeAction::Jump));
    assert_eq!(MeleeState::CliffWait.ledge_action(), None);
    assert_eq!(MeleeState::Wait.ledge_action(), None);
}

#[test]
fn attack_type_aliases_one_move_across_its_phases() {
    assert_eq!(
        MeleeState::Attack11.attack_type(),
        Some(AttackType::GroundAttack(GroundAttack::Jab))
    );
    assert_eq!(
        MeleeState::Attack100Loop.attack_type(),
        Some(AttackType::GroundAttack(GroundAttack::Jab))
    );
    assert_eq!(
        MeleeState::Attack100End.attack_type(),
        Some(AttackType::GroundAttack(GroundAttack::Jab))
    );
    assert_eq!(
        MeleeState::AttackDash.attack_type(),
        Some(AttackType::GroundAttack(GroundAttack::DashAttack))
    );
    assert_eq!(
        MeleeState::AttackS3Hi.attack_type(),
        Some(AttackType::GroundAttack(GroundAttack::Ftilt))
    );
    assert_eq!(
        MeleeState::AttackS4LwS.attack_type(),
        Some(AttackType::GroundAttack(GroundAttack::Fsmash))
    );
    assert_eq!(
        MeleeState::AttackHi4.attack_type(),
        Some(AttackType::GroundAttack(GroundAttack::Usmash))
    );
    assert_eq!(
        MeleeState::AttackLw3.attack_type(),
        Some(AttackType::GroundAttack(GroundAttack::Dtilt))
    );
    assert_eq!(
        MeleeState::AttackAirN.attack_type(),
        Some(AttackType::AirAttack(AirAttack::Nair))
    );
    assert_eq!(
        MeleeState::AttackAirHi.attack_type(),
        Some(AttackType::AirAttack(AirAttack::Uair))
    );
    assert_eq!(
        MeleeState::AttackAirLw.attack_type(),
        Some(AttackType::AirAttack(AirAttack::Dair))
    );
    assert_eq!(MeleeState::Wait.attack_type(), None);
    assert_eq!(MeleeState::SwordSwing1.attack_type(), None);
}

#[test]
fn every_attack_state_classifies() {
    for id in 0..=340u16 {
        let s = MeleeState::from_u16(id);
        if s.broad_state() == BroadState::Attack {
            assert!(s.attack_type().is_some(), "attack id {} has no attack type", id);
        }
        if s.broad_state() == BroadState::LedgeAction {
            assert!(s.ledge_action().is_some(), "ledge id {} has no ledge action", id);
        }
    }
}

#[test]
fn action_code_round_trips_over_the_whole_table() {
    for n in 0..=63u8 {
        let h = HighLevelAction::from_u8(n).expect("code inside the table");
        assert_eq!(h.into_u8(), n);
    }
    assert_eq!(HighLevelAction::from_u8(64), None);
    assert_eq!(HighLevelAction::from_u8(255), None);
}

#[test]
fn action_code_fixed_values() {
    assert_eq!(HighLevelAction::GroundAttack(GroundAttack::Utilt).into_u8(), 0);
    assert_eq!(HighLevelAction::GroundAttack(GroundAttack::DashAttack).into_u8(), 7);
    assert_eq!(HighLevelAction::Aerial(AirAttack::Nair).into_u8(), 8);
    assert_eq!(HighLevelAction::Fullhop.into_u8(), 18);
    assert_eq!(HighLevelAction::Shorthop.into_u8(), 24);
    assert_eq!(HighLevelAction::Grab.into_u8(), 30);
    assert_eq!(HighLevelAction::WavedashRight.into_u8(), 48);
    assert_eq!(HighLevelAction::WavelandLeft.into_u8(), 53);
    assert_eq!(HighLevelAction::Crouch.into_u8(), 62);
    assert_eq!(HighLevelAction::Hitstun.into_u8(), HighLevelAction::MAX_VALUE);
    assert_eq!(HighLevelAction::MAX_VALUE, 63);
    assert_eq!(HighLevelAction::VARIANT_COUNT, 64);
}

#[test]
fn action_codes_are_distinct() {
    let mut seen = [false; 64];
    for n in 0..=63u8 {
        let h = HighLevelAction::from_u8(n).unwrap();
        let code = h.into_u8() as usize;
        assert!(!seen[code]);
        seen[code] = true;
    }
    assert!(seen.iter().all(|&s| s));
}
