//! The raw animation-state catalogue and its classification layers.
//!
//! A [`MeleeState`] is one of 341 recognised per-frame animation codes.
//! Each code belongs to exactly one coarse [`BroadState`] category; some
//! codes additionally classify as a specific attack, ledge recovery, or a
//! point where a new action may begin ([`ActionableState`]).

use vstd::prelude::*;

verus! {

/// One of the 18 coarse behavioural categories every raw state falls into.
#[derive(Clone, Copy, Debug, PartialEq, Eq, Structural)]
pub enum BroadState {
    Attack,
    Air,
    Airdodge,
    /// Landing lag after an airdodge or a special fall.
    SpecialLanding,
    Ground,
    Walk,
    DashRun,
    Shield,
    Ledge,
    LedgeAction,
    Hitstun,
    GenericInactionable,
    JumpSquat,
    AirJump,
    Crouch,
    Grab,
    Roll,
    Spotdodge,
}

/// The subset of situations in which a new action may validly begin.
#[derive(Clone, Copy, Debug, PartialEq, Eq, Structural)]
pub enum ActionableState {
    Air,
    Ground,
    Dash,
    Run,
    Shield,
    Ledge,
}

/// A specific grounded attack.
#[derive(Clone, Copy, Debug, PartialEq, Eq, Structural)]
pub enum GroundAttack {
    Utilt,
    Ftilt,
    Dtilt,
    Jab,
    Usmash,
    Dsmash,
    Fsmash,
    DashAttack,
}

/// A specific aerial attack.
#[derive(Clone, Copy, Debug, PartialEq, Eq, Structural)]
pub enum AirAttack {
    Nair,
    Uair,
    Fair,
    Bair,
    Dair,
}

/// A specific attack, grounded or aerial.
#[derive(Clone, Copy, Debug, PartialEq, Eq, Structural)]
pub enum AttackType {
    GroundAttack(GroundAttack),
    AirAttack(AirAttack),
}

/// An action taken from a ledge hang; quick and slow animation variants
/// alias to one outcome.
#[derive(Clone, Copy, Debug, PartialEq, Eq, Structural)]
pub enum LedgeAction {
    Attack,
    Jump,
    Roll,
    GetUp,
}

/// The closed catalogue of semantic actions the segmenter produces.
/// Must be derivable from a bounded window of raw-state history.
#[derive(Clone, Copy, Debug, PartialEq, Eq, Structural)]
pub enum HighLevelAction {
    GroundAttack(GroundAttack),
    Aerial(AirAttack),
    JumpAerial(AirAttack),
    Fullhop,
    FullhopAerial(AirAttack),
    Shorthop,
    ShorthopAerial(AirAttack),
    Grab,
    GroundWait,
    AirWait,
    AirJump,
    Airdodge,
    LedgeWait,
    LedgeDash,
    LedgeRoll,
    LedgeJump,
    /// A drop from the ledge followed by a jump.
    LedgeHop,
    LedgeAerial(AirAttack),
    LedgeGetUp,
    LedgeAttack,
    LedgeDrop,
    WavedashRight,
    WavedashDown,
    WavedashLeft,
    WavelandRight,
    WavelandDown,
    WavelandLeft,
    DashLeft,
    DashRight,
    WalkLeft,
    WalkRight,
    Shield,
    Spotdodge,
    RollForward,
    RollBackward,
    Crouch,
    Hitstun,
}

/// A raw per-frame animation-state code, one variant per recognised id.
/// The numeric id of a variant is its declaration position, starting at 0.
#[derive(Clone, Copy, Debug, PartialEq, Eq, Structural)]
pub enum MeleeState {
    DeadDown,
    DeadLeft,
    DeadRight,
    DeadUp,
    DeadUpStar,
    DeadUpStarIce,
    DeadUpFall,
    DeadUpFallHitCamera,
    DeadUpFallHitCameraFlat,
    DeadUpFallIce,
    DeadUpFallHitCameraIce,
    Sleep,
    Rebirth,
    RebirthWait,
    Wait,
    WalkSlow,
    WalkMiddle,
    WalkFast,
    Turn,
    TurnRun,
    Dash,
    Run,
    RunDirect,
    RunBrake,
    KneeBend,
    JumpF,
    JumpB,
    JumpAerialF,
    JumpAerialB,
    Fall,
    FallF,
    FallB,
    FallAerial,
    FallAerialF,
    FallAerialB,
    FallSpecial,
    FallSpecialF,
    FallSpecialB,
    DamageFall,
    Squat,
    SquatWait,
    SquatRv,
    Landing,
    LandingFallSpecial,
    Attack11,
    Attack12,
    Attack13,
    Attack100Start,
    Attack100Loop,
    Attack100End,
    AttackDash,
    AttackS3Hi,
    AttackS3HiS,
    AttackS3S,
    AttackS3LwS,
    AttackS3Lw,
    AttackHi3,
    AttackLw3,
    AttackS4Hi,
    AttackS4HiS,
    AttackS4S,
    AttackS4LwS,
    AttackS4Lw,
    AttackHi4,
    AttackLw4,
    AttackAirN,
    AttackAirF,
    AttackAirB,
    AttackAirHi,
    AttackAirLw,
    LandingAirN,
    LandingAirF,
    LandingAirB,
    LandingAirHi,
    LandingAirLw,
    DamageHi1,
    DamageHi2,
    DamageHi3,
    DamageN1,
    DamageN2,
    DamageN3,
    DamageLw1,
    DamageLw2,
    DamageLw3,
    DamageAir1,
    DamageAir2,
    DamageAir3,
    DamageFlyHi,
    DamageFlyN,
    DamageFlyLw,
    DamageFlyTop,
    DamageFlyRoll,
    LightGet,
    HeavyGet,
    LightThrowF,
    LightThrowB,
    LightThrowHi,
    LightThrowLw,
    LightThrowDash,
    LightThrowDrop,
    LightThrowAirF,
    LightThrowAirB,
    LightThrowAirHi,
    LightThrowAirLw,
    HeavyThrowF,
    HeavyThrowB,
    HeavyThrowHi,
    HeavyThrowLw,
    LightThrowF4,
    LightThrowB4,
    LightThrowHi4,
    LightThrowLw4,
    LightThrowAirF4,
    LightThrowAirB4,
    LightThrowAirHi4,
    LightThrowAirLw4,
    HeavyThrowF4,
    HeavyThrowB4,
    HeavyThrowHi4,
    HeavyThrowLw4,
    SwordSwing1,
    SwordSwing3,
    SwordSwing4,
    SwordSwingDash,
    BatSwing1,
    BatSwing3,
    BatSwing4,
    BatSwingDash,
    ParasolSwing1,
    ParasolSwing3,
    ParasolSwing4,
    ParasolSwingDash,
    HarisenSwing1,
    HarisenSwing3,
    HarisenSwing4,
    HarisenSwingDash,
    StarRodSwing1,
    StarRodSwing3,
    StarRodSwing4,
    StarRodSwingDash,
    LipStickSwing1,
    LipStickSwing3,
    LipStickSwing4,
    LipStickSwingDash,
    ItemParasolOpen,
    ItemParasolFall,
    ItemParasolFallSpecial,
    ItemParasolDamageFall,
    LGunShoot,
    LGunShootAir,
    LGunShootEmpty,
    LGunShootAirEmpty,
    FireFlowerShoot,
    FireFlowerShootAir,
    ItemScrew,
    ItemScrewAir,
    DamageScrew,
    DamageScrewAir,
    ItemScopeStart,
    ItemScopeRapid,
    ItemScopeFire,
    ItemScopeEnd,
    ItemScopeAirStart,
    ItemScopeAirRapid,
    ItemScopeAirFire,
    ItemScopeAirEnd,
    ItemScopeStartEmpty,
    ItemScopeRapidEmpty,
    ItemScopeFireEmpty,
    ItemScopeEndEmpty,
    ItemScopeAirStartEmpty,
    ItemScopeAirRapidEmpty,
    ItemScopeAirFireEmpty,
    ItemScopeAirEndEmpty,
    LiftWait,
    LiftWalk1,
    LiftWalk2,
    LiftTurn,
    GuardOn,
    Guard,
    GuardOff,
    GuardSetOff,
    GuardReflect,
    DownBoundU,
    DownWaitU,
    DownDamageU,
    DownStandU,
    DownAttackU,
    DownFowardU,
    DownBackU,
    DownSpotU,
    DownBoundD,
    DownWaitD,
    DownDamageD,
    DownStandD,
    DownAttackD,
    DownFowardD,
    DownBackD,
    DownSpotD,
    Passive,
    PassiveStandF,
    PassiveStandB,
    PassiveWall,
    PassiveWallJump,
    PassiveCeil,
    ShieldBreakFly,
    ShieldBreakFall,
    ShieldBreakDownU,
    ShieldBreakDownD,
    ShieldBreakStandU,
    ShieldBreakStandD,
    FuraFura,
    Catch,
    CatchPull,
    CatchDash,
    CatchDashPull,
    CatchWait,
    CatchAttack,
    CatchCut,
    ThrowF,
    ThrowB,
    ThrowHi,
    ThrowLw,
    CapturePulledHi,
    CaptureWaitHi,
    CaptureDamageHi,
    CapturePulledLw,
    CaptureWaitLw,
    CaptureDamageLw,
    CaptureCut,
    CaptureJump,
    CaptureNeck,
    CaptureFoot,
    EscapeF,
    EscapeB,
    Escape,
    EscapeAir,
    ReboundStop,
    Rebound,
    ThrownF,
    ThrownB,
    ThrownHi,
    ThrownLw,
    ThrownLwWomen,
    Pass,
    Ottotto,
    OttottoWait,
    FlyReflectWall,
    FlyReflectCeil,
    StopWall,
    StopCeil,
    MissFoot,
    CliffCatch,
    CliffWait,
    CliffClimbSlow,
    CliffClimbQuick,
    CliffAttackSlow,
    CliffAttackQuick,
    CliffEscapeSlow,
    CliffEscapeQuick,
    CliffJumpSlow1,
    CliffJumpSlow2,
    CliffJumpQuick1,
    CliffJumpQuick2,
    AppealR,
    AppealL,
    ShoulderedWait,
    ShoulderedWalkSlow,
    ShoulderedWalkMiddle,
    ShoulderedWalkFast,
    ShoulderedTurn,
    ThrownFF,
    ThrownFB,
    ThrownFHi,
    ThrownFLw,
    CaptureCaptain,
    CaptureYoshi,
    YoshiEgg,
    CaptureKoopa,
    CaptureDamageKoopa,
    CaptureWaitKoopa,
    ThrownKoopaF,
    ThrownKoopaB,
    CaptureKoopaAir,
    CaptureDamageKoopaAir,
    CaptureWaitKoopaAir,
    ThrownKoopaAirF,
    ThrownKoopaAirB,
    CaptureKirby,
    CaptureWaitKirby,
    ThrownKirbyStar,
    ThrownCopyStar,
    ThrownKirby,
    BarrelWait,
    Bury,
    BuryWait,
    BuryJump,
    DamageSong,
    DamageSongWait,
    DamageSongRv,
    DamageBind,
    CaptureMewtwo,
    CaptureMewtwoAir,
    ThrownMewtwo,
    ThrownMewtwoAir,
    WarpStarJump,
    WarpStarFall,
    HammerWait,
    HammerWalk,
    HammerTurn,
    HammerKneeBend,
    HammerFall,
    HammerJump,
    HammerLanding,
    KinokoGiantStart,
    KinokoGiantStartAir,
    KinokoGiantEnd,
    KinokoGiantEndAir,
    KinokoSmallStart,
    KinokoSmallStartAir,
    KinokoSmallEnd,
    KinokoSmallEndAir,
    Entry,
    EntryStart,
    EntryEnd,
    DamageIce,
    DamageIceJump,
    CaptureMasterHand,
    CaptureDamageMasterHand,
    CaptureWaitMasterHand,
    ThrownMasterHand,
    CaptureKirbyYoshi,
    KirbyYoshiEgg,
    CaptureRedead,
    CaptureLikeLike,
    DownReflect,
    CaptureCrazyHand,
    CaptureDamageCrazyHand,
    CaptureWaitCrazyHand,
    ThrownCrazyHand,
    BarrelCannonWait,
}

impl MeleeState {
    /// The numeric id of this state: its position in the declaration order.
    pub open spec fn id_spec(self) -> int {
        match self {
            MeleeState::DeadDown => 0,
            MeleeState::DeadLeft => 1,
            MeleeState::DeadRight => 2,
            MeleeState::DeadUp => 3,
            MeleeState::DeadUpStar => 4,
            MeleeState::DeadUpStarIce => 5,
            MeleeState::DeadUpFall => 6,
            MeleeState::DeadUpFallHitCamera => 7,
            MeleeState::DeadUpFallHitCameraFlat => 8,
            MeleeState::DeadUpFallIce => 9,
            MeleeState::DeadUpFallHitCameraIce => 10,
            MeleeState::Sleep => 11,
            MeleeState::Rebirth => 12,
            MeleeState::RebirthWait => 13,
            MeleeState::Wait => 14,
            MeleeState::WalkSlow => 15,
            MeleeState::WalkMiddle => 16,
            MeleeState::WalkFast => 17,
            MeleeState::Turn => 18,
            MeleeState::TurnRun => 19,
            MeleeState::Dash => 20,
            MeleeState::Run => 21,
            MeleeState::RunDirect => 22,
            MeleeState::RunBrake => 23,
            MeleeState::KneeBend => 24,
            MeleeState::JumpF => 25,
            MeleeState::JumpB => 26,
            MeleeState::JumpAerialF => 27,
            MeleeState::JumpAerialB => 28,
            MeleeState::Fall => 29,
            MeleeState::FallF => 30,
            MeleeState::FallB => 31,
            MeleeState::FallAerial => 32,
            MeleeState::FallAerialF => 33,
            MeleeState::FallAerialB => 34,
            MeleeState::FallSpecial => 35,
            MeleeState::FallSpecialF => 36,
            MeleeState::FallSpecialB => 37,
            MeleeState::DamageFall => 38,
            MeleeState::Squat => 39,
            MeleeState::SquatWait => 40,
            MeleeState::SquatRv => 41,
            MeleeState::Landing => 42,
            MeleeState::LandingFallSpecial => 43,
            MeleeState::Attack11 => 44,
            MeleeState::Attack12 => 45,
            MeleeState::Attack13 => 46,
            MeleeState::Attack100Start => 47,
            MeleeState::Attack100Loop => 48,
            MeleeState::Attack100End => 49,
            MeleeState::AttackDash => 50,
            MeleeState::AttackS3Hi => 51,
            MeleeState::AttackS3HiS => 52,
            MeleeState::AttackS3S => 53,
            MeleeState::AttackS3LwS => 54,
            MeleeState::AttackS3Lw => 55,
            MeleeState::AttackHi3 => 56,
            MeleeState::AttackLw3 => 57,
            MeleeState::AttackS4Hi => 58,
            MeleeState::AttackS4HiS => 59,
            MeleeState::AttackS4S => 60,
            MeleeState::AttackS4LwS => 61,
            MeleeState::AttackS4Lw => 62,
            MeleeState::AttackHi4 => 63,
            MeleeState::AttackLw4 => 64,
            MeleeState::AttackAirN => 65,
            MeleeState::AttackAirF => 66,
            MeleeState::AttackAirB => 67,
            MeleeState::AttackAirHi => 68,
            MeleeState::AttackAirLw => 69,
            MeleeState::LandingAirN => 70,
            MeleeState::LandingAirF => 71,
            MeleeState::LandingAirB => 72,
            MeleeState::LandingAirHi => 73,
            MeleeState::LandingAirLw => 74,
            MeleeState::DamageHi1 => 75,
            MeleeState::DamageHi2 => 76,
            MeleeState::DamageHi3 => 77,
            MeleeState::DamageN1 => 78,
            MeleeState::DamageN2 => 79,
            MeleeState::DamageN3 => 80,
            MeleeState::DamageLw1 => 81,
            MeleeState::DamageLw2 => 82,
            MeleeState::DamageLw3 => 83,
            MeleeState::DamageAir1 => 84,
            MeleeState::DamageAir2 => 85,
            MeleeState::DamageAir3 => 86,
            MeleeState::DamageFlyHi => 87,
            MeleeState::DamageFlyN => 88,
            MeleeState::DamageFlyLw => 89,
            MeleeState::DamageFlyTop => 90,
            MeleeState::DamageFlyRoll => 91,
            MeleeState::LightGet => 92,
            MeleeState::HeavyGet => 93,
            MeleeState::LightThrowF => 94,
            MeleeState::LightThrowB => 95,
            MeleeState::LightThrowHi => 96,
            MeleeState::LightThrowLw => 97,
            MeleeState::LightThrowDash => 98,
            MeleeState::LightThrowDrop => 99,
            MeleeState::LightThrowAirF => 100,
            MeleeState::LightThrowAirB => 101,
            MeleeState::LightThrowAirHi => 102,
            MeleeState::LightThrowAirLw => 103,
            MeleeState::HeavyThrowF => 104,
            MeleeState::HeavyThrowB => 105,
            MeleeState::HeavyThrowHi => 106,
            MeleeState::HeavyThrowLw => 107,
            MeleeState::LightThrowF4 => 108,
            MeleeState::LightThrowB4 => 109,
            MeleeState::LightThrowHi4 => 110,
            MeleeState::LightThrowLw4 => 111,
            MeleeState::LightThrowAirF4 => 112,
            MeleeState::LightThrowAirB4 => 113,
            MeleeState::LightThrowAirHi4 => 114,
            MeleeState::LightThrowAirLw4 => 115,
            MeleeState::HeavyThrowF4 => 116,
            MeleeState::HeavyThrowB4 => 117,
            MeleeState::HeavyThrowHi4 => 118,
            MeleeState::HeavyThrowLw4 => 119,
            MeleeState::SwordSwing1 => 120,
            MeleeState::SwordSwing3 => 121,
            MeleeState::SwordSwing4 => 122,
            MeleeState::SwordSwingDash => 123,
            MeleeState::BatSwing1 => 124,
            MeleeState::BatSwing3 => 125,
            MeleeState::BatSwing4 => 126,
            MeleeState::BatSwingDash => 127,
            MeleeState::ParasolSwing1 => 128,
            MeleeState::ParasolSwing3 => 129,
            MeleeState::ParasolSwing4 => 130,
            MeleeState::ParasolSwingDash => 131,
            MeleeState::HarisenSwing1 => 132,
            MeleeState::HarisenSwing3 => 133,
            MeleeState::HarisenSwing4 => 134,
            MeleeState::HarisenSwingDash => 135,
            MeleeState::StarRodSwing1 => 136,
            MeleeState::StarRodSwing3 => 137,
            MeleeState::StarRodSwing4 => 138,
            MeleeState::StarRodSwingDash => 139,
            MeleeState::LipStickSwing1 => 140,
            MeleeState::LipStickSwing3 => 141,
            MeleeState::LipStickSwing4 => 142,
            MeleeState::LipStickSwingDash => 143,
            MeleeState::ItemParasolOpen => 144,
            MeleeState::ItemParasolFall => 145,
            MeleeState::ItemParasolFallSpecial => 146,
            MeleeState::ItemParasolDamageFall => 147,
            MeleeState::LGunShoot => 148,
            MeleeState::LGunShootAir => 149,
            MeleeState::LGunShootEmpty => 150,
            MeleeState::LGunShootAirEmpty => 151,
            MeleeState::FireFlowerShoot => 152,
            MeleeState::FireFlowerShootAir => 153,
            MeleeState::ItemScrew => 154,
            MeleeState::ItemScrewAir => 155,
            MeleeState::DamageScrew => 156,
            MeleeState::DamageScrewAir => 157,
            MeleeState::ItemScopeStart => 158,
            MeleeState::ItemScopeRapid => 159,
            MeleeState::ItemScopeFire => 160,
            MeleeState::ItemScopeEnd => 161,
            MeleeState::ItemScopeAirStart => 162,
            MeleeState::ItemScopeAirRapid => 163,
            MeleeState::ItemScopeAirFire => 164,
            MeleeState::ItemScopeAirEnd => 165,
            MeleeState::ItemScopeStartEmpty => 166,
            MeleeState::ItemScopeRapidEmpty => 167,
            MeleeState::ItemScopeFireEmpty => 168,
            MeleeState::ItemScopeEndEmpty => 169,
            MeleeState::ItemScopeAirStartEmpty => 170,
            MeleeState::ItemScopeAirRapidEmpty => 171,
            MeleeState::ItemScopeAirFireEmpty => 172,
            MeleeState::ItemScopeAirEndEmpty => 173,
            MeleeState::LiftWait => 174,
            MeleeState::LiftWalk1 => 175,
            MeleeState::LiftWalk2 => 176,
            MeleeState::LiftTurn => 177,
            MeleeState::GuardOn => 178,
            MeleeState::Guard => 179,
            MeleeState::GuardOff => 180,
            MeleeState::GuardSetOff => 181,
            MeleeState::GuardReflect => 182,
            MeleeState::DownBoundU => 183,
            MeleeState::DownWaitU => 184,
            MeleeState::DownDamageU => 185,
            MeleeState::DownStandU => 186,
            MeleeState::DownAttackU => 187,
            MeleeState::DownFowardU => 188,
            MeleeState::DownBackU => 189,
            MeleeState::DownSpotU => 190,
            MeleeState::DownBoundD => 191,
            MeleeState::DownWaitD => 192,
            MeleeState::DownDamageD => 193,
            MeleeState::DownStandD => 194,
            MeleeState::DownAttackD => 195,
            MeleeState::DownFowardD => 196,
            MeleeState::DownBackD => 197,
            MeleeState::DownSpotD => 198,
            MeleeState::Passive => 199,
            MeleeState::PassiveStandF => 200,
            MeleeState::PassiveStandB => 201,
            MeleeState::PassiveWall => 202,
            MeleeState::PassiveWallJump => 203,
            MeleeState::PassiveCeil => 204,
            MeleeState::ShieldBreakFly => 205,
            MeleeState::ShieldBreakFall => 206,
            MeleeState::ShieldBreakDownU => 207,
            MeleeState::ShieldBreakDownD => 208,
            MeleeState::ShieldBreakStandU => 209,
            MeleeState::ShieldBreakStandD => 210,
            MeleeState::FuraFura => 211,
            MeleeState::Catch => 212,
            MeleeState::CatchPull => 213,
            MeleeState::CatchDash => 214,
            MeleeState::CatchDashPull => 215,
            MeleeState::CatchWait => 216,
            MeleeState::CatchAttack => 217,
            MeleeState::CatchCut => 218,
            MeleeState::ThrowF => 219,
            MeleeState::ThrowB => 220,
            MeleeState::ThrowHi => 221,
            MeleeState::ThrowLw => 222,
            MeleeState::CapturePulledHi => 223,
            MeleeState::CaptureWaitHi => 224,
            MeleeState::CaptureDamageHi => 225,
            MeleeState::CapturePulledLw => 226,
            MeleeState::CaptureWaitLw => 227,
            MeleeState::CaptureDamageLw => 228,
            MeleeState::CaptureCut => 229,
            MeleeState::CaptureJump => 230,
            MeleeState::CaptureNeck => 231,
            MeleeState::CaptureFoot => 232,
            MeleeState::EscapeF => 233,
            MeleeState::EscapeB => 234,
            MeleeState::Escape => 235,
            MeleeState::EscapeAir => 236,
            MeleeState::ReboundStop => 237,
            MeleeState::Rebound => 238,
            MeleeState::ThrownF => 239,
            MeleeState::ThrownB => 240,
            MeleeState::ThrownHi => 241,
            MeleeState::ThrownLw => 242,
            MeleeState::ThrownLwWomen => 243,
            MeleeState::Pass => 244,
            MeleeState::Ottotto => 245,
            MeleeState::OttottoWait => 246,
            MeleeState::FlyReflectWall => 247,
            MeleeState::FlyReflectCeil => 248,
            MeleeState::StopWall => 249,
            MeleeState::StopCeil => 250,
            MeleeState::MissFoot => 251,
            MeleeState::CliffCatch => 252,
            MeleeState::CliffWait => 253,
            MeleeState::CliffClimbSlow => 254,
            MeleeState::CliffClimbQuick => 255,
            MeleeState::CliffAttackSlow => 256,
            MeleeState::CliffAttackQuick => 257,
            MeleeState::CliffEscapeSlow => 258,
            MeleeState::CliffEscapeQuick => 259,
            MeleeState::CliffJumpSlow1 => 260,
            MeleeState::CliffJumpSlow2 => 261,
            MeleeState::CliffJumpQuick1 => 262,
            MeleeState::CliffJumpQuick2 => 263,
            MeleeState::AppealR => 264,
            MeleeState::AppealL => 265,
            MeleeState::ShoulderedWait => 266,
            MeleeState::ShoulderedWalkSlow => 267,
            MeleeState::ShoulderedWalkMiddle => 268,
            MeleeState::ShoulderedWalkFast => 269,
            MeleeState::ShoulderedTurn => 270,
            MeleeState::ThrownFF => 271,
            MeleeState::ThrownFB => 272,
            MeleeState::ThrownFHi => 273,
            MeleeState::ThrownFLw => 274,
            MeleeState::CaptureCaptain => 275,
            MeleeState::CaptureYoshi => 276,
            MeleeState::YoshiEgg => 277,
            MeleeState::CaptureKoopa => 278,
            MeleeState::CaptureDamageKoopa => 279,
            MeleeState::CaptureWaitKoopa => 280,
            MeleeState::ThrownKoopaF => 281,
            MeleeState::ThrownKoopaB => 282,
            MeleeState::CaptureKoopaAir => 283,
            MeleeState::CaptureDamageKoopaAir => 284,
            MeleeState::CaptureWaitKoopaAir => 285,
            MeleeState::ThrownKoopaAirF => 286,
            MeleeState::ThrownKoopaAirB => 287,
            MeleeState::CaptureKirby => 288,
            MeleeState::CaptureWaitKirby => 289,
            MeleeState::ThrownKirbyStar => 290,
            MeleeState::ThrownCopyStar => 291,
            MeleeState::ThrownKirby => 292,
            MeleeState::BarrelWait => 293,
            MeleeState::Bury => 294,
            MeleeState::BuryWait => 295,
            MeleeState::BuryJump => 296,
            MeleeState::DamageSong => 297,
            MeleeState::DamageSongWait => 298,
            MeleeState::DamageSongRv => 299,
            MeleeState::DamageBind => 300,
            MeleeState::CaptureMewtwo => 301,
            MeleeState::CaptureMewtwoAir => 302,
            MeleeState::ThrownMewtwo => 303,
            MeleeState::ThrownMewtwoAir => 304,
            MeleeState::WarpStarJump => 305,
            MeleeState::WarpStarFall => 306,
            MeleeState::HammerWait => 307,
            MeleeState::HammerWalk => 308,
            MeleeState::HammerTurn => 309,
            MeleeState::HammerKneeBend => 310,
            MeleeState::HammerFall => 311,
            MeleeState::HammerJump => 312,
            MeleeState::HammerLanding => 313,
            MeleeState::KinokoGiantStart => 314,
            MeleeState::KinokoGiantStartAir => 315,
            MeleeState::KinokoGiantEnd => 316,
            MeleeState::KinokoGiantEndAir => 317,
            MeleeState::KinokoSmallStart => 318,
            MeleeState::KinokoSmallStartAir => 319,
            MeleeState::KinokoSmallEnd => 320,
            MeleeState::KinokoSmallEndAir => 321,
            MeleeState::Entry => 322,
            MeleeState::EntryStart => 323,
            MeleeState::EntryEnd => 324,
            MeleeState::DamageIce => 325,
            MeleeState::DamageIceJump => 326,
            MeleeState::CaptureMasterHand => 327,
            MeleeState::CaptureDamageMasterHand => 328,
            MeleeState::CaptureWaitMasterHand => 329,
            MeleeState::ThrownMasterHand => 330,
            MeleeState::CaptureKirbyYoshi => 331,
            MeleeState::KirbyYoshiEgg => 332,
            MeleeState::CaptureRedead => 333,
            MeleeState::CaptureLikeLike => 334,
            MeleeState::DownReflect => 335,
            MeleeState::CaptureCrazyHand => 336,
            MeleeState::CaptureDamageCrazyHand => 337,
            MeleeState::CaptureWaitCrazyHand => 338,
            MeleeState::ThrownCrazyHand => 339,
            MeleeState::BarrelCannonWait => 340,
        }
    }

    /// The coarse category this state belongs to; total over all states.
    pub open spec fn broad_state_spec(self) -> BroadState {
        match self {
            MeleeState::DeadDown => BroadState::GenericInactionable,
            MeleeState::DeadLeft => BroadState::GenericInactionable,
            MeleeState::DeadRight => BroadState::GenericInactionable,
            MeleeState::DeadUp => BroadState::GenericInactionable,
            MeleeState::DeadUpStar => BroadState::GenericInactionable,
            MeleeState::DeadUpStarIce => BroadState::GenericInactionable,
            MeleeState::DeadUpFall => BroadState::GenericInactionable,
            MeleeState::DeadUpFallHitCamera => BroadState::GenericInactionable,
            MeleeState::DeadUpFallHitCameraFlat => BroadState::GenericInactionable,
            MeleeState::DeadUpFallIce => BroadState::GenericInactionable,
            MeleeState::DeadUpFallHitCameraIce => BroadState::GenericInactionable,
            MeleeState::Sleep => BroadState::GenericInactionable,
            MeleeState::Rebirth => BroadState::GenericInactionable,
            MeleeState::RebirthWait => BroadState::Air,
            MeleeState::Wait => BroadState::Ground,
            MeleeState::WalkSlow => BroadState::Walk,
            MeleeState::WalkMiddle => BroadState::Walk,
            MeleeState::WalkFast => BroadState::Walk,
            MeleeState::Turn => BroadState::Ground,
            MeleeState::TurnRun => BroadState::DashRun,
            MeleeState::Dash => BroadState::DashRun,
            MeleeState::Run => BroadState::DashRun,
            MeleeState::RunDirect => BroadState::DashRun,
            MeleeState::RunBrake => BroadState::DashRun,
            MeleeState::KneeBend => BroadState::JumpSquat,
            MeleeState::JumpF => BroadState::Air,
            MeleeState::JumpB => BroadState::Air,
            MeleeState::JumpAerialF => BroadState::AirJump,
            MeleeState::JumpAerialB => BroadState::AirJump,
            MeleeState::Fall => BroadState::Air,
            MeleeState::FallF => BroadState::Air,
            MeleeState::FallB => BroadState::Air,
            MeleeState::FallAerial => BroadState::Air,
            MeleeState::FallAerialF => BroadState::Air,
            MeleeState::FallAerialB => BroadState::Air,
            MeleeState::FallSpecial => BroadState::GenericInactionable,
            MeleeState::FallSpecialF => BroadState::GenericInactionable,
            MeleeState::FallSpecialB => BroadState::GenericInactionable,
            MeleeState::DamageFall => BroadState::Air,
            MeleeState::Squat => BroadState::Crouch,
            MeleeState::SquatWait => BroadState::Crouch,
            MeleeState::SquatRv => BroadState::Ground,
            MeleeState::Landing => BroadState::GenericInactionable,
            MeleeState::LandingFallSpecial => BroadState::SpecialLanding,
            MeleeState::Attack11 => BroadState::Attack,
            MeleeState::Attack12 => BroadState::Attack,
            MeleeState::Attack13 => BroadState::Attack,
            MeleeState::Attack100Start => BroadState::Attack,
            MeleeState::Attack100Loop => BroadState::Attack,
            MeleeState::Attack100End => BroadState::Attack,
            MeleeState::AttackDash => BroadState::Attack,
            MeleeState::AttackS3Hi => BroadState::Attack,
            MeleeState::AttackS3HiS => BroadState::Attack,
            MeleeState::AttackS3S => BroadState::Attack,
            MeleeState::AttackS3LwS => BroadState::Attack,
            MeleeState::AttackS3Lw => BroadState::Attack,
            MeleeState::AttackHi3 => BroadState::Attack,
            MeleeState::AttackLw3 => BroadState::Attack,
            MeleeState::AttackS4Hi => BroadState::Attack,
            MeleeState::AttackS4HiS => BroadState::Attack,
            MeleeState::AttackS4S => BroadState::Attack,
            MeleeState::AttackS4LwS => BroadState::Attack,
            MeleeState::AttackS4Lw => BroadState::Attack,
            MeleeState::AttackHi4 => BroadState::Attack,
            MeleeState::AttackLw4 => BroadState::Attack,
            MeleeState::AttackAirN => BroadState::Attack,
            MeleeState::AttackAirF => BroadState::Attack,
            MeleeState::AttackAirB => BroadState::Attack,
            MeleeState::AttackAirHi => BroadState::Attack,
            MeleeState::AttackAirLw => BroadState::Attack,
            MeleeState::LandingAirN => BroadState::GenericInactionable,
            MeleeState::LandingAirF => BroadState::GenericInactionable,
            MeleeState::LandingAirB => BroadState::GenericInactionable,
            MeleeState::LandingAirHi => BroadState::GenericInactionable,
            MeleeState::LandingAirLw => BroadState::GenericInactionable,
            MeleeState::DamageHi1 => BroadState::Hitstun,
            MeleeState::DamageHi2 => BroadState::Hitstun,
            MeleeState::DamageHi3 => BroadState::Hitstun,
            MeleeState::DamageN1 => BroadState::Hitstun,
            MeleeState::DamageN2 => BroadState::Hitstun,
            MeleeState::DamageN3 => BroadState::Hitstun,
            MeleeState::DamageLw1 => BroadState::Hitstun,
            MeleeState::DamageLw2 => BroadState::Hitstun,
            MeleeState::DamageLw3 => BroadState::Hitstun,
            MeleeState::DamageAir1 => BroadState::Hitstun,
            MeleeState::DamageAir2 => BroadState::Hitstun,
            MeleeState::DamageAir3 => BroadState::Hitstun,
            MeleeState::DamageFlyHi => BroadState::Hitstun,
            MeleeState::DamageFlyN => BroadState::Hitstun,
            MeleeState::DamageFlyLw => BroadState::Hitstun,
            MeleeState::DamageFlyTop => BroadState::Hitstun,
            MeleeState::DamageFlyRoll => BroadState::Hitstun,
            MeleeState::LightGet => BroadState::GenericInactionable,
            MeleeState::HeavyGet => BroadState::GenericInactionable,
            MeleeState::LightThrowF => BroadState::GenericInactionable,
            MeleeState::LightThrowB => BroadState::GenericInactionable,
            MeleeState::LightThrowHi => BroadState::GenericInactionable,
            MeleeState::LightThrowLw => BroadState::GenericInactionable,
            MeleeState::LightThrowDash => BroadState::GenericInactionable,
            MeleeState::LightThrowDrop => BroadState::GenericInactionable,
            MeleeState::LightThrowAirF => BroadState::GenericInactionable,
            MeleeState::LightThrowAirB => BroadState::GenericInactionable,
            MeleeState::LightThrowAirHi => BroadState::GenericInactionable,
            MeleeState::LightThrowAirLw => BroadState::GenericInactionable,
            MeleeState::HeavyThrowF => BroadState::GenericInactionable,
            MeleeState::HeavyThrowB => BroadState::GenericInactionable,
            MeleeState::HeavyThrowHi => BroadState::GenericInactionable,
            MeleeState::HeavyThrowLw => BroadState::GenericInactionable,
            MeleeState::LightThrowF4 => BroadState::GenericInactionable,
            MeleeState::LightThrowB4 => BroadState::GenericInactionable,
            MeleeState::LightThrowHi4 => BroadState::GenericInactionable,
            MeleeState::LightThrowLw4 => BroadState::GenericInactionable,
            MeleeState::LightThrowAirF4 => BroadState::GenericInactionable,
            MeleeState::LightThrowAirB4 => BroadState::GenericInactionable,
            MeleeState::LightThrowAirHi4 => BroadState::GenericInactionable,
            MeleeState::LightThrowAirLw4 => BroadState::GenericInactionable,
            MeleeState::HeavyThrowF4 => BroadState::GenericInactionable,
            MeleeState::HeavyThrowB4 => BroadState::GenericInactionable,
            MeleeState::HeavyThrowHi4 => BroadState::GenericInactionable,
            MeleeState::HeavyThrowLw4 => BroadState::GenericInactionable,
            MeleeState::SwordSwing1 => BroadState::GenericInactionable,
            MeleeState::SwordSwing3 => BroadState::GenericInactionable,
            MeleeState::SwordSwing4 => BroadState::GenericInactionable,
            MeleeState::SwordSwingDash => BroadState::GenericInactionable,
            MeleeState::BatSwing1 => BroadState::GenericInactionable,
            MeleeState::BatSwing3 => BroadState::GenericInactionable,
            MeleeState::BatSwing4 => BroadState::GenericInactionable,
            MeleeState::BatSwingDash => BroadState::GenericInactionable,
            MeleeState::ParasolSwing1 => BroadState::GenericInactionable,
            MeleeState::ParasolSwing3 => BroadState::GenericInactionable,
            MeleeState::ParasolSwing4 => BroadState::GenericInactionable,
            MeleeState::ParasolSwingDash => BroadState::GenericInactionable,
            MeleeState::HarisenSwing1 => BroadState::GenericInactionable,
            MeleeState::HarisenSwing3 => BroadState::GenericInactionable,
            MeleeState::HarisenSwing4 => BroadState::GenericInactionable,
            MeleeState::HarisenSwingDash => BroadState::GenericInactionable,
            MeleeState::StarRodSwing1 => BroadState::GenericInactionable,
            MeleeState::StarRodSwing3 => BroadState::GenericInactionable,
            MeleeState::StarRodSwing4 => BroadState::GenericInactionable,
            MeleeState::StarRodSwingDash => BroadState::GenericInactionable,
            MeleeState::LipStickSwing1 => BroadState::GenericInactionable,
            MeleeState::LipStickSwing3 => BroadState::GenericInactionable,
            MeleeState::LipStickSwing4 => BroadState::GenericInactionable,
            MeleeState::LipStickSwingDash => BroadState::GenericInactionable,
            MeleeState::ItemParasolOpen => BroadState::GenericInactionable,
            MeleeState::ItemParasolFall => BroadState::GenericInactionable,
            MeleeState::ItemParasolFallSpecial => BroadState::GenericInactionable,
            MeleeState::ItemParasolDamageFall => BroadState::GenericInactionable,
            MeleeState::LGunShoot => BroadState::GenericInactionable,
            MeleeState::LGunShootAir => BroadState::GenericInactionable,
            MeleeState::LGunShootEmpty => BroadState::GenericInactionable,
            MeleeState::LGunShootAirEmpty => BroadState::GenericInactionable,
            MeleeState::FireFlowerShoot => BroadState::GenericInactionable,
            MeleeState::FireFlowerShootAir => BroadState::GenericInactionable,
            MeleeState::ItemScrew => BroadState::GenericInactionable,
            MeleeState::ItemScrewAir => BroadState::GenericInactionable,
            MeleeState::DamageScrew => BroadState::GenericInactionable,
            MeleeState::DamageScrewAir => BroadState::GenericInactionable,
            MeleeState::ItemScopeStart => BroadState::GenericInactionable,
            MeleeState::ItemScopeRapid => BroadState::GenericInactionable,
            MeleeState::ItemScopeFire => BroadState::GenericInactionable,
            MeleeState::ItemScopeEnd => BroadState::GenericInactionable,
            MeleeState::ItemScopeAirStart => BroadState::GenericInactionable,
            MeleeState::ItemScopeAirRapid => BroadState::GenericInactionable,
            MeleeState::ItemScopeAirFire => BroadState::GenericInactionable,
            MeleeState::ItemScopeAirEnd => BroadState::GenericInactionable,
            MeleeState::ItemScopeStartEmpty => BroadState::GenericInactionable,
            MeleeState::ItemScopeRapidEmpty => BroadState::GenericInactionable,
            MeleeState::ItemScopeFireEmpty => BroadState::GenericInactionable,
            MeleeState::ItemScopeEndEmpty => BroadState::GenericInactionable,
            MeleeState::ItemScopeAirStartEmpty => BroadState::GenericInactionable,
            MeleeState::ItemScopeAirRapidEmpty => BroadState::GenericInactionable,
            MeleeState::ItemScopeAirFireEmpty => BroadState::GenericInactionable,
            MeleeState::ItemScopeAirEndEmpty => BroadState::GenericInactionable,
            MeleeState::LiftWait => BroadState::GenericInactionable,
            MeleeState::LiftWalk1 => BroadState::GenericInactionable,
            MeleeState::LiftWalk2 => BroadState::GenericInactionable,
            MeleeState::LiftTurn => BroadState::GenericInactionable,
            MeleeState::GuardOn => BroadState::Shield,
            MeleeState::Guard => BroadState::Shield,
            MeleeState::GuardOff => BroadState::GenericInactionable,
            MeleeState::GuardSetOff => BroadState::Shield,
            MeleeState::GuardReflect => BroadState::Shield,
            MeleeState::DownBoundU => BroadState::GenericInactionable,
            MeleeState::DownWaitU => BroadState::GenericInactionable,
            MeleeState::DownDamageU => BroadState::GenericInactionable,
            MeleeState::DownStandU => BroadState::GenericInactionable,
            MeleeState::DownAttackU => BroadState::GenericInactionable,
            MeleeState::DownFowardU => BroadState::GenericInactionable,
            MeleeState::DownBackU => BroadState::GenericInactionable,
            MeleeState::DownSpotU => BroadState::GenericInactionable,
            MeleeState::DownBoundD => BroadState::GenericInactionable,
            MeleeState::DownWaitD => BroadState::GenericInactionable,
            MeleeState::DownDamageD => BroadState::GenericInactionable,
            MeleeState::DownStandD => BroadState::GenericInactionable,
            MeleeState::DownAttackD => BroadState::GenericInactionable,
            MeleeState::DownFowardD => BroadState::GenericInactionable,
            MeleeState::DownBackD => BroadState::GenericInactionable,
            MeleeState::DownSpotD => BroadState::GenericInactionable,
            MeleeState::Passive => BroadState::GenericInactionable,
            MeleeState::PassiveStandF => BroadState::GenericInactionable,
            MeleeState::PassiveStandB => BroadState::GenericInactionable,
            MeleeState::PassiveWall => BroadState::GenericInactionable,
            MeleeState::PassiveWallJump => BroadState::GenericInactionable,
            MeleeState::PassiveCeil => BroadState::GenericInactionable,
            MeleeState::ShieldBreakFly => BroadState::GenericInactionable,
            MeleeState::ShieldBreakFall => BroadState::GenericInactionable,
            MeleeState::ShieldBreakDownU => BroadState::GenericInactionable,
            MeleeState::ShieldBreakDownD => BroadState::GenericInactionable,
            MeleeState::ShieldBreakStandU => BroadState::GenericInactionable,
            MeleeState::ShieldBreakStandD => BroadState::GenericInactionable,
            MeleeState::FuraFura => BroadState::GenericInactionable,
            MeleeState::Catch => BroadState::Grab,
            MeleeState::CatchPull => BroadState::Grab,
            MeleeState::CatchDash => BroadState::Grab,
            MeleeState::CatchDashPull => BroadState::Grab,
            MeleeState::CatchWait => BroadState::Grab,
            MeleeState::CatchAttack => BroadState::Grab,
            MeleeState::CatchCut => BroadState::Grab,
            MeleeState::ThrowF => BroadState::Grab,
            MeleeState::ThrowB => BroadState::Grab,
            MeleeState::ThrowHi => BroadState::Grab,
            MeleeState::ThrowLw => BroadState::Grab,
            MeleeState::CapturePulledHi => BroadState::Hitstun,
            MeleeState::CaptureWaitHi => BroadState::Hitstun,
            MeleeState::CaptureDamageHi => BroadState::Hitstun,
            MeleeState::CapturePulledLw => BroadState::Hitstun,
            MeleeState::CaptureWaitLw => BroadState::Hitstun,
            MeleeState::CaptureDamageLw => BroadState::Hitstun,
            MeleeState::CaptureCut => BroadState::Hitstun,
            MeleeState::CaptureJump => BroadState::Hitstun,
            MeleeState::CaptureNeck => BroadState::Hitstun,
            MeleeState::CaptureFoot => BroadState::Hitstun,
            MeleeState::EscapeF => BroadState::Roll,
            MeleeState::EscapeB => BroadState::Roll,
            MeleeState::Escape => BroadState::Spotdodge,
            MeleeState::EscapeAir => BroadState::Airdodge,
            MeleeState::ReboundStop => BroadState::GenericInactionable,
            MeleeState::Rebound => BroadState::GenericInactionable,
            MeleeState::ThrownF => BroadState::Hitstun,
            MeleeState::ThrownB => BroadState::Hitstun,
            MeleeState::ThrownHi => BroadState::Hitstun,
            MeleeState::ThrownLw => BroadState::Hitstun,
            MeleeState::ThrownLwWomen => BroadState::Hitstun,
            MeleeState::Pass => BroadState::Air,
            MeleeState::Ottotto => BroadState::Ground,
            MeleeState::OttottoWait => BroadState::Ground,
            MeleeState::FlyReflectWall => BroadState::GenericInactionable,
            MeleeState::FlyReflectCeil => BroadState::GenericInactionable,
            MeleeState::StopWall => BroadState::GenericInactionable,
            MeleeState::StopCeil => BroadState::GenericInactionable,
            MeleeState::MissFoot => BroadState::Air,
            MeleeState::CliffCatch => BroadState::Ledge,
            MeleeState::CliffWait => BroadState::Ledge,
            MeleeState::CliffClimbSlow => BroadState::LedgeAction,
            MeleeState::CliffClimbQuick => BroadState::LedgeAction,
            MeleeState::CliffAttackSlow => BroadState::LedgeAction,
            MeleeState::CliffAttackQuick => BroadState::LedgeAction,
            MeleeState::CliffEscapeSlow => BroadState::LedgeAction,
            MeleeState::CliffEscapeQuick => BroadState::LedgeAction,
            MeleeState::CliffJumpSlow1 => BroadState::LedgeAction,
            MeleeState::CliffJumpSlow2 => BroadState::LedgeAction,
            MeleeState::CliffJumpQuick1 => BroadState::LedgeAction,
            MeleeState::CliffJumpQuick2 => BroadState::LedgeAction,
            MeleeState::AppealR => BroadState::GenericInactionable,
            MeleeState::AppealL => BroadState::GenericInactionable,
            MeleeState::ShoulderedWait => BroadState::Hitstun,
            MeleeState::ShoulderedWalkSlow => BroadState::Hitstun,
            MeleeState::ShoulderedWalkMiddle => BroadState::Hitstun,
            MeleeState::ShoulderedWalkFast => BroadState::Hitstun,
            MeleeState::ShoulderedTurn => BroadState::Hitstun,
            MeleeState::ThrownFF => BroadState::Hitstun,
            MeleeState::ThrownFB => BroadState::Hitstun,
            MeleeState::ThrownFHi => BroadState::Hitstun,
            MeleeState::ThrownFLw => BroadState::Hitstun,
            MeleeState::CaptureCaptain => BroadState::GenericInactionable,
            MeleeState::CaptureYoshi => BroadState::GenericInactionable,
            MeleeState::YoshiEgg => BroadState::GenericInactionable,
            MeleeState::CaptureKoopa => BroadState::GenericInactionable,
            MeleeState::CaptureDamageKoopa => BroadState::GenericInactionable,
            MeleeState::CaptureWaitKoopa => BroadState::GenericInactionable,
            MeleeState::ThrownKoopaF => BroadState::GenericInactionable,
            MeleeState::ThrownKoopaB => BroadState::GenericInactionable,
            MeleeState::CaptureKoopaAir => BroadState::GenericInactionable,
            MeleeState::CaptureDamageKoopaAir => BroadState::GenericInactionable,
            MeleeState::CaptureWaitKoopaAir => BroadState::GenericInactionable,
            MeleeState::ThrownKoopaAirF => BroadState::GenericInactionable,
            MeleeState::ThrownKoopaAirB => BroadState::GenericInactionable,
            MeleeState::CaptureKirby => BroadState::GenericInactionable,
            MeleeState::CaptureWaitKirby => BroadState::GenericInactionable,
            MeleeState::ThrownKirbyStar => BroadState::GenericInactionable,
            MeleeState::ThrownCopyStar => BroadState::GenericInactionable,
            MeleeState::ThrownKirby => BroadState::GenericInactionable,
            MeleeState::BarrelWait => BroadState::GenericInactionable,
            MeleeState::Bury => BroadState::GenericInactionable,
            MeleeState::BuryWait => BroadState::GenericInactionable,
            MeleeState::BuryJump => BroadState::GenericInactionable,
            MeleeState::DamageSong => BroadState::GenericInactionable,
            MeleeState::DamageSongWait => BroadState::GenericInactionable,
            MeleeState::DamageSongRv => BroadState::GenericInactionable,
            MeleeState::DamageBind => BroadState::GenericInactionable,
            MeleeState::CaptureMewtwo => BroadState::GenericInactionable,
            MeleeState::CaptureMewtwoAir => BroadState::GenericInactionable,
            MeleeState::ThrownMewtwo => BroadState::GenericInactionable,
            MeleeState::ThrownMewtwoAir => BroadState::GenericInactionable,
            MeleeState::WarpStarJump => BroadState::GenericInactionable,
            MeleeState::WarpStarFall => BroadState::GenericInactionable,
            MeleeState::HammerWait => BroadState::GenericInactionable,
            MeleeState::HammerWalk => BroadState::GenericInactionable,
            MeleeState::HammerTurn => BroadState::GenericInactionable,
            MeleeState::HammerKneeBend => BroadState::GenericInactionable,
            MeleeState::HammerFall => BroadState::GenericInactionable,
            MeleeState::HammerJump => BroadState::GenericInactionable,
            MeleeState::HammerLanding => BroadState::GenericInactionable,
            MeleeState::KinokoGiantStart => BroadState::GenericInactionable,
            MeleeState::KinokoGiantStartAir => BroadState::GenericInactionable,
            MeleeState::KinokoGiantEnd => BroadState::GenericInactionable,
            MeleeState::KinokoGiantEndAir => BroadState::GenericInactionable,
            MeleeState::KinokoSmallStart => BroadState::GenericInactionable,
            MeleeState::KinokoSmallStartAir => BroadState::GenericInactionable,
            MeleeState::KinokoSmallEnd => BroadState::GenericInactionable,
            MeleeState::KinokoSmallEndAir => BroadState::GenericInactionable,
            MeleeState::Entry => BroadState::GenericInactionable,
            MeleeState::EntryStart => BroadState::GenericInactionable,
            MeleeState::EntryEnd => BroadState::GenericInactionable,
            MeleeState::DamageIce => BroadState::GenericInactionable,
            MeleeState::DamageIceJump => BroadState::GenericInactionable,
            MeleeState::CaptureMasterHand => BroadState::GenericInactionable,
            MeleeState::CaptureDamageMasterHand => BroadState::GenericInactionable,
            MeleeState::CaptureWaitMasterHand => BroadState::GenericInactionable,
            MeleeState::ThrownMasterHand => BroadState::GenericInactionable,
            MeleeState::CaptureKirbyYoshi => BroadState::GenericInactionable,
            MeleeState::KirbyYoshiEgg => BroadState::GenericInactionable,
            MeleeState::CaptureRedead => BroadState::GenericInactionable,
            MeleeState::CaptureLikeLike => BroadState::GenericInactionable,
            MeleeState::DownReflect => BroadState::GenericInactionable,
            MeleeState::CaptureCrazyHand => BroadState::GenericInactionable,
            MeleeState::CaptureDamageCrazyHand => BroadState::GenericInactionable,
            MeleeState::CaptureWaitCrazyHand => BroadState::GenericInactionable,
            MeleeState::ThrownCrazyHand => BroadState::GenericInactionable,
            MeleeState::BarrelCannonWait => BroadState::GenericInactionable,
        }
    }

    /// Whether a new action may begin on a frame in this state, and in
    /// which situation. `None` marks committed frames: attack execution,
    /// hitstun, the single-frame ledge catch, and everything inactionable.
    pub open spec fn actionable_state_spec(self) -> Option<ActionableState> {
        match self.broad_state_spec() {
            BroadState::Air => Some(ActionableState::Air),
            BroadState::Ground => Some(ActionableState::Ground),
            BroadState::Walk => Some(ActionableState::Ground),
            BroadState::DashRun => match self {
                MeleeState::Dash => Some(ActionableState::Dash),
                MeleeState::TurnRun => Some(ActionableState::Run),
                MeleeState::Run => Some(ActionableState::Run),
                MeleeState::RunDirect => Some(ActionableState::Run),
                MeleeState::RunBrake => Some(ActionableState::Run),
                _ => None,
            },
            BroadState::Shield => Some(ActionableState::Shield),
            BroadState::Ledge => match self {
                MeleeState::CliffWait => Some(ActionableState::Ledge),
                _ => None,
            },
            BroadState::AirJump => Some(ActionableState::Air),
            BroadState::Crouch => Some(ActionableState::Ground),
            _ => None,
        }
    }

    /// The ledge-recovery action this state performs, if it is one.
    pub open spec fn ledge_action_spec(self) -> Option<LedgeAction> {
        match self {
            MeleeState::CliffClimbSlow => Some(LedgeAction::GetUp),
            MeleeState::CliffClimbQuick => Some(LedgeAction::GetUp),
            MeleeState::CliffAttackSlow => Some(LedgeAction::Attack),
            MeleeState::CliffAttackQuick => Some(LedgeAction::Attack),
            MeleeState::CliffEscapeSlow => Some(LedgeAction::Roll),
            MeleeState::CliffEscapeQuick => Some(LedgeAction::Roll),
            MeleeState::CliffJumpSlow1 => Some(LedgeAction::Jump),
            MeleeState::CliffJumpSlow2 => Some(LedgeAction::Jump),
            MeleeState::CliffJumpQuick1 => Some(LedgeAction::Jump),
            MeleeState::CliffJumpQuick2 => Some(LedgeAction::Jump),
            _ => None,
        }
    }

    /// The specific attack this state executes, if it is an attack state.
    /// Distinct raw ids of one move (startup, loop, end) alias together.
    pub open spec fn attack_type_spec(self) -> Option<AttackType> {
        match self {
            MeleeState::Attack11 => Some(AttackType::GroundAttack(GroundAttack::Jab)),
            MeleeState::Attack12 => Some(AttackType::GroundAttack(GroundAttack::Jab)),
            MeleeState::Attack13 => Some(AttackType::GroundAttack(GroundAttack::Jab)),
            MeleeState::Attack100Start => Some(AttackType::GroundAttack(GroundAttack::Jab)),
            MeleeState::Attack100Loop => Some(AttackType::GroundAttack(GroundAttack::Jab)),
            MeleeState::Attack100End => Some(AttackType::GroundAttack(GroundAttack::Jab)),
            MeleeState::AttackDash => Some(AttackType::GroundAttack(GroundAttack::DashAttack)),
            MeleeState::AttackS3Hi => Some(AttackType::GroundAttack(GroundAttack::Ftilt)),
            MeleeState::AttackS3HiS => Some(AttackType::GroundAttack(GroundAttack::Ftilt)),
            MeleeState::AttackS3S => Some(AttackType::GroundAttack(GroundAttack::Ftilt)),
            MeleeState::AttackS3LwS => Some(AttackType::GroundAttack(GroundAttack::Ftilt)),
            MeleeState::AttackS3Lw => Some(AttackType::GroundAttack(GroundAttack::Ftilt)),
            MeleeState::AttackHi3 => Some(AttackType::GroundAttack(GroundAttack::Utilt)),
            MeleeState::AttackLw3 => Some(AttackType::GroundAttack(GroundAttack::Dtilt)),
            MeleeState::AttackS4Hi => Some(AttackType::GroundAttack(GroundAttack::Fsmash)),
            MeleeState::AttackS4HiS => Some(AttackType::GroundAttack(GroundAttack::Fsmash)),
            MeleeState::AttackS4S => Some(AttackType::GroundAttack(GroundAttack::Fsmash)),
            MeleeState::AttackS4LwS => Some(AttackType::GroundAttack(GroundAttack::Fsmash)),
            MeleeState::AttackS4Lw => Some(AttackType::GroundAttack(GroundAttack::Fsmash)),
            MeleeState::AttackHi4 => Some(AttackType::GroundAttack(GroundAttack::Usmash)),
            MeleeState::AttackLw4 => Some(AttackType::GroundAttack(GroundAttack::Dsmash)),
            MeleeState::AttackAirN => Some(AttackType::AirAttack(AirAttack::Nair)),
            MeleeState::AttackAirF => Some(AttackType::AirAttack(AirAttack::Fair)),
            MeleeState::AttackAirB => Some(AttackType::AirAttack(AirAttack::Bair)),
            MeleeState::AttackAirHi => Some(AttackType::AirAttack(AirAttack::Uair)),
            MeleeState::AttackAirLw => Some(AttackType::AirAttack(AirAttack::Dair)),
            _ => None,
        }
    }

    /// Looks a raw id up in the catalogue. Ids beyond the catalogue degrade
    /// to `Passive`, a `GenericInactionable` state, so that unrecognised
    /// future ids are tolerated silently rather than rejected.
    #[verifier::rlimit(100)]
    pub fn from_u16(st: u16) -> (r: Self)
        ensures
            st <= 340 ==> r.id_spec() == st as int,
            st > 340 ==> r == MeleeState::Passive,
            st > 340 ==> r.broad_state_spec() == BroadState::GenericInactionable,
    {
        match st {
            0 => MeleeState::DeadDown,
            1 => MeleeState::DeadLeft,
            2 => MeleeState::DeadRight,
            3 => MeleeState::DeadUp,
            4 => MeleeState::DeadUpStar,
            5 => MeleeState::DeadUpStarIce,
            6 => MeleeState::DeadUpFall,
            7 => MeleeState::DeadUpFallHitCamera,
            8 => MeleeState::DeadUpFallHitCameraFlat,
            9 => MeleeState::DeadUpFallIce,
            10 => MeleeState::DeadUpFallHitCameraIce,
            11 => MeleeState::Sleep,
            12 => MeleeState::Rebirth,
            13 => MeleeState::RebirthWait,
            14 => MeleeState::Wait,
            15 => MeleeState::WalkSlow,
            16 => MeleeState::WalkMiddle,
            17 => MeleeState::WalkFast,
            18 => MeleeState::Turn,
            19 => MeleeState::TurnRun,
            20 => MeleeState::Dash,
            21 => MeleeState::Run,
            22 => MeleeState::RunDirect,
            23 => MeleeState::RunBrake,
            24 => MeleeState::KneeBend,
            25 => MeleeState::JumpF,
            26 => MeleeState::JumpB,
            27 => MeleeState::JumpAerialF,
            28 => MeleeState::JumpAerialB,
            29 => MeleeState::Fall,
            30 => MeleeState::FallF,
            31 => MeleeState::FallB,
            32 => MeleeState::FallAerial,
            33 => MeleeState::FallAerialF,
            34 => MeleeState::FallAerialB,
            35 => MeleeState::FallSpecial,
            36 => MeleeState::FallSpecialF,
            37 => MeleeState::FallSpecialB,
            38 => MeleeState::DamageFall,
            39 => MeleeState::Squat,
            40 => MeleeState::SquatWait,
            41 => MeleeState::SquatRv,
            42 => MeleeState::Landing,
            43 => MeleeState::LandingFallSpecial,
            44 => MeleeState::Attack11,
            45 => MeleeState::Attack12,
            46 => MeleeState::Attack13,
            47 => MeleeState::Attack100Start,
            48 => MeleeState::Attack100Loop,
            49 => MeleeState::Attack100End,
            50 => MeleeState::AttackDash,
            51 => MeleeState::AttackS3Hi,
            52 => MeleeState::AttackS3HiS,
            53 => MeleeState::AttackS3S,
            54 => MeleeState::AttackS3LwS,
            55 => MeleeState::AttackS3Lw,
            56 => MeleeState::AttackHi3,
            57 => MeleeState::AttackLw3,
            58 => MeleeState::AttackS4Hi,
            59 => MeleeState::AttackS4HiS,
            60 => MeleeState::AttackS4S,
            61 => MeleeState::AttackS4LwS,
            62 => MeleeState::AttackS4Lw,
            63 => MeleeState::AttackHi4,
            64 => MeleeState::AttackLw4,
            65 => MeleeState::AttackAirN,
            66 => MeleeState::AttackAirF,
            67 => MeleeState::AttackAirB,
            68 => MeleeState::AttackAirHi,
            69 => MeleeState::AttackAirLw,
            70 => MeleeState::LandingAirN,
            71 => MeleeState::LandingAirF,
            72 => MeleeState::LandingAirB,
            73 => MeleeState::LandingAirHi,
            74 => MeleeState::LandingAirLw,
            75 => MeleeState::DamageHi1,
            76 => MeleeState::DamageHi2,
            77 => MeleeState::DamageHi3,
            78 => MeleeState::DamageN1,
            79 => MeleeState::DamageN2,
            80 => MeleeState::DamageN3,
            81 => MeleeState::DamageLw1,
            82 => MeleeState::DamageLw2,
            83 => MeleeState::DamageLw3,
            84 => MeleeState::DamageAir1,
            85 => MeleeState::DamageAir2,
            86 => MeleeState::DamageAir3,
            87 => MeleeState::DamageFlyHi,
            88 => MeleeState::DamageFlyN,
            89 => MeleeState::DamageFlyLw,
            90 => MeleeState::DamageFlyTop,
            91 => MeleeState::DamageFlyRoll,
            92 => MeleeState::LightGet,
            93 => MeleeState::HeavyGet,
            94 => MeleeState::LightThrowF,
            95 => MeleeState::LightThrowB,
            96 => MeleeState::LightThrowHi,
            97 => MeleeState::LightThrowLw,
            98 => MeleeState::LightThrowDash,
            99 => MeleeState::LightThrowDrop,
            100 => MeleeState::LightThrowAirF,
            101 => MeleeState::LightThrowAirB,
            102 => MeleeState::LightThrowAirHi,
            103 => MeleeState::LightThrowAirLw,
            104 => MeleeState::HeavyThrowF,
            105 => MeleeState::HeavyThrowB,
            106 => MeleeState::HeavyThrowHi,
            107 => MeleeState::HeavyThrowLw,
            108 => MeleeState::LightThrowF4,
            109 => MeleeState::LightThrowB4,
            110 => MeleeState::LightThrowHi4,
            111 => MeleeState::LightThrowLw4,
            112 => MeleeState::LightThrowAirF4,
            113 => MeleeState::LightThrowAirB4,
            114 => MeleeState::LightThrowAirHi4,
            115 => MeleeState::LightThrowAirLw4,
            116 => MeleeState::HeavyThrowF4,
            117 => MeleeState::HeavyThrowB4,
            118 => MeleeState::HeavyThrowHi4,
            119 => MeleeState::HeavyThrowLw4,
            120 => MeleeState::SwordSwing1,
            121 => MeleeState::SwordSwing3,
            122 => MeleeState::SwordSwing4,
            123 => MeleeState::SwordSwingDash,
            124 => MeleeState::BatSwing1,
            125 => MeleeState::BatSwing3,
            126 => MeleeState::BatSwing4,
            127 => MeleeState::BatSwingDash,
            128 => MeleeState::ParasolSwing1,
            129 => MeleeState::ParasolSwing3,
            130 => MeleeState::ParasolSwing4,
            131 => MeleeState::ParasolSwingDash,
            132 => MeleeState::HarisenSwing1,
            133 => MeleeState::HarisenSwing3,
            134 => MeleeState::HarisenSwing4,
            135 => MeleeState::HarisenSwingDash,
            136 => MeleeState::StarRodSwing1,
            137 => MeleeState::StarRodSwing3,
            138 => MeleeState::StarRodSwing4,
            139 => MeleeState::StarRodSwingDash,
            140 => MeleeState::LipStickSwing1,
            141 => MeleeState::LipStickSwing3,
            142 => MeleeState::LipStickSwing4,
            143 => MeleeState::LipStickSwingDash,
            144 => MeleeState::ItemParasolOpen,
            145 => MeleeState::ItemParasolFall,
            146 => MeleeState::ItemParasolFallSpecial,
            147 => MeleeState::ItemParasolDamageFall,
            148 => MeleeState::LGunShoot,
            149 => MeleeState::LGunShootAir,
            150 => MeleeState::LGunShootEmpty,
            151 => MeleeState::LGunShootAirEmpty,
            152 => MeleeState::FireFlowerShoot,
            153 => MeleeState::FireFlowerShootAir,
            154 => MeleeState::ItemScrew,
            155 => MeleeState::ItemScrewAir,
            156 => MeleeState::DamageScrew,
            157 => MeleeState::DamageScrewAir,
            158 => MeleeState::ItemScopeStart,
            159 => MeleeState::ItemScopeRapid,
            160 => MeleeState::ItemScopeFire,
            161 => MeleeState::ItemScopeEnd,
            162 => MeleeState::ItemScopeAirStart,
            163 => MeleeState::ItemScopeAirRapid,
            164 => MeleeState::ItemScopeAirFire,
            165 => MeleeState::ItemScopeAirEnd,
            166 => MeleeState::ItemScopeStartEmpty,
            167 => MeleeState::ItemScopeRapidEmpty,
            168 => MeleeState::ItemScopeFireEmpty,
            169 => MeleeState::ItemScopeEndEmpty,
            170 => MeleeState::ItemScopeAirStartEmpty,
            171 => MeleeState::ItemScopeAirRapidEmpty,
            172 => MeleeState::ItemScopeAirFireEmpty,
            173 => MeleeState::ItemScopeAirEndEmpty,
            174 => MeleeState::LiftWait,
            175 => MeleeState::LiftWalk1,
            176 => MeleeState::LiftWalk2,
            177 => MeleeState::LiftTurn,
            178 => MeleeState::GuardOn,
            179 => MeleeState::Guard,
            180 => MeleeState::GuardOff,
            181 => MeleeState::GuardSetOff,
            182 => MeleeState::GuardReflect,
            183 => MeleeState::DownBoundU,
            184 => MeleeState::DownWaitU,
            185 => MeleeState::DownDamageU,
            186 => MeleeState::DownStandU,
            187 => MeleeState::DownAttackU,
            188 => MeleeState::DownFowardU,
            189 => MeleeState::DownBackU,
            190 => MeleeState::DownSpotU,
            191 => MeleeState::DownBoundD,
            192 => MeleeState::DownWaitD,
            193 => MeleeState::DownDamageD,
            194 => MeleeState::DownStandD,
            195 => MeleeState::DownAttackD,
            196 => MeleeState::DownFowardD,
            197 => MeleeState::DownBackD,
            198 => MeleeState::DownSpotD,
            199 => MeleeState::Passive,
            200 => MeleeState::PassiveStandF,
            201 => MeleeState::PassiveStandB,
            202 => MeleeState::PassiveWall,
            203 => MeleeState::PassiveWallJump,
            204 => MeleeState::PassiveCeil,
            205 => MeleeState::ShieldBreakFly,
            206 => MeleeState::ShieldBreakFall,
            207 => MeleeState::ShieldBreakDownU,
            208 => MeleeState::ShieldBreakDownD,
            209 => MeleeState::ShieldBreakStandU,
            210 => MeleeState::ShieldBreakStandD,
            211 => MeleeState::FuraFura,
            212 => MeleeState::Catch,
            213 => MeleeState::CatchPull,
            214 => MeleeState::CatchDash,
            215 => MeleeState::CatchDashPull,
            216 => MeleeState::CatchWait,
            217 => MeleeState::CatchAttack,
            218 => MeleeState::CatchCut,
            219 => MeleeState::ThrowF,
            220 => MeleeState::ThrowB,
            221 => MeleeState::ThrowHi,
            222 => MeleeState::ThrowLw,
            223 => MeleeState::CapturePulledHi,
            224 => MeleeState::CaptureWaitHi,
            225 => MeleeState::CaptureDamageHi,
            226 => MeleeState::CapturePulledLw,
            227 => MeleeState::CaptureWaitLw,
            228 => MeleeState::CaptureDamageLw,
            229 => MeleeState::CaptureCut,
            230 => MeleeState::CaptureJump,
            231 => MeleeState::CaptureNeck,
            232 => MeleeState::CaptureFoot,
            233 => MeleeState::EscapeF,
            234 => MeleeState::EscapeB,
            235 => MeleeState::Escape,
            236 => MeleeState::EscapeAir,
            237 => MeleeState::ReboundStop,
            238 => MeleeState::Rebound,
            239 => MeleeState::ThrownF,
            240 => MeleeState::ThrownB,
            241 => MeleeState::ThrownHi,
            242 => MeleeState::ThrownLw,
            243 => MeleeState::ThrownLwWomen,
            244 => MeleeState::Pass,
            245 => MeleeState::Ottotto,
            246 => MeleeState::OttottoWait,
            247 => MeleeState::FlyReflectWall,
            248 => MeleeState::FlyReflectCeil,
            249 => MeleeState::StopWall,
            250 => MeleeState::StopCeil,
            251 => MeleeState::MissFoot,
            252 => MeleeState::CliffCatch,
            253 => MeleeState::CliffWait,
            254 => MeleeState::CliffClimbSlow,
            255 => MeleeState::CliffClimbQuick,
            256 => MeleeState::CliffAttackSlow,
            257 => MeleeState::CliffAttackQuick,
            258 => MeleeState::CliffEscapeSlow,
            259 => MeleeState::CliffEscapeQuick,
            260 => MeleeState::CliffJumpSlow1,
            261 => MeleeState::CliffJumpSlow2,
            262 => MeleeState::CliffJumpQuick1,
            263 => MeleeState::CliffJumpQuick2,
            264 => MeleeState::AppealR,
            265 => MeleeState::AppealL,
            266 => MeleeState::ShoulderedWait,
            267 => MeleeState::ShoulderedWalkSlow,
            268 => MeleeState::ShoulderedWalkMiddle,
            269 => MeleeState::ShoulderedWalkFast,
            270 => MeleeState::ShoulderedTurn,
            271 => MeleeState::ThrownFF,
            272 => MeleeState::ThrownFB,
            273 => MeleeState::ThrownFHi,
            274 => MeleeState::ThrownFLw,
            275 => MeleeState::CaptureCaptain,
            276 => MeleeState::CaptureYoshi,
            277 => MeleeState::YoshiEgg,
            278 => MeleeState::CaptureKoopa,
            279 => MeleeState::CaptureDamageKoopa,
            280 => MeleeState::CaptureWaitKoopa,
            281 => MeleeState::ThrownKoopaF,
            282 => MeleeState::ThrownKoopaB,
            283 => MeleeState::CaptureKoopaAir,
            284 => MeleeState::CaptureDamageKoopaAir,
            285 => MeleeState::CaptureWaitKoopaAir,
            286 => MeleeState::ThrownKoopaAirF,
            287 => MeleeState::ThrownKoopaAirB,
            288 => MeleeState::CaptureKirby,
            289 => MeleeState::CaptureWaitKirby,
            290 => MeleeState::ThrownKirbyStar,
            291 => MeleeState::ThrownCopyStar,
            292 => MeleeState::ThrownKirby,
            293 => MeleeState::BarrelWait,
            294 => MeleeState::Bury,
            295 => MeleeState::BuryWait,
            296 => MeleeState::BuryJump,
            297 => MeleeState::DamageSong,
            298 => MeleeState::DamageSongWait,
            299 => MeleeState::DamageSongRv,
            300 => MeleeState::DamageBind,
            301 => MeleeState::CaptureMewtwo,
            302 => MeleeState::CaptureMewtwoAir,
            303 => MeleeState::ThrownMewtwo,
            304 => MeleeState::ThrownMewtwoAir,
            305 => MeleeState::WarpStarJump,
            306 => MeleeState::WarpStarFall,
            307 => MeleeState::HammerWait,
            308 => MeleeState::HammerWalk,
            309 => MeleeState::HammerTurn,
            310 => MeleeState::HammerKneeBend,
            311 => MeleeState::HammerFall,
            312 => MeleeState::HammerJump,
            313 => MeleeState::HammerLanding,
            314 => MeleeState::KinokoGiantStart,
            315 => MeleeState::KinokoGiantStartAir,
            316 => MeleeState::KinokoGiantEnd,
            317 => MeleeState::KinokoGiantEndAir,
            318 => MeleeState::KinokoSmallStart,
            319 => MeleeState::KinokoSmallStartAir,
            320 => MeleeState::KinokoSmallEnd,
            321 => MeleeState::KinokoSmallEndAir,
            322 => MeleeState::Entry,
            323 => MeleeState::EntryStart,
            324 => MeleeState::EntryEnd,
            325 => MeleeState::DamageIce,
            326 => MeleeState::DamageIceJump,
            327 => MeleeState::CaptureMasterHand,
            328 => MeleeState::CaptureDamageMasterHand,
            329 => MeleeState::CaptureWaitMasterHand,
            330 => MeleeState::ThrownMasterHand,
            331 => MeleeState::CaptureKirbyYoshi,
            332 => MeleeState::KirbyYoshiEgg,
            333 => MeleeState::CaptureRedead,
            334 => MeleeState::CaptureLikeLike,
            335 => MeleeState::DownReflect,
            336 => MeleeState::CaptureCrazyHand,
            337 => MeleeState::CaptureDamageCrazyHand,
            338 => MeleeState::CaptureWaitCrazyHand,
            339 => MeleeState::ThrownCrazyHand,
            340 => MeleeState::BarrelCannonWait,
            _ => MeleeState::Passive,
        }
    }

    /// The coarse category this state belongs to.
    pub fn broad_state(self) -> (r: BroadState)
        ensures
            r == self.broad_state_spec(),
    {
        match self {
            MeleeState::DeadDown => BroadState::GenericInactionable,
            MeleeState::DeadLeft => BroadState::GenericInactionable,
            MeleeState::DeadRight => BroadState::GenericInactionable,
            MeleeState::DeadUp => BroadState::GenericInactionable,
            MeleeState::DeadUpStar => BroadState::GenericInactionable,
            MeleeState::DeadUpStarIce => BroadState::GenericInactionable,
            MeleeState::DeadUpFall => BroadState::GenericInactionable,
            MeleeState::DeadUpFallHitCamera => BroadState::GenericInactionable,
            MeleeState::DeadUpFallHitCameraFlat => BroadState::GenericInactionable,
            MeleeState::DeadUpFallIce => BroadState::GenericInactionable,
            MeleeState::DeadUpFallHitCameraIce => BroadState::GenericInactionable,
            MeleeState::Sleep => BroadState::GenericInactionable,
            MeleeState::Rebirth => BroadState::GenericInactionable,
            MeleeState::RebirthWait => BroadState::Air,
            MeleeState::Wait => BroadState::Ground,
            MeleeState::WalkSlow => BroadState::Walk,
            MeleeState::WalkMiddle => BroadState::Walk,
            MeleeState::WalkFast => BroadState::Walk,
            MeleeState::Turn => BroadState::Ground,
            MeleeState::TurnRun => BroadState::DashRun,
            MeleeState::Dash => BroadState::DashRun,
            MeleeState::Run => BroadState::DashRun,
            MeleeState::RunDirect => BroadState::DashRun,
            MeleeState::RunBrake => BroadState::DashRun,
            MeleeState::KneeBend => BroadState::JumpSquat,
            MeleeState::JumpF => BroadState::Air,
            MeleeState::JumpB => BroadState::Air,
            MeleeState::JumpAerialF => BroadState::AirJump,
            MeleeState::JumpAerialB => BroadState::AirJump,
            MeleeState::Fall => BroadState::Air,
            MeleeState::FallF => BroadState::Air,
            MeleeState::FallB => BroadState::Air,
            MeleeState::FallAerial => BroadState::Air,
            MeleeState::FallAerialF => BroadState::Air,
            MeleeState::FallAerialB => BroadState::Air,
            MeleeState::FallSpecial => BroadState::GenericInactionable,
            MeleeState::FallSpecialF => BroadState::GenericInactionable,
            MeleeState::FallSpecialB => BroadState::GenericInactionable,
            MeleeState::DamageFall => BroadState::Air,
            MeleeState::Squat => BroadState::Crouch,
            MeleeState::SquatWait => BroadState::Crouch,
            MeleeState::SquatRv => BroadState::Ground,
            MeleeState::Landing => BroadState::GenericInactionable,
            MeleeState::LandingFallSpecial => BroadState::SpecialLanding,
            MeleeState::Attack11 => BroadState::Attack,
            MeleeState::Attack12 => BroadState::Attack,
            MeleeState::Attack13 => BroadState::Attack,
            MeleeState::Attack100Start => BroadState::Attack,
            MeleeState::Attack100Loop => BroadState::Attack,
            MeleeState::Attack100End => BroadState::Attack,
            MeleeState::AttackDash => BroadState::Attack,
            MeleeState::AttackS3Hi => BroadState::Attack,
            MeleeState::AttackS3HiS => BroadState::Attack,
            MeleeState::AttackS3S => BroadState::Attack,
            MeleeState::AttackS3LwS => BroadState::Attack,
            MeleeState::AttackS3Lw => BroadState::Attack,
            MeleeState::AttackHi3 => BroadState::Attack,
            MeleeState::AttackLw3 => BroadState::Attack,
            MeleeState::AttackS4Hi => BroadState::Attack,
            MeleeState::AttackS4HiS => BroadState::Attack,
            MeleeState::AttackS4S => BroadState::Attack,
            MeleeState::AttackS4LwS => BroadState::Attack,
            MeleeState::AttackS4Lw => BroadState::Attack,
            MeleeState::AttackHi4 => BroadState::Attack,
            MeleeState::AttackLw4 => BroadState::Attack,
            MeleeState::AttackAirN => BroadState::Attack,
            MeleeState::AttackAirF => BroadState::Attack,
            MeleeState::AttackAirB => BroadState::Attack,
            MeleeState::AttackAirHi => BroadState::Attack,
            MeleeState::AttackAirLw => BroadState::Attack,
            MeleeState::LandingAirN => BroadState::GenericInactionable,
            MeleeState::LandingAirF => BroadState::GenericInactionable,
            MeleeState::LandingAirB => BroadState::GenericInactionable,
            MeleeState::LandingAirHi => BroadState::GenericInactionable,
            MeleeState::LandingAirLw => BroadState::GenericInactionable,
            MeleeState::DamageHi1 => BroadState::Hitstun,
            MeleeState::DamageHi2 => BroadState::Hitstun,
            MeleeState::DamageHi3 => BroadState::Hitstun,
            MeleeState::DamageN1 => BroadState::Hitstun,
            MeleeState::DamageN2 => BroadState::Hitstun,
            MeleeState::DamageN3 => BroadState::Hitstun,
            MeleeState::DamageLw1 => BroadState::Hitstun,
            MeleeState::DamageLw2 => BroadState::Hitstun,
            MeleeState::DamageLw3 => BroadState::Hitstun,
            MeleeState::DamageAir1 => BroadState::Hitstun,
            MeleeState::DamageAir2 => BroadState::Hitstun,
            MeleeState::DamageAir3 => BroadState::Hitstun,
            MeleeState::DamageFlyHi => BroadState::Hitstun,
            MeleeState::DamageFlyN => BroadState::Hitstun,
            MeleeState::DamageFlyLw => BroadState::Hitstun,
            MeleeState::DamageFlyTop => BroadState::Hitstun,
            MeleeState::DamageFlyRoll => BroadState::Hitstun,
            MeleeState::LightGet => BroadState::GenericInactionable,
            MeleeState::HeavyGet => BroadState::GenericInactionable,
            MeleeState::LightThrowF => BroadState::GenericInactionable,
            MeleeState::LightThrowB => BroadState::GenericInactionable,
            MeleeState::LightThrowHi => BroadState::GenericInactionable,
            MeleeState::LightThrowLw => BroadState::GenericInactionable,
            MeleeState::LightThrowDash => BroadState::GenericInactionable,
            MeleeState::LightThrowDrop => BroadState::GenericInactionable,
            MeleeState::LightThrowAirF => BroadState::GenericInactionable,
            MeleeState::LightThrowAirB => BroadState::GenericInactionable,
            MeleeState::LightThrowAirHi => BroadState::GenericInactionable,
            MeleeState::LightThrowAirLw => BroadState::GenericInactionable,
            MeleeState::HeavyThrowF => BroadState::GenericInactionable,
            MeleeState::HeavyThrowB => BroadState::GenericInactionable,
            MeleeState::HeavyThrowHi => BroadState::GenericInactionable,
            MeleeState::HeavyThrowLw => BroadState::GenericInactionable,
            MeleeState::LightThrowF4 => BroadState::GenericInactionable,
            MeleeState::LightThrowB4 => BroadState::GenericInactionable,
            MeleeState::LightThrowHi4 => BroadState::GenericInactionable,
            MeleeState::LightThrowLw4 => BroadState::GenericInactionable,
            MeleeState::LightThrowAirF4 => BroadState::GenericInactionable,
            MeleeState::LightThrowAirB4 => BroadState::GenericInactionable,
            MeleeState::LightThrowAirHi4 => BroadState::GenericInactionable,
            MeleeState::LightThrowAirLw4 => BroadState::GenericInactionable,
            MeleeState::HeavyThrowF4 => BroadState::GenericInactionable,
            MeleeState::HeavyThrowB4 => BroadState::GenericInactionable,
            MeleeState::HeavyThrowHi4 => BroadState::GenericInactionable,
            MeleeState::HeavyThrowLw4 => BroadState::GenericInactionable,
            MeleeState::SwordSwing1 => BroadState::GenericInactionable,
            MeleeState::SwordSwing3 => BroadState::GenericInactionable,
            MeleeState::SwordSwing4 => BroadState::GenericInactionable,
            MeleeState::SwordSwingDash => BroadState::GenericInactionable,
            MeleeState::BatSwing1 => BroadState::GenericInactionable,
            MeleeState::BatSwing3 => BroadState::GenericInactionable,
            MeleeState::BatSwing4 => BroadState::GenericInactionable,
            MeleeState::BatSwingDash => BroadState::GenericInactionable,
            MeleeState::ParasolSwing1 => BroadState::GenericInactionable,
            MeleeState::ParasolSwing3 => BroadState::GenericInactionable,
            MeleeState::ParasolSwing4 => BroadState::GenericInactionable,
            MeleeState::ParasolSwingDash => BroadState::GenericInactionable,
            MeleeState::HarisenSwing1 => BroadState::GenericInactionable,
            MeleeState::HarisenSwing3 => BroadState::GenericInactionable,
            MeleeState::HarisenSwing4 => BroadState::GenericInactionable,
            MeleeState::HarisenSwingDash => BroadState::GenericInactionable,
            MeleeState::StarRodSwing1 => BroadState::GenericInactionable,
            MeleeState::StarRodSwing3 => BroadState::GenericInactionable,
            MeleeState::StarRodSwing4 => BroadState::GenericInactionable,
            MeleeState::StarRodSwingDash => BroadState::GenericInactionable,
            MeleeState::LipStickSwing1 => BroadState::GenericInactionable,
            MeleeState::LipStickSwing3 => BroadState::GenericInactionable,
            MeleeState::LipStickSwing4 => BroadState::GenericInactionable,
            MeleeState::LipStickSwingDash => BroadState::GenericInactionable,
            MeleeState::ItemParasolOpen => BroadState::GenericInactionable,
            MeleeState::ItemParasolFall => BroadState::GenericInactionable,
            MeleeState::ItemParasolFallSpecial => BroadState::GenericInactionable,
            MeleeState::ItemParasolDamageFall => BroadState::GenericInactionable,
            MeleeState::LGunShoot => BroadState::GenericInactionable,
            MeleeState::LGunShootAir => BroadState::GenericInactionable,
            MeleeState::LGunShootEmpty => BroadState::GenericInactionable,
            MeleeState::LGunShootAirEmpty => BroadState::GenericInactionable,
            MeleeState::FireFlowerShoot => BroadState::GenericInactionable,
            MeleeState::FireFlowerShootAir => BroadState::GenericInactionable,
            MeleeState::ItemScrew => BroadState::GenericInactionable,
            MeleeState::ItemScrewAir => BroadState::GenericInactionable,
            MeleeState::DamageScrew => BroadState::GenericInactionable,
            MeleeState::DamageScrewAir => BroadState::GenericInactionable,
            MeleeState::ItemScopeStart => BroadState::GenericInactionable,
            MeleeState::ItemScopeRapid => BroadState::GenericInactionable,
            MeleeState::ItemScopeFire => BroadState::GenericInactionable,
            MeleeState::ItemScopeEnd => BroadState::GenericInactionable,
            MeleeState::ItemScopeAirStart => BroadState::GenericInactionable,
            MeleeState::ItemScopeAirRapid => BroadState::GenericInactionable,
            MeleeState::ItemScopeAirFire => BroadState::GenericInactionable,
            MeleeState::ItemScopeAirEnd => BroadState::GenericInactionable,
            MeleeState::ItemScopeStartEmpty => BroadState::GenericInactionable,
            MeleeState::ItemScopeRapidEmpty => BroadState::GenericInactionable,
            MeleeState::ItemScopeFireEmpty => BroadState::GenericInactionable,
            MeleeState::ItemScopeEndEmpty => BroadState::GenericInactionable,
            MeleeState::ItemScopeAirStartEmpty => BroadState::GenericInactionable,
            MeleeState::ItemScopeAirRapidEmpty => BroadState::GenericInactionable,
            MeleeState::ItemScopeAirFireEmpty => BroadState::GenericInactionable,
            MeleeState::ItemScopeAirEndEmpty => BroadState::GenericInactionable,
            MeleeState::LiftWait => BroadState::GenericInactionable,
            MeleeState::LiftWalk1 => BroadState::GenericInactionable,
            MeleeState::LiftWalk2 => BroadState::GenericInactionable,
            MeleeState::LiftTurn => BroadState::GenericInactionable,
            MeleeState::GuardOn => BroadState::Shield,
            MeleeState::Guard => BroadState::Shield,
            MeleeState::GuardOff => BroadState::GenericInactionable,
            MeleeState::GuardSetOff => BroadState::Shield,
            MeleeState::GuardReflect => BroadState::Shield,
            MeleeState::DownBoundU => BroadState::GenericInactionable,
            MeleeState::DownWaitU => BroadState::GenericInactionable,
            MeleeState::DownDamageU => BroadState::GenericInactionable,
            MeleeState::DownStandU => BroadState::GenericInactionable,
            MeleeState::DownAttackU => BroadState::GenericInactionable,
            MeleeState::DownFowardU => BroadState::GenericInactionable,
            MeleeState::DownBackU => BroadState::GenericInactionable,
            MeleeState::DownSpotU => BroadState::GenericInactionable,
            MeleeState::DownBoundD => BroadState::GenericInactionable,
            MeleeState::DownWaitD => BroadState::GenericInactionable,
            MeleeState::DownDamageD => BroadState::GenericInactionable,
            MeleeState::DownStandD => BroadState::GenericInactionable,
            MeleeState::DownAttackD => BroadState::GenericInactionable,
            MeleeState::DownFowardD => BroadState::GenericInactionable,
            MeleeState::DownBackD => BroadState::GenericInactionable,
            MeleeState::DownSpotD => BroadState::GenericInactionable,
            MeleeState::Passive => BroadState::GenericInactionable,
            MeleeState::PassiveStandF => BroadState::GenericInactionable,
            MeleeState::PassiveStandB => BroadState::GenericInactionable,
            MeleeState::PassiveWall => BroadState::GenericInactionable,
            MeleeState::PassiveWallJump => BroadState::GenericInactionable,
            MeleeState::PassiveCeil => BroadState::GenericInactionable,
            MeleeState::ShieldBreakFly => BroadState::GenericInactionable,
            MeleeState::ShieldBreakFall => BroadState::GenericInactionable,
            MeleeState::ShieldBreakDownU => BroadState::GenericInactionable,
            MeleeState::ShieldBreakDownD => BroadState::GenericInactionable,
            MeleeState::ShieldBreakStandU => BroadState::GenericInactionable,
            MeleeState::ShieldBreakStandD => BroadState::GenericInactionable,
            MeleeState::FuraFura => BroadState::GenericInactionable,
            MeleeState::Catch => BroadState::Grab,
            MeleeState::CatchPull => BroadState::Grab,
            MeleeState::CatchDash => BroadState::Grab,
            MeleeState::CatchDashPull => BroadState::Grab,
            MeleeState::CatchWait => BroadState::Grab,
            MeleeState::CatchAttack => BroadState::Grab,
            MeleeState::CatchCut => BroadState::Grab,
            MeleeState::ThrowF => BroadState::Grab,
            MeleeState::ThrowB => BroadState::Grab,
            MeleeState::ThrowHi => BroadState::Grab,
            MeleeState::ThrowLw => BroadState::Grab,
            MeleeState::CapturePulledHi => BroadState::Hitstun,
            MeleeState::CaptureWaitHi => BroadState::Hitstun,
            MeleeState::CaptureDamageHi => BroadState::Hitstun,
            MeleeState::CapturePulledLw => BroadState::Hitstun,
            MeleeState::CaptureWaitLw => BroadState::Hitstun,
            MeleeState::CaptureDamageLw => BroadState::Hitstun,
            MeleeState::CaptureCut => BroadState::Hitstun,
            MeleeState::CaptureJump => BroadState::Hitstun,
            MeleeState::CaptureNeck => BroadState::Hitstun,
            MeleeState::CaptureFoot => BroadState::Hitstun,
            MeleeState::EscapeF => BroadState::Roll,
            MeleeState::EscapeB => BroadState::Roll,
            MeleeState::Escape => BroadState::Spotdodge,
            MeleeState::EscapeAir => BroadState::Airdodge,
            MeleeState::ReboundStop => BroadState::GenericInactionable,
            MeleeState::Rebound => BroadState::GenericInactionable,
            MeleeState::ThrownF => BroadState::Hitstun,
            MeleeState::ThrownB => BroadState::Hitstun,
            MeleeState::ThrownHi => BroadState::Hitstun,
            MeleeState::ThrownLw => BroadState::Hitstun,
            MeleeState::ThrownLwWomen => BroadState::Hitstun,
            MeleeState::Pass => BroadState::Air,
            MeleeState::Ottotto => BroadState::Ground,
            MeleeState::OttottoWait => BroadState::Ground,
            MeleeState::FlyReflectWall => BroadState::GenericInactionable,
            MeleeState::FlyReflectCeil => BroadState::GenericInactionable,
            MeleeState::StopWall => BroadState::GenericInactionable,
            MeleeState::StopCeil => BroadState::GenericInactionable,
            MeleeState::MissFoot => BroadState::Air,
            MeleeState::CliffCatch => BroadState::Ledge,
            MeleeState::CliffWait => BroadState::Ledge,
            MeleeState::CliffClimbSlow => BroadState::LedgeAction,
            MeleeState::CliffClimbQuick => BroadState::LedgeAction,
            MeleeState::CliffAttackSlow => BroadState::LedgeAction,
            MeleeState::CliffAttackQuick => BroadState::LedgeAction,
            MeleeState::CliffEscapeSlow => BroadState::LedgeAction,
            MeleeState::CliffEscapeQuick => BroadState::LedgeAction,
            MeleeState::CliffJumpSlow1 => BroadState::LedgeAction,
            MeleeState::CliffJumpSlow2 => BroadState::LedgeAction,
            MeleeState::CliffJumpQuick1 => BroadState::LedgeAction,
            MeleeState::CliffJumpQuick2 => BroadState::LedgeAction,
            MeleeState::AppealR => BroadState::GenericInactionable,
            MeleeState::AppealL => BroadState::GenericInactionable,
            MeleeState::ShoulderedWait => BroadState::Hitstun,
            MeleeState::ShoulderedWalkSlow => BroadState::Hitstun,
            MeleeState::ShoulderedWalkMiddle => BroadState::Hitstun,
            MeleeState::ShoulderedWalkFast => BroadState::Hitstun,
            MeleeState::ShoulderedTurn => BroadState::Hitstun,
            MeleeState::ThrownFF => BroadState::Hitstun,
            MeleeState::ThrownFB => BroadState::Hitstun,
            MeleeState::ThrownFHi => BroadState::Hitstun,
            MeleeState::ThrownFLw => BroadState::Hitstun,
            MeleeState::CaptureCaptain => BroadState::GenericInactionable,
            MeleeState::CaptureYoshi => BroadState::GenericInactionable,
            MeleeState::YoshiEgg => BroadState::GenericInactionable,
            MeleeState::CaptureKoopa => BroadState::GenericInactionable,
            MeleeState::CaptureDamageKoopa => BroadState::GenericInactionable,
            MeleeState::CaptureWaitKoopa => BroadState::GenericInactionable,
            MeleeState::ThrownKoopaF => BroadState::GenericInactionable,
            MeleeState::ThrownKoopaB => BroadState::GenericInactionable,
            MeleeState::CaptureKoopaAir => BroadState::GenericInactionable,
            MeleeState::CaptureDamageKoopaAir => BroadState::GenericInactionable,
            MeleeState::CaptureWaitKoopaAir => BroadState::GenericInactionable,
            MeleeState::ThrownKoopaAirF => BroadState::GenericInactionable,
            MeleeState::ThrownKoopaAirB => BroadState::GenericInactionable,
            MeleeState::CaptureKirby => BroadState::GenericInactionable,
            MeleeState::CaptureWaitKirby => BroadState::GenericInactionable,
            MeleeState::ThrownKirbyStar => BroadState::GenericInactionable,
            MeleeState::ThrownCopyStar => BroadState::GenericInactionable,
            MeleeState::ThrownKirby => BroadState::GenericInactionable,
            MeleeState::BarrelWait => BroadState::GenericInactionable,
            MeleeState::Bury => BroadState::GenericInactionable,
            MeleeState::BuryWait => BroadState::GenericInactionable,
            MeleeState::BuryJump => BroadState::GenericInactionable,
            MeleeState::DamageSong => BroadState::GenericInactionable,
            MeleeState::DamageSongWait => BroadState::GenericInactionable,
            MeleeState::DamageSongRv => BroadState::GenericInactionable,
            MeleeState::DamageBind => BroadState::GenericInactionable,
            MeleeState::CaptureMewtwo => BroadState::GenericInactionable,
            MeleeState::CaptureMewtwoAir => BroadState::GenericInactionable,
            MeleeState::ThrownMewtwo => BroadState::GenericInactionable,
            MeleeState::ThrownMewtwoAir => BroadState::GenericInactionable,
            MeleeState::WarpStarJump => BroadState::GenericInactionable,
            MeleeState::WarpStarFall => BroadState::GenericInactionable,
            MeleeState::HammerWait => BroadState::GenericInactionable,
            MeleeState::HammerWalk => BroadState::GenericInactionable,
            MeleeState::HammerTurn => BroadState::GenericInactionable,
            MeleeState::HammerKneeBend => BroadState::GenericInactionable,
            MeleeState::HammerFall => BroadState::GenericInactionable,
            MeleeState::HammerJump => BroadState::GenericInactionable,
            MeleeState::HammerLanding => BroadState::GenericInactionable,
            MeleeState::KinokoGiantStart => BroadState::GenericInactionable,
            MeleeState::KinokoGiantStartAir => BroadState::GenericInactionable,
            MeleeState::KinokoGiantEnd => BroadState::GenericInactionable,
            MeleeState::KinokoGiantEndAir => BroadState::GenericInactionable,
            MeleeState::KinokoSmallStart => BroadState::GenericInactionable,
            MeleeState::KinokoSmallStartAir => BroadState::GenericInactionable,
            MeleeState::KinokoSmallEnd => BroadState::GenericInactionable,
            MeleeState::KinokoSmallEndAir => BroadState::GenericInactionable,
            MeleeState::Entry => BroadState::GenericInactionable,
            MeleeState::EntryStart => BroadState::GenericInactionable,
            MeleeState::EntryEnd => BroadState::GenericInactionable,
            MeleeState::DamageIce => BroadState::GenericInactionable,
            MeleeState::DamageIceJump => BroadState::GenericInactionable,
            MeleeState::CaptureMasterHand => BroadState::GenericInactionable,
            MeleeState::CaptureDamageMasterHand => BroadState::GenericInactionable,
            MeleeState::CaptureWaitMasterHand => BroadState::GenericInactionable,
            MeleeState::ThrownMasterHand => BroadState::GenericInactionable,
            MeleeState::CaptureKirbyYoshi => BroadState::GenericInactionable,
            MeleeState::KirbyYoshiEgg => BroadState::GenericInactionable,
            MeleeState::CaptureRedead => BroadState::GenericInactionable,
            MeleeState::CaptureLikeLike => BroadState::GenericInactionable,
            MeleeState::DownReflect => BroadState::GenericInactionable,
            MeleeState::CaptureCrazyHand => BroadState::GenericInactionable,
            MeleeState::CaptureDamageCrazyHand => BroadState::GenericInactionable,
            MeleeState::CaptureWaitCrazyHand => BroadState::GenericInactionable,
            MeleeState::ThrownCrazyHand => BroadState::GenericInactionable,
            MeleeState::BarrelCannonWait => BroadState::GenericInactionable,
        }
    }

    /// Whether a new action may begin on a frame in this state.
    pub fn actionable_state(self) -> (r: Option<ActionableState>)
        ensures
            r == self.actionable_state_spec(),
    {
        match self.broad_state() {
            BroadState::Air => Some(ActionableState::Air),
            BroadState::Ground => Some(ActionableState::Ground),
            BroadState::Walk => Some(ActionableState::Ground),
            BroadState::DashRun => match self {
                MeleeState::Dash => Some(ActionableState::Dash),
                MeleeState::TurnRun => Some(ActionableState::Run),
                MeleeState::Run => Some(ActionableState::Run),
                MeleeState::RunDirect => Some(ActionableState::Run),
                MeleeState::RunBrake => Some(ActionableState::Run),
                _ => None,
            },
            BroadState::Shield => Some(ActionableState::Shield),
            BroadState::Ledge => match self {
                MeleeState::CliffWait => Some(ActionableState::Ledge),
                _ => None,
            },
            BroadState::AirJump => Some(ActionableState::Air),
            BroadState::Crouch => Some(ActionableState::Ground),
            _ => None,
        }
    }

    /// The ledge-recovery action this state performs, if it is one.
    pub fn ledge_action(self) -> (r: Option<LedgeAction>)
        ensures
            r == self.ledge_action_spec(),
    {
        match self {
            MeleeState::CliffClimbSlow => Some(LedgeAction::GetUp),
            MeleeState::CliffClimbQuick => Some(LedgeAction::GetUp),
            MeleeState::CliffAttackSlow => Some(LedgeAction::Attack),
            MeleeState::CliffAttackQuick => Some(LedgeAction::Attack),
            MeleeState::CliffEscapeSlow => Some(LedgeAction::Roll),
            MeleeState::CliffEscapeQuick => Some(LedgeAction::Roll),
            MeleeState::CliffJumpSlow1 => Some(LedgeAction::Jump),
            MeleeState::CliffJumpSlow2 => Some(LedgeAction::Jump),
            MeleeState::CliffJumpQuick1 => Some(LedgeAction::Jump),
            MeleeState::CliffJumpQuick2 => Some(LedgeAction::Jump),
            _ => None,
        }
    }

    /// The specific attack this state executes, if it is an attack state.
    pub fn attack_type(self) -> (r: Option<AttackType>)
        ensures
            r == self.attack_type_spec(),
    {
        match self {
            MeleeState::Attack11 => Some(AttackType::GroundAttack(GroundAttack::Jab)),
            MeleeState::Attack12 => Some(AttackType::GroundAttack(GroundAttack::Jab)),
            MeleeState::Attack13 => Some(AttackType::GroundAttack(GroundAttack::Jab)),
            MeleeState::Attack100Start => Some(AttackType::GroundAttack(GroundAttack::Jab)),
            MeleeState::Attack100Loop => Some(AttackType::GroundAttack(GroundAttack::Jab)),
            MeleeState::Attack100End => Some(AttackType::GroundAttack(GroundAttack::Jab)),
            MeleeState::AttackDash => Some(AttackType::GroundAttack(GroundAttack::DashAttack)),
            MeleeState::AttackS3Hi => Some(AttackType::GroundAttack(GroundAttack::Ftilt)),
            MeleeState::AttackS3HiS => Some(AttackType::GroundAttack(GroundAttack::Ftilt)),
            MeleeState::AttackS3S => Some(AttackType::GroundAttack(GroundAttack::Ftilt)),
            MeleeState::AttackS3LwS => Some(AttackType::GroundAttack(GroundAttack::Ftilt)),
            MeleeState::AttackS3Lw => Some(AttackType::GroundAttack(GroundAttack::Ftilt)),
            MeleeState::AttackHi3 => Some(AttackType::GroundAttack(GroundAttack::Utilt)),
            MeleeState::AttackLw3 => Some(AttackType::GroundAttack(GroundAttack::Dtilt)),
            MeleeState::AttackS4Hi => Some(AttackType::GroundAttack(GroundAttack::Fsmash)),
            MeleeState::AttackS4HiS => Some(AttackType::GroundAttack(GroundAttack::Fsmash)),
            MeleeState::AttackS4S => Some(AttackType::GroundAttack(GroundAttack::Fsmash)),
            MeleeState::AttackS4LwS => Some(AttackType::GroundAttack(GroundAttack::Fsmash)),
            MeleeState::AttackS4Lw => Some(AttackType::GroundAttack(GroundAttack::Fsmash)),
            MeleeState::AttackHi4 => Some(AttackType::GroundAttack(GroundAttack::Usmash)),
            MeleeState::AttackLw4 => Some(AttackType::GroundAttack(GroundAttack::Dsmash)),
            MeleeState::AttackAirN => Some(AttackType::AirAttack(AirAttack::Nair)),
            MeleeState::AttackAirF => Some(AttackType::AirAttack(AirAttack::Fair)),
            MeleeState::AttackAirB => Some(AttackType::AirAttack(AirAttack::Bair)),
            MeleeState::AttackAirHi => Some(AttackType::AirAttack(AirAttack::Uair)),
            MeleeState::AttackAirLw => Some(AttackType::AirAttack(AirAttack::Dair)),
            _ => None,
        }
    }
}

/// Every state in the `Attack` category classifies as a specific attack.
pub proof fn lemma_attack_states_classify(s: MeleeState)
    requires
        s.broad_state_spec() == BroadState::Attack,
    ensures
        s.attack_type_spec() is Some,
{
}

/// Every state in the `LedgeAction` category classifies as a specific
/// ledge-recovery action.
pub proof fn lemma_ledge_states_classify(s: MeleeState)
    requires
        s.broad_state_spec() == BroadState::LedgeAction,
    ensures
        s.ledge_action_spec() is Some,
{
}

/// The roll category holds exactly the two directional escape states.
pub proof fn lemma_roll_states(s: MeleeState)
    requires
        s.broad_state_spec() == BroadState::Roll,
    ensures
        s == MeleeState::EscapeF || s == MeleeState::EscapeB,
{
}

impl HighLevelAction {
    /// The largest value of the compact encoding.
    pub const MAX_VALUE: u8 = 63;

    /// The number of codes in the compact encoding.
    pub const VARIANT_COUNT: u8 = 64;

    /// The compact one-byte code of this action: a fixed bidirectional
    /// table, independent of declaration order or memory layout.
    pub open spec fn code_spec(self) -> u8 {
        match self {
            HighLevelAction::GroundAttack(GroundAttack::Utilt) => 0,
            HighLevelAction::GroundAttack(GroundAttack::Ftilt) => 1,
            HighLevelAction::GroundAttack(GroundAttack::Dtilt) => 2,
            HighLevelAction::GroundAttack(GroundAttack::Jab) => 3,
            HighLevelAction::GroundAttack(GroundAttack::Usmash) => 4,
            HighLevelAction::GroundAttack(GroundAttack::Dsmash) => 5,
            HighLevelAction::GroundAttack(GroundAttack::Fsmash) => 6,
            HighLevelAction::GroundAttack(GroundAttack::DashAttack) => 7,
            HighLevelAction::Aerial(AirAttack::Nair) => 8,
            HighLevelAction::Aerial(AirAttack::Uair) => 9,
            HighLevelAction::Aerial(AirAttack::Fair) => 10,
            HighLevelAction::Aerial(AirAttack::Bair) => 11,
            HighLevelAction::Aerial(AirAttack::Dair) => 12,
            HighLevelAction::JumpAerial(AirAttack::Nair) => 13,
            HighLevelAction::JumpAerial(AirAttack::Uair) => 14,
            HighLevelAction::JumpAerial(AirAttack::Fair) => 15,
            HighLevelAction::JumpAerial(AirAttack::Bair) => 16,
            HighLevelAction::JumpAerial(AirAttack::Dair) => 17,
            HighLevelAction::Fullhop => 18,
            HighLevelAction::FullhopAerial(AirAttack::Nair) => 19,
            HighLevelAction::FullhopAerial(AirAttack::Uair) => 20,
            HighLevelAction::FullhopAerial(AirAttack::Fair) => 21,
            HighLevelAction::FullhopAerial(AirAttack::Bair) => 22,
            HighLevelAction::FullhopAerial(AirAttack::Dair) => 23,
            HighLevelAction::Shorthop => 24,
            HighLevelAction::ShorthopAerial(AirAttack::Nair) => 25,
            HighLevelAction::ShorthopAerial(AirAttack::Uair) => 26,
            HighLevelAction::ShorthopAerial(AirAttack::Fair) => 27,
            HighLevelAction::ShorthopAerial(AirAttack::Bair) => 28,
            HighLevelAction::ShorthopAerial(AirAttack::Dair) => 29,
            HighLevelAction::Grab => 30,
            HighLevelAction::GroundWait => 31,
            HighLevelAction::AirWait => 32,
            HighLevelAction::AirJump => 33,
            HighLevelAction::Airdodge => 34,
            HighLevelAction::LedgeWait => 35,
            HighLevelAction::LedgeDash => 36,
            HighLevelAction::LedgeRoll => 37,
            HighLevelAction::LedgeJump => 38,
            HighLevelAction::LedgeHop => 39,
            HighLevelAction::LedgeAerial(AirAttack::Nair) => 40,
            HighLevelAction::LedgeAerial(AirAttack::Uair) => 41,
            HighLevelAction::LedgeAerial(AirAttack::Fair) => 42,
            HighLevelAction::LedgeAerial(AirAttack::Bair) => 43,
            HighLevelAction::LedgeAerial(AirAttack::Dair) => 44,
            HighLevelAction::LedgeGetUp => 45,
            HighLevelAction::LedgeAttack => 46,
            HighLevelAction::LedgeDrop => 47,
            HighLevelAction::WavedashRight => 48,
            HighLevelAction::WavedashDown => 49,
            HighLevelAction::WavedashLeft => 50,
            HighLevelAction::WavelandRight => 51,
            HighLevelAction::WavelandDown => 52,
            HighLevelAction::WavelandLeft => 53,
            HighLevelAction::DashLeft => 54,
            HighLevelAction::DashRight => 55,
            HighLevelAction::WalkLeft => 56,
            HighLevelAction::WalkRight => 57,
            HighLevelAction::Shield => 58,
            HighLevelAction::Spotdodge => 59,
            HighLevelAction::RollForward => 60,
            HighLevelAction::RollBackward => 61,
            HighLevelAction::Crouch => 62,
            HighLevelAction::Hitstun => 63,
        }
    }

    /// Decodes a compact one-byte code; codes past the table decode to
    /// nothing.
    pub fn from_u8(n: u8) -> (r: Option<Self>)
        ensures
            r is Some <==> n <= 63,
            r matches Some(h) ==> h.code_spec() == n,
    {
        match n {
            0 => Some(HighLevelAction::GroundAttack(GroundAttack::Utilt)),
            1 => Some(HighLevelAction::GroundAttack(GroundAttack::Ftilt)),
            2 => Some(HighLevelAction::GroundAttack(GroundAttack::Dtilt)),
            3 => Some(HighLevelAction::GroundAttack(GroundAttack::Jab)),
            4 => Some(HighLevelAction::GroundAttack(GroundAttack::Usmash)),
            5 => Some(HighLevelAction::GroundAttack(GroundAttack::Dsmash)),
            6 => Some(HighLevelAction::GroundAttack(GroundAttack::Fsmash)),
            7 => Some(HighLevelAction::GroundAttack(GroundAttack::DashAttack)),
            8 => Some(HighLevelAction::Aerial(AirAttack::Nair)),
            9 => Some(HighLevelAction::Aerial(AirAttack::Uair)),
            10 => Some(HighLevelAction::Aerial(AirAttack::Fair)),
            11 => Some(HighLevelAction::Aerial(AirAttack::Bair)),
            12 => Some(HighLevelAction::Aerial(AirAttack::Dair)),
            13 => Some(HighLevelAction::JumpAerial(AirAttack::Nair)),
            14 => Some(HighLevelAction::JumpAerial(AirAttack::Uair)),
            15 => Some(HighLevelAction::JumpAerial(AirAttack::Fair)),
            16 => Some(HighLevelAction::JumpAerial(AirAttack::Bair)),
            17 => Some(HighLevelAction::JumpAerial(AirAttack::Dair)),
            18 => Some(HighLevelAction::Fullhop),
            19 => Some(HighLevelAction::FullhopAerial(AirAttack::Nair)),
            20 => Some(HighLevelAction::FullhopAerial(AirAttack::Uair)),
            21 => Some(HighLevelAction::FullhopAerial(AirAttack::Fair)),
            22 => Some(HighLevelAction::FullhopAerial(AirAttack::Bair)),
            23 => Some(HighLevelAction::FullhopAerial(AirAttack::Dair)),
            24 => Some(HighLevelAction::Shorthop),
            25 => Some(HighLevelAction::ShorthopAerial(AirAttack::Nair)),
            26 => Some(HighLevelAction::ShorthopAerial(AirAttack::Uair)),
            27 => Some(HighLevelAction::ShorthopAerial(AirAttack::Fair)),
            28 => Some(HighLevelAction::ShorthopAerial(AirAttack::Bair)),
            29 => Some(HighLevelAction::ShorthopAerial(AirAttack::Dair)),
            30 => Some(HighLevelAction::Grab),
            31 => Some(HighLevelAction::GroundWait),
            32 => Some(HighLevelAction::AirWait),
            33 => Some(HighLevelAction::AirJump),
            34 => Some(HighLevelAction::Airdodge),
            35 => Some(HighLevelAction::LedgeWait),
            36 => Some(HighLevelAction::LedgeDash),
            37 => Some(HighLevelAction::LedgeRoll),
            38 => Some(HighLevelAction::LedgeJump),
            39 => Some(HighLevelAction::LedgeHop),
            40 => Some(HighLevelAction::LedgeAerial(AirAttack::Nair)),
            41 => Some(HighLevelAction::LedgeAerial(AirAttack::Uair)),
            42 => Some(HighLevelAction::LedgeAerial(AirAttack::Fair)),
            43 => Some(HighLevelAction::LedgeAerial(AirAttack::Bair)),
            44 => Some(HighLevelAction::LedgeAerial(AirAttack::Dair)),
            45 => Some(HighLevelAction::LedgeGetUp),
            46 => Some(HighLevelAction::LedgeAttack),
            47 => Some(HighLevelAction::LedgeDrop),
            48 => Some(HighLevelAction::WavedashRight),
            49 => Some(HighLevelAction::WavedashDown),
            50 => Some(HighLevelAction::WavedashLeft),
            51 => Some(HighLevelAction::WavelandRight),
            52 => Some(HighLevelAction::WavelandDown),
            53 => Some(HighLevelAction::WavelandLeft),
            54 => Some(HighLevelAction::DashLeft),
            55 => Some(HighLevelAction::DashRight),
            56 => Some(HighLevelAction::WalkLeft),
            57 => Some(HighLevelAction::WalkRight),
            58 => Some(HighLevelAction::Shield),
            59 => Some(HighLevelAction::Spotdodge),
            60 => Some(HighLevelAction::RollForward),
            61 => Some(HighLevelAction::RollBackward),
            62 => Some(HighLevelAction::Crouch),
            63 => Some(HighLevelAction::Hitstun),
            _ => None,
        }
    }

    /// Encodes this action as its compact one-byte code.
    pub fn into_u8(self) -> (r: u8)
        ensures
            r == self.code_spec(),
    {
        match self {
            HighLevelAction::GroundAttack(GroundAttack::Utilt) => 0,
            HighLevelAction::GroundAttack(GroundAttack::Ftilt) => 1,
            HighLevelAction::GroundAttack(GroundAttack::Dtilt) => 2,
            HighLevelAction::GroundAttack(GroundAttack::Jab) => 3,
            HighLevelAction::GroundAttack(GroundAttack::Usmash) => 4,
            HighLevelAction::GroundAttack(GroundAttack::Dsmash) => 5,
            HighLevelAction::GroundAttack(GroundAttack::Fsmash) => 6,
            HighLevelAction::GroundAttack(GroundAttack::DashAttack) => 7,
            HighLevelAction::Aerial(AirAttack::Nair) => 8,
            HighLevelAction::Aerial(AirAttack::Uair) => 9,
            HighLevelAction::Aerial(AirAttack::Fair) => 10,
            HighLevelAction::Aerial(AirAttack::Bair) => 11,
            HighLevelAction::Aerial(AirAttack::Dair) => 12,
            HighLevelAction::JumpAerial(AirAttack::Nair) => 13,
            HighLevelAction::JumpAerial(AirAttack::Uair) => 14,
            HighLevelAction::JumpAerial(AirAttack::Fair) => 15,
            HighLevelAction::JumpAerial(AirAttack::Bair) => 16,
            HighLevelAction::JumpAerial(AirAttack::Dair) => 17,
            HighLevelAction::Fullhop => 18,
            HighLevelAction::FullhopAerial(AirAttack::Nair) => 19,
            HighLevelAction::FullhopAerial(AirAttack::Uair) => 20,
            HighLevelAction::FullhopAerial(AirAttack::Fair) => 21,
            HighLevelAction::FullhopAerial(AirAttack::Bair) => 22,
            HighLevelAction::FullhopAerial(AirAttack::Dair) => 23,
            HighLevelAction::Shorthop => 24,
            HighLevelAction::ShorthopAerial(AirAttack::Nair) => 25,
            HighLevelAction::ShorthopAerial(AirAttack::Uair) => 26,
            HighLevelAction::ShorthopAerial(AirAttack::Fair) => 27,
            HighLevelAction::ShorthopAerial(AirAttack::Bair) => 28,
            HighLevelAction::ShorthopAerial(AirAttack::Dair) => 29,
            HighLevelAction::Grab => 30,
            HighLevelAction::GroundWait => 31,
            HighLevelAction::AirWait => 32,
            HighLevelAction::AirJump => 33,
            HighLevelAction::Airdodge => 34,
            HighLevelAction::LedgeWait => 35,
            HighLevelAction::LedgeDash => 36,
            HighLevelAction::LedgeRoll => 37,
            HighLevelAction::LedgeJump => 38,
            HighLevelAction::LedgeHop => 39,
            HighLevelAction::LedgeAerial(AirAttack::Nair) => 40,
            HighLevelAction::LedgeAerial(AirAttack::Uair) => 41,
            HighLevelAction::LedgeAerial(AirAttack::Fair) => 42,
            HighLevelAction::LedgeAerial(AirAttack::Bair) => 43,
            HighLevelAction::LedgeAerial(AirAttack::Dair) => 44,
            HighLevelAction::LedgeGetUp => 45,
            HighLevelAction::LedgeAttack => 46,
            HighLevelAction::LedgeDrop => 47,
            HighLevelAction::WavedashRight => 48,
            HighLevelAction::WavedashDown => 49,
            HighLevelAction::WavedashLeft => 50,
            HighLevelAction::WavelandRight => 51,
            HighLevelAction::WavelandDown => 52,
            HighLevelAction::WavelandLeft => 53,
            HighLevelAction::DashLeft => 54,
            HighLevelAction::DashRight => 55,
            HighLevelAction::WalkLeft => 56,
            HighLevelAction::WalkRight => 57,
            HighLevelAction::Shield => 58,
            HighLevelAction::Spotdodge => 59,
            HighLevelAction::RollForward => 60,
            HighLevelAction::RollBackward => 61,
            HighLevelAction::Crouch => 62,
            HighLevelAction::Hitstun => 63,
        }
    }
}

/// The compact encoding is injective: two actions with one code are one
/// action, so the table is a bijection between the catalogue and `0..=63`.
pub proof fn lemma_code_injective(a: HighLevelAction, b: HighLevelAction)
    requires
        a.code_spec() == b.code_spec(),
    ensures
        a == b,
{
}

} // verus!

