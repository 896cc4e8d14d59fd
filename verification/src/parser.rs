//! The action segmenter: a forward-only cursor over one competitor's frame
//! array, and the finite-state machine that turns that array into an
//! ordered, non-overlapping sequence of semantic actions.
//!
//! The segmenter advances past frames on which no action may begin, then
//! snapshots the first actionable frame and dispatches on its coarse
//! category. Several categories tolerate a bounded window of same-category
//! noise (a courtesy window) before the default "no action taken"
//! interpretation is committed to; a category change inside the window
//! re-enters dispatch, as a more specific action has begun.

use vstd::prelude::*;

use crate::game_enums::Character;
use crate::states::AttackType;
use crate::states::BroadState;
use crate::states::HighLevelAction;
use crate::states::LedgeAction;
use crate::states::MeleeState;
use crate::states::lemma_attack_states_classify;
use crate::states::lemma_ledge_states_classify;
use crate::states::lemma_roll_states;
use crate::Action;
use crate::Direction;
use crate::Frame;
use crate::Vector;

verus! {

/// Air-category noise tolerated before "waited in the air" is committed to.
pub const AIR_COURTESY_TIMEOUT: usize = 10;

/// Air-jump-category noise tolerated after a mid-air jump.
pub const AIRJUMP_COURTESY_TIMEOUT: usize = 10;

/// Ground-category noise tolerated before "waited on the ground".
pub const GROUND_COURTESY_TIMEOUT: usize = 5;

/// Walk-category noise tolerated before a committed walk.
pub const WALK_COURTESY_TIMEOUT: usize = 5;

/// Shield-category noise tolerated before a committed shield.
pub const SHIELD_COURTESY_TIMEOUT: usize = 5;

/// Air frames tolerated between two hitstun runs before they count as
/// separate actions.
pub const HITSTUN_GAP_TIMEOUT: usize = 5;

/// Ledge-hang frames tolerated before "waited on the ledge".
pub const LEDGE_COURTESY_TIMEOUT: usize = 15;

/// Dash-or-run-category noise tolerated before a committed dash.
pub const DASH_COURTESY_TIMEOUT: usize = 3;

/// Crouch-category noise tolerated before a committed crouch.
pub const CROUCH_COURTESY_TIMEOUT: usize = 5;

/// The dead zone around zero horizontal landing velocity inside which a
/// landed airdodge classifies as straight down rather than left or right,
/// in thousandths of a unit per frame.
pub const WAVELAND_EPSILON: i32 = 100;

/// One same-category grace window: up to `timeout` consecutive frames of
/// category `state` are tolerated before the default interpretation wins.
#[derive(Clone, Copy, Debug, PartialEq, Eq, Structural)]
pub struct Courtesy {
    pub timeout: usize,
    pub state: BroadState,
}

/// How a courtesy window resolved.
#[derive(Clone, Copy, Debug, PartialEq, Eq, Structural)]
pub enum CourtesyReturn {
    /// The category changed immediately: no frame was consumed.
    NoSkip,
    /// The category changed inside the window, after this many frames.
    SkipSome(usize),
    /// The window fully elapsed, consuming exactly the timeout.
    SkipMax(usize),
}

/// Whether a jump squat launched a full or a short hop.
#[derive(Clone, Copy, Debug, PartialEq, Eq, Structural)]
enum JumpType {
    Full,
    Short,
}

/// The index just past the run of consecutive frames of category `b` that
/// begins at `from`.
pub open spec fn run_end(frames: Seq<Frame>, from: int, b: BroadState) -> int
    decreases frames.len() - from,
{
    if 0 <= from < frames.len() && frames[from].state.broad_state_spec() == b {
        run_end(frames, from + 1, b)
    } else {
        from
    }
}

/// The grace window of category `b` and length `t` at position `p` fully
/// elapses: at least `t` consecutive frames of category `b` stand there.
pub open spec fn window_elapses(frames: Seq<Frame>, p: int, b: BroadState, t: int) -> bool {
    run_end(frames, p, b) >= p + t
}

/// The run of category `b` at `from` lies inside the array, consists of
/// `b` frames throughout, and ends at the end of the array or at a frame
/// of another category.
pub proof fn lemma_run_end_props(frames: Seq<Frame>, from: int, b: BroadState)
    requires
        0 <= from <= frames.len(),
    ensures
        from <= run_end(frames, from, b) <= frames.len(),
        forall|k: int| from <= k < run_end(frames, from, b)
            ==> (#[trigger] frames[k].state).broad_state_spec() == b,
        run_end(frames, from, b) < frames.len()
            ==> frames[run_end(frames, from, b)].state.broad_state_spec() != b,
    decreases frames.len() - from,
{
    if from < frames.len() && frames[from].state.broad_state_spec() == b {
        lemma_run_end_props(frames, from + 1, b);
    }
}

/// Positions inside one run share its end: stepping forward over frames of
/// the run's own category does not change where the run ends.
pub proof fn lemma_run_end_absorb(frames: Seq<Frame>, p: int, q: int, b: BroadState)
    requires
        0 <= p <= q <= frames.len(),
        forall|k: int| p <= k < q ==> (#[trigger] frames[k].state).broad_state_spec() == b,
    ensures
        run_end(frames, p, b) == run_end(frames, q, b),
    decreases q - p,
{
    if p < q {
        lemma_run_end_absorb(frames, p + 1, q, b);
    }
}

/// The index of the first frame at or after `from` whose category is
/// hitstun, or the end of the array if none follows.
pub open spec fn next_hitstun(frames: Seq<Frame>, from: int) -> int
    decreases frames.len() - from,
{
    if 0 <= from < frames.len() && frames[from].state.broad_state_spec() != BroadState::Hitstun {
        next_hitstun(frames, from + 1)
    } else {
        from
    }
}

/// Between `from` and the next hitstun frame everything is of another
/// category, and a hitstun frame stands there if it lies inside the array.
pub proof fn lemma_next_hitstun_props(frames: Seq<Frame>, from: int)
    requires
        0 <= from <= frames.len(),
    ensures
        from <= next_hitstun(frames, from) <= frames.len(),
        forall|k: int| from <= k < next_hitstun(frames, from)
            ==> (#[trigger] frames[k].state).broad_state_spec() != BroadState::Hitstun,
        next_hitstun(frames, from) < frames.len()
            ==> frames[next_hitstun(frames, from)].state.broad_state_spec() == BroadState::Hitstun,
    decreases frames.len() - from,
{
    if from < frames.len() && frames[from].state.broad_state_spec() != BroadState::Hitstun {
        lemma_next_hitstun_props(frames, from + 1);
    }
}

/// Stepping forward over non-hitstun frames does not change where the next
/// hitstun frame lies.
pub proof fn lemma_next_hitstun_absorb(frames: Seq<Frame>, p: int, q: int)
    requires
        0 <= p <= q <= frames.len(),
        forall|k: int| p <= k < q
            ==> (#[trigger] frames[k].state).broad_state_spec() != BroadState::Hitstun,
    ensures
        next_hitstun(frames, p) == next_hitstun(frames, q),
    decreases q - p,
{
    if p < q {
        lemma_next_hitstun_absorb(frames, p + 1, q);
    }
}

/// Where the hitstun episode beginning at `p` ends: past the hitstun run,
/// and past any non-hitstun gap of at most [`HITSTUN_GAP_TIMEOUT`] frames
/// that further hitstun follows, repeatedly. A longer gap, or one that no
/// hitstun follows, is left out of the episode.
pub open spec fn hitstun_end(frames: Seq<Frame>, p: int) -> int
    decreases frames.len() - p
        via hitstun_end_decreases
{
    let h = run_end(frames, p, BroadState::Hitstun);
    let n = next_hitstun(frames, h);
    if p < h && n < frames.len() && n - h <= HITSTUN_GAP_TIMEOUT as int {
        hitstun_end(frames, n)
    } else {
        h
    }
}

#[via_fn]
proof fn hitstun_end_decreases(frames: Seq<Frame>, p: int) {
    if 0 <= p <= frames.len() {
        lemma_run_end_props(frames, p, BroadState::Hitstun);
        lemma_next_hitstun_props(frames, run_end(frames, p, BroadState::Hitstun));
    }
}

/// The remap a waveland undergoes when it happens straight out of a jump's
/// initiation, cancelling the landing lag: a wavedash.
pub open spec fn wavedash_remap(h: HighLevelAction) -> HighLevelAction {
    match h {
        HighLevelAction::WavelandRight => HighLevelAction::WavedashRight,
        HighLevelAction::WavelandLeft => HighLevelAction::WavedashLeft,
        HighLevelAction::WavelandDown => HighLevelAction::WavedashDown,
        _ => h,
    }
}

/// The remap a waveland undergoes when it happens straight off a ledge
/// hang: a ledgedash.
pub open spec fn ledgedash_remap(h: HighLevelAction) -> HighLevelAction {
    match h {
        HighLevelAction::WavelandLeft => HighLevelAction::LedgeDash,
        HighLevelAction::WavelandDown => HighLevelAction::LedgeDash,
        HighLevelAction::WavelandRight => HighLevelAction::LedgeDash,
        _ => h,
    }
}

/// How an airdodge beginning at `p` resolves: its classification and the
/// index its span ends at. One that runs into a special landing is a
/// waveland, classified by the landing frame's horizontal velocity; one
/// that anything else follows stands alone; one truncated by the end of
/// the array is an unparseable tail.
pub open spec fn airdodge_outcome(frames: Seq<Frame>, p: int) -> Option<(HighLevelAction, int)> {
    let q = run_end(frames, p, BroadState::Airdodge);
    if q == frames.len() {
        None
    } else if frames[q].state.broad_state_spec() == BroadState::SpecialLanding {
        Some(
            (
                waveland_hla_spec(frames[q].velocity.x),
                run_end(frames, q + 1, BroadState::SpecialLanding),
            ),
        )
    } else {
        Some((HighLevelAction::Airdodge, q))
    }
}

/// How a mid-air jump beginning at `p` resolves. The jump frame is
/// consumed, then the air-jump grace window runs from the next frame: a
/// fully elapsed window is a plain air jump over the whole run; an aerial
/// attack inside the window specialises it to a jump aerial; anything
/// else before the window elapses is an unparseable tail.
pub open spec fn air_jump_outcome(frames: Seq<Frame>, p: int) -> Option<(HighLevelAction, int)> {
    let c = p + 1;
    if window_elapses(frames, c, BroadState::AirJump, AIRJUMP_COURTESY_TIMEOUT as int) {
        Some((HighLevelAction::AirJump, run_end(frames, c, BroadState::AirJump)))
    } else {
        let q = run_end(frames, c, BroadState::AirJump);
        if q >= frames.len() {
            None
        } else if frames[q].state.broad_state_spec() == BroadState::Attack {
            match frames[q].state.attack_type_spec() {
                Some(AttackType::AirAttack(at)) => Some(
                    (HighLevelAction::JumpAerial(at), run_end(frames, q, BroadState::Attack)),
                ),
                _ => None,
            }
        } else {
            None
        }
    }
}

/// How a jump beginning with the squat run at `p` resolves. The squat run
/// is consumed and the launch classified against the character's threshold;
/// a quiet air window leaves the hop alone, and an action inside the window
/// specialises it: an attack to a hop aerial, an air jump to air-jump
/// handling, an airdodge that lands to a wavedash, a grab to a grab. A
/// squat truncated by the array's end, or by a character missing from the
/// threshold table, is abandoned.
pub open spec fn jump_squat_outcome(frames: Seq<Frame>, p: int) -> Option<(HighLevelAction, int)> {
    let e = run_end(frames, p, BroadState::JumpSquat);
    if e >= frames.len() {
        None
    } else {
        match jump_threshold_spec(frames[e - 1].character) {
            None => None,
            Some(t) => {
                let full = frames[e - 1].velocity.y > t;
                let hop = if full {
                    HighLevelAction::Fullhop
                } else {
                    HighLevelAction::Shorthop
                };
                if window_elapses(frames, e, BroadState::Air, AIR_COURTESY_TIMEOUT as int) {
                    Some((hop, e + AIR_COURTESY_TIMEOUT))
                } else {
                    let q = run_end(frames, e, BroadState::Air);
                    if q >= frames.len() {
                        None
                    } else {
                        match frames[q].state.broad_state_spec() {
                            BroadState::Attack => match frames[q].state.attack_type_spec() {
                                Some(AttackType::AirAttack(at)) => Some(
                                    (
                                        if full {
                                            HighLevelAction::FullhopAerial(at)
                                        } else {
                                            HighLevelAction::ShorthopAerial(at)
                                        },
                                        run_end(frames, q, BroadState::Attack),
                                    ),
                                ),
                                Some(AttackType::GroundAttack(g)) => Some(
                                    (
                                        HighLevelAction::GroundAttack(g),
                                        run_end(frames, q, BroadState::Attack),
                                    ),
                                ),
                                None => None,
                            },
                            BroadState::AirJump => air_jump_outcome(frames, q),
                            BroadState::Airdodge => match airdodge_outcome(frames, q) {
                                Some((kind, end)) => Some((wavedash_remap(kind), end)),
                                None => None,
                            },
                            BroadState::SpecialLanding => match airdodge_outcome(frames, q) {
                                Some((kind, end)) => Some((wavedash_remap(kind), end)),
                                None => None,
                            },
                            BroadState::Grab => Some(
                                (HighLevelAction::Grab, run_end(frames, q, BroadState::Grab)),
                            ),
                            _ => Some((hop, q)),
                        }
                    }
                }
            },
        }
    }
}

/// How what follows a ledge hang at `p` resolves. A fully elapsed ledge
/// window is a ledge wait; otherwise the hang resolves into a ledge
/// recovery, hitstun, or the air — and from the air, after a drop window,
/// into a ledge drop, hitstun, or an air jump whose follow-up refines the
/// classification: a waveland to a ledgedash, an aerial to a ledge aerial,
/// a plain landing to a ledgedash, a quiet window to a ledge hop.
pub open spec fn ledge_outcome(frames: Seq<Frame>, p: int) -> Option<(HighLevelAction, int)> {
    if window_elapses(frames, p, BroadState::Ledge, LEDGE_COURTESY_TIMEOUT as int) {
        Some((HighLevelAction::LedgeWait, p + LEDGE_COURTESY_TIMEOUT))
    } else {
        let g = run_end(frames, p, BroadState::Ledge);
        if g >= frames.len() {
            None
        } else {
            match frames[g].state.broad_state_spec() {
                BroadState::LedgeAction => match ledge_hla_spec(frames[g].state) {
                    Some(kind) => Some((kind, run_end(frames, g, BroadState::LedgeAction))),
                    None => None,
                },
                BroadState::Hitstun => Some(
                    (HighLevelAction::Hitstun, hitstun_end(frames, g)),
                ),
                BroadState::Air => {
                    if window_elapses(frames, g, BroadState::Air, AIR_COURTESY_TIMEOUT as int) {
                        Some((HighLevelAction::LedgeDrop, g + AIR_COURTESY_TIMEOUT))
                    } else {
                        let h = run_end(frames, g, BroadState::Air);
                        if h >= frames.len() {
                            None
                        } else {
                            match frames[h].state.broad_state_spec() {
                                BroadState::Hitstun => Some(
                                    (HighLevelAction::Hitstun, hitstun_end(frames, h)),
                                ),
                                BroadState::AirJump => ledge_jump_outcome(frames, h + 1),
                                _ => Some((HighLevelAction::LedgeDrop, h)),
                            }
                        }
                    }
                },
                _ => None,
            }
        }
    }
}

/// How the air jump taken off a ledge hang resolves, from the frame after
/// the jump frame: a quiet air-jump window is a ledge hop over the whole
/// run; an airdodge's waveland remaps to a ledgedash; an attack becomes a
/// ledge aerial or a grounded attack; a plain landing is a ledgedash;
/// hitstun is hitstun; anything else stays a ledge hop.
pub open spec fn ledge_jump_outcome(frames: Seq<Frame>, c: int) -> Option<(HighLevelAction, int)> {
    if window_elapses(frames, c, BroadState::AirJump, AIRJUMP_COURTESY_TIMEOUT as int) {
        Some((HighLevelAction::LedgeHop, run_end(frames, c, BroadState::AirJump)))
    } else {
        let m = run_end(frames, c, BroadState::AirJump);
        if m >= frames.len() {
            None
        } else {
            match frames[m].state.broad_state_spec() {
                BroadState::Airdodge => match airdodge_outcome(frames, m) {
                    Some((kind, end)) => Some((ledgedash_remap(kind), end)),
                    None => None,
                },
                BroadState::Attack => match frames[m].state.attack_type_spec() {
                    Some(AttackType::AirAttack(at)) => Some(
                        (HighLevelAction::LedgeAerial(at), run_end(frames, m, BroadState::Attack)),
                    ),
                    Some(AttackType::GroundAttack(g)) => Some(
                        (
                            HighLevelAction::GroundAttack(g),
                            run_end(frames, m, BroadState::Attack),
                        ),
                    ),
                    None => None,
                },
                BroadState::SpecialLanding => Some(
                    (HighLevelAction::LedgeDash, run_end(frames, m, BroadState::SpecialLanding)),
                ),
                BroadState::Hitstun => Some((HighLevelAction::Hitstun, hitstun_end(frames, m))),
                _ => Some((HighLevelAction::LedgeHop, m)),
            }
        }
    }
}

/// The index of the first frame at or after `from` on which an action may
/// begin, or the end of the array if none may.
pub open spec fn first_actionable(frames: Seq<Frame>, from: int) -> int
    decreases frames.len() - from,
{
    if 0 <= from < frames.len() && frames[from].state.actionable_state_spec() is None {
        first_actionable(frames, from + 1)
    } else {
        from
    }
}

/// Every frame before the first actionable one is committed mid-animation,
/// and the first actionable one, if it lies inside the array, is actionable.
pub proof fn lemma_first_actionable_props(frames: Seq<Frame>, from: int)
    requires
        0 <= from <= frames.len(),
    ensures
        from <= first_actionable(frames, from) <= frames.len(),
        forall|k: int| from <= k < first_actionable(frames, from)
            ==> (#[trigger] frames[k].state).actionable_state_spec() is None,
        first_actionable(frames, from) < frames.len()
            ==> frames[first_actionable(frames, from)].state.actionable_state_spec() is Some,
    decreases frames.len() - from,
{
    if from < frames.len() && frames[from].state.actionable_state_spec() is None {
        lemma_first_actionable_props(frames, from + 1);
    }
}

/// The category of the actionable frame at `p` commits there and then: its
/// grace window fully elapses, so its default interpretation wins without
/// any branching. The walk, dash and air-jump handlers read one frame
/// before their window opens.
pub open spec fn first_commits(frames: Seq<Frame>, p: int) -> bool {
    match frames[p].state.broad_state_spec() {
        BroadState::Air => window_elapses(frames, p, BroadState::Air, AIR_COURTESY_TIMEOUT as int),
        BroadState::Ground => window_elapses(
            frames,
            p,
            BroadState::Ground,
            GROUND_COURTESY_TIMEOUT as int,
        ),
        BroadState::Shield => window_elapses(
            frames,
            p,
            BroadState::Shield,
            SHIELD_COURTESY_TIMEOUT as int,
        ),
        BroadState::Crouch => window_elapses(
            frames,
            p,
            BroadState::Crouch,
            CROUCH_COURTESY_TIMEOUT as int,
        ),
        BroadState::Walk => window_elapses(
            frames,
            p + 1,
            BroadState::Walk,
            WALK_COURTESY_TIMEOUT as int,
        ),
        BroadState::DashRun => window_elapses(
            frames,
            p + 1,
            BroadState::DashRun,
            DASH_COURTESY_TIMEOUT as int,
        ),
        BroadState::Ledge => window_elapses(
            frames,
            p,
            BroadState::Ledge,
            LEDGE_COURTESY_TIMEOUT as int,
        ),
        BroadState::AirJump => window_elapses(
            frames,
            p + 1,
            BroadState::AirJump,
            AIRJUMP_COURTESY_TIMEOUT as int,
        ),
        _ => false,
    }
}

/// The action a committed category at `p` yields.
pub open spec fn committed_kind(frames: Seq<Frame>, p: int) -> HighLevelAction {
    match frames[p].state.broad_state_spec() {
        BroadState::Air => HighLevelAction::AirWait,
        BroadState::Ground => HighLevelAction::GroundWait,
        BroadState::Shield => HighLevelAction::Shield,
        BroadState::Crouch => HighLevelAction::Crouch,
        BroadState::Walk => match frames[p].direction {
            Direction::Left => HighLevelAction::WalkLeft,
            Direction::Right => HighLevelAction::WalkRight,
        },
        BroadState::DashRun => match frames[p].direction {
            Direction::Left => HighLevelAction::DashLeft,
            Direction::Right => HighLevelAction::DashRight,
        },
        BroadState::Ledge => HighLevelAction::LedgeWait,
        BroadState::AirJump => HighLevelAction::AirJump,
        _ => HighLevelAction::AirWait,
    }
}

/// The index the action of a committed category at `p` ends at.
pub open spec fn committed_end(frames: Seq<Frame>, p: int) -> int {
    match frames[p].state.broad_state_spec() {
        BroadState::Air => run_end(frames, p, BroadState::Air),
        BroadState::Ground => run_end(frames, p, BroadState::Ground),
        BroadState::Shield => run_end(frames, p, BroadState::Shield),
        BroadState::Crouch => run_end(frames, p, BroadState::Crouch),
        BroadState::Walk => run_end(frames, p + 1, BroadState::Walk),
        BroadState::DashRun => run_end(frames, p + 1, BroadState::DashRun),
        BroadState::Ledge => p + LEDGE_COURTESY_TIMEOUT,
        BroadState::AirJump => run_end(frames, p + 1, BroadState::AirJump),
        _ => p,
    }
}

/// What [`parse`] guarantees of every action it emits, relative to the
/// frame array it segmented: a non-empty span inside the array that begins
/// on an actionable frame, whose recorded category, position and velocity
/// are those of that first frame.
pub open spec fn action_valid(frames: Seq<Frame>, a: Action) -> bool {
    &&& a.frame_start < a.frame_end <= frames.len()
    &&& a.start_state == frames[a.frame_start as int].state.broad_state_spec()
    &&& frames[a.frame_start as int].state.actionable_state_spec() is Some
    &&& a.initial_position == frames[a.frame_start as int].position
    &&& a.initial_velocity == frames[a.frame_start as int].velocity
}

/// The vertical launch speed above which a jump is a full hop, by
/// character, in thousandths of a unit per frame.
///
/// This table is placeholder data: real thresholds must come from
/// empirical measurement, so every present entry is zero, and the final
/// roster entry is absent altogether — a jump by that character is
/// abandoned rather than classified by a guess.
pub open spec fn jump_threshold_spec(c: Character) -> Option<i32> {
    if c == Character::Roy {
        None
    } else {
        Some(0)
    }
}

/// Looks up the per-character full-hop velocity threshold; see
/// [`jump_threshold_spec`] for the table's provenance.
fn jump_velocity_threshold(c: Character) -> (r: Option<i32>)
    ensures
        r == jump_threshold_spec(c),
{
    match c {
        Character::Roy => None,
        _ => Some(0),
    }
}

/// How an airdodge that lands classifies, by the sign of the landing
/// frame's horizontal velocity; speeds inside the dead zone classify as
/// straight down.
pub open spec fn waveland_hla_spec(x_velocity: i32) -> HighLevelAction {
    if x_velocity < -WAVELAND_EPSILON {
        HighLevelAction::WavelandLeft
    } else if x_velocity > WAVELAND_EPSILON {
        HighLevelAction::WavelandRight
    } else {
        HighLevelAction::WavelandDown
    }
}

/// The semantic action an attack state classifies as: the specific aerial
/// or grounded move it executes.
pub open spec fn attack_hla_spec(s: MeleeState) -> Option<HighLevelAction> {
    match s.attack_type_spec() {
        Some(AttackType::AirAttack(at)) => Some(HighLevelAction::Aerial(at)),
        Some(AttackType::GroundAttack(g)) => Some(HighLevelAction::GroundAttack(g)),
        None => None,
    }
}

/// The semantic action a ledge-recovery state classifies as.
pub open spec fn ledge_hla_spec(s: MeleeState) -> Option<HighLevelAction> {
    match s.ledge_action_spec() {
        Some(LedgeAction::GetUp) => Some(HighLevelAction::LedgeGetUp),
        Some(LedgeAction::Attack) => Some(HighLevelAction::LedgeAttack),
        Some(LedgeAction::Jump) => Some(HighLevelAction::LedgeJump),
        Some(LedgeAction::Roll) => Some(HighLevelAction::LedgeRoll),
        None => None,
    }
}

/// The snapshot taken when an action begins: the index of its first frame
/// and that frame's category, position and velocity.
#[derive(Clone, Copy, Debug, PartialEq, Eq, Structural)]
pub struct ActionInitData {
    pub action_start: usize,
    pub start_state: BroadState,
    pub position: Vector,
    pub velocity: Vector,
}

/// A forward-only, zero-copy cursor over one competitor's frame array,
/// with peek / advance / bounded-lookahead / skip-run primitives and the
/// snapshot protocol that actions are built through.
pub struct ActionBuilder<'a> {
    pub frames: &'a Vec<Frame>,
    pub cur_frame: usize,
    pub action_init_data: Option<ActionInitData>,
}

impl<'a> ActionBuilder<'a> {
    /// The cursor never stands past the end of its frame array.
    pub open spec fn wf(self) -> bool {
        self.cur_frame <= self.frames@.len()
    }

    /// Whether every frame has been consumed.
    pub open spec fn at_end(self) -> bool {
        self.cur_frame == self.frames@.len()
    }

    /// The raw state of the frame at index `k`.
    pub open spec fn state_at(self, k: int) -> MeleeState {
        self.frames@[k].state
    }

    /// The coarse category of the frame at index `k`.
    pub open spec fn broad_at(self, k: int) -> BroadState {
        self.frames@[k].state.broad_state_spec()
    }

    /// The cursor stands on an unconsumed frame of category `b`.
    pub open spec fn cur_is(self, b: BroadState) -> bool {
        !self.at_end() && self.broad_at(self.cur_frame as int) == b
    }

    /// `self` is `pre` with the cursor moved zero or more frames forward
    /// over the same frame array.
    pub open spec fn advanced_from(self, pre: Self) -> bool {
        &&& self.frames == pre.frames
        &&& pre.cur_frame <= self.cur_frame <= self.frames@.len()
    }

    /// A pending snapshot exists, lies at or before the cursor, and records
    /// exactly what stands on its frame: an actionable state, its category,
    /// position and velocity.
    pub open spec fn pending_wf(self) -> bool {
        match self.action_init_data {
            Some(init) => {
                &&& init.action_start < self.frames@.len()
                &&& init.action_start <= self.cur_frame
                &&& init.start_state == self.broad_at(init.action_start as int)
                &&& self.state_at(init.action_start as int).actionable_state_spec() is Some
                &&& init.position == self.frames@[init.action_start as int].position
                &&& init.velocity == self.frames@[init.action_start as int].velocity
            },
            None => false,
        }
    }

    /// `a` is the action completed between cursor states `pre` and `post`:
    /// it spans from the pending snapshot's frame to the frame `post`
    /// stands on, and carries the snapshot's category, position and
    /// velocity.
    pub open spec fn emits(pre: Self, post: Self, a: Action) -> bool {
        match pre.action_init_data {
            Some(init) => {
                &&& a.frame_start == init.action_start
                &&& a.frame_end == post.cur_frame
                &&& a.start_state == init.start_state
                &&& a.initial_position == init.position
                &&& a.initial_velocity == init.velocity
            },
            None => false,
        }
    }

    /// A fresh cursor at the start of `frames`, with no pending snapshot.
    pub fn new(frames: &'a Vec<Frame>) -> (r: ActionBuilder<'a>)
        ensures
            r.frames == frames,
            r.cur_frame == 0,
            r.action_init_data is None,
            r.wf(),
    {
        ActionBuilder { frames, cur_frame: 0, action_init_data: None }
    }

    /// Whether every frame has been consumed.
    pub fn finished(&self) -> (r: bool)
        requires
            self.wf(),
        ensures
            r == self.at_end(),
    {
        self.cur_frame == self.frames.len()
    }

    /// The raw state of the next unconsumed frame, without consuming it.
    pub fn peek(&self) -> (r: Option<MeleeState>)
        requires
            self.wf(),
        ensures
            match r {
                Some(s) => !self.at_end() && s == self.state_at(self.cur_frame as int),
                None => self.at_end(),
            },
    {
        if self.cur_frame < self.frames.len() {
            Some(self.frames[self.cur_frame].state)
        } else {
            None
        }
    }

    /// The next unconsumed frame, without consuming it.
    pub fn peek_frame(&self) -> (r: Option<Frame>)
        requires
            self.wf(),
        ensures
            match r {
                Some(f) => !self.at_end() && f == self.frames@[self.cur_frame as int],
                None => self.at_end(),
            },
    {
        if self.cur_frame < self.frames.len() {
            Some(self.frames[self.cur_frame])
        } else {
            None
        }
    }

    /// Consumes one frame and returns it, or nothing at the end.
    pub fn next_frame(&mut self) -> (r: Option<Frame>)
        requires
            old(self).wf(),
        ensures
            final(self).wf(),
            final(self).advanced_from(*old(self)),
            final(self).action_init_data == old(self).action_init_data,
            match r {
                Some(f) => !old(self).at_end()
                    && f == old(self).frames@[old(self).cur_frame as int]
                    && final(self).cur_frame == old(self).cur_frame + 1,
                None => old(self).at_end() && final(self).cur_frame == old(self).cur_frame,
            },
    {
        if self.cur_frame < self.frames.len() {
            let f = self.frames[self.cur_frame];
            self.cur_frame = self.cur_frame + 1;
            Some(f)
        } else {
            None
        }
    }

    /// Consumes one frame and returns its raw state, or nothing at the end.
    pub fn next(&mut self) -> (r: Option<MeleeState>)
        requires
            old(self).wf(),
        ensures
            final(self).wf(),
            final(self).advanced_from(*old(self)),
            final(self).action_init_data == old(self).action_init_data,
            match r {
                Some(s) => !old(self).at_end()
                    && s == old(self).state_at(old(self).cur_frame as int)
                    && final(self).cur_frame == old(self).cur_frame + 1,
                None => old(self).at_end() && final(self).cur_frame == old(self).cur_frame,
            },
    {
        match self.next_frame() {
            Some(f) => Some(f.state),
            None => None,
        }
    }

    /// A bounded, non-consuming lookahead: the raw states of the next up to
    /// `n` frames, fewer at the end of the array.
    pub fn peek_n(&self, n: usize) -> (r: Vec<MeleeState>)
        requires
            self.wf(),
        ensures
            r@.len() == if self.cur_frame + n <= self.frames@.len() {
                n as int
            } else {
                self.frames@.len() - self.cur_frame
            },
            forall|k: int| 0 <= k < r@.len() ==> r@[k] == self.state_at(self.cur_frame + k),
    {
        let total = self.frames.len();
        let remaining = total - self.cur_frame;
        let count = if n < remaining {
            n
        } else {
            remaining
        };
        let mut out: Vec<MeleeState> = Vec::new();
        let mut k: usize = 0;
        while k < count
            invariant
                self.wf(),
                total == self.frames@.len(),
                count <= total - self.cur_frame,
                k <= count,
                out@.len() == k,
                forall|t: int| 0 <= t < k ==> out@[t] == self.state_at(self.cur_frame + t),
            decreases count - k,
        {
            out.push(self.frames[self.cur_frame + k].state);
            k = k + 1;
        }
        out
    }

    /// Consumes frames while the next unconsumed frame's category is
    /// `broad_state`, leaving the cursor on the first frame of another
    /// category or at the end.
    pub fn skip_broad_state(&mut self, broad_state: BroadState)
        requires
            old(self).wf(),
        ensures
            final(self).wf(),
            final(self).advanced_from(*old(self)),
            final(self).action_init_data == old(self).action_init_data,
            final(self).cur_frame == run_end(
                old(self).frames@,
                old(self).cur_frame as int,
                broad_state,
            ),
            forall|k: int| old(self).cur_frame <= k < final(self).cur_frame
                ==> (#[trigger] old(self).frames@[k].state).broad_state_spec() == broad_state,
            final(self).at_end()
                || final(self).broad_at(final(self).cur_frame as int) != broad_state,
    {
        loop
            invariant
                self.wf(),
                self.advanced_from(*old(self)),
                self.action_init_data == old(self).action_init_data,
                run_end(self.frames@, self.cur_frame as int, broad_state) == run_end(
                    old(self).frames@,
                    old(self).cur_frame as int,
                    broad_state,
                ),
                forall|k: int| old(self).cur_frame <= k < self.cur_frame
                    ==> (#[trigger] self.frames@[k].state).broad_state_spec() == broad_state,
            ensures
                self.advanced_from(*old(self)),
                self.action_init_data == old(self).action_init_data,
                self.at_end() || self.broad_at(self.cur_frame as int) != broad_state,
                self.cur_frame == run_end(old(self).frames@, old(self).cur_frame as int, broad_state),
                forall|k: int| old(self).cur_frame <= k < self.cur_frame
                    ==> (#[trigger] self.frames@[k].state).broad_state_spec() == broad_state,
            decreases self.frames@.len() - self.cur_frame,
        {
            if self.cur_frame == self.frames.len() {
                break;
            }
            let s = self.frames[self.cur_frame].state;
            if s.broad_state() != broad_state {
                break;
            }
            self.cur_frame = self.cur_frame + 1;
        }
    }

    /// As [`Self::skip_broad_state`], but consumes at most `max` frames and
    /// returns the count actually consumed: a full count distinguishes "the
    /// grace period elapsed" from "the category genuinely changed early".
    pub fn skip_while_at_most(&mut self, broad_state: BroadState, max: usize) -> (n: usize)
        requires
            old(self).wf(),
        ensures
            final(self).wf(),
            final(self).advanced_from(*old(self)),
            final(self).action_init_data == old(self).action_init_data,
            final(self).cur_frame == old(self).cur_frame + n,
            n <= max,
            forall|k: int| old(self).cur_frame <= k < final(self).cur_frame
                ==> (#[trigger] old(self).frames@[k].state).broad_state_spec() == broad_state,
            n < max ==> final(self).at_end()
                || final(self).broad_at(final(self).cur_frame as int) != broad_state,
    {
        let mut n: usize = 0;
        while n < max
            invariant
                self.wf(),
                self.advanced_from(*old(self)),
                self.action_init_data == old(self).action_init_data,
                self.cur_frame == old(self).cur_frame + n,
                n <= max,
                forall|k: int| old(self).cur_frame <= k < self.cur_frame
                    ==> (#[trigger] self.frames@[k].state).broad_state_spec() == broad_state,
            ensures
                self.advanced_from(*old(self)),
                self.action_init_data == old(self).action_init_data,
                self.cur_frame == old(self).cur_frame + n,
                n <= max,
                forall|k: int| old(self).cur_frame <= k < self.cur_frame
                    ==> (#[trigger] self.frames@[k].state).broad_state_spec() == broad_state,
                n < max ==> self.at_end() || self.broad_at(self.cur_frame as int) != broad_state,
            decreases max - n,
        {
            if self.cur_frame == self.frames.len() {
                break;
            }
            let s = self.frames[self.cur_frame].state;
            if s.broad_state() != broad_state {
                break;
            }
            self.cur_frame = self.cur_frame + 1;
            n = n + 1;
        }
        n
    }

    /// Snapshots the cursor's current, not-yet-consumed frame as the origin
    /// of the action being built. The current frame must be actionable:
    /// callers check before starting an action.
    pub fn start_action(&mut self)
        requires
            old(self).wf(),
            !old(self).at_end(),
            old(self).state_at(old(self).cur_frame as int).actionable_state_spec() is Some,
        ensures
            final(self).wf(),
            final(self).frames == old(self).frames,
            final(self).cur_frame == old(self).cur_frame,
            final(self).pending_wf(),
            final(self).action_init_data matches Some(init)
                && init.action_start == old(self).cur_frame,
    {
        let f = self.frames[self.cur_frame];
        self.action_init_data = Some(
            ActionInitData {
                action_start: self.cur_frame,
                start_state: f.state.broad_state(),
                position: f.position,
                velocity: f.velocity,
            },
        );
    }

    /// Builds the completed action and consumes the pending snapshot: the
    /// action spans from the snapshot's frame to the cursor's current
    /// position and carries the snapshot's category, position and velocity.
    /// A snapshot must be pending; the contract makes both calling this
    /// without one and finishing one action twice impossible.
    pub fn finish_action(&mut self, high_level_action: HighLevelAction) -> (r: Action)
        requires
            old(self).action_init_data is Some,
        ensures
            final(self).frames == old(self).frames,
            final(self).cur_frame == old(self).cur_frame,
            final(self).action_init_data is None,
            old(self).action_init_data matches Some(init) ==> r == (Action {
                start_state: init.start_state,
                action_taken: high_level_action,
                frame_start: init.action_start,
                frame_end: old(self).cur_frame,
                initial_position: init.position,
                initial_velocity: init.velocity,
            }),
    {
        let init = self.action_init_data.unwrap();
        self.action_init_data = None;
        Action {
            start_state: init.start_state,
            action_taken: high_level_action,
            frame_start: init.action_start,
            frame_end: self.cur_frame,
            initial_position: init.position,
            initial_velocity: init.velocity,
        }
    }
}

impl Action {
    /// Consumes up to `c.timeout` consecutive frames of category `c.state`
    /// and reports how the grace window resolved: nothing consumed, the
    /// category changed inside the window, or the window fully elapsed.
    pub fn skip_courtesy(consumer: &mut ActionBuilder<'_>, c: Courtesy) -> (r: CourtesyReturn)
        requires
            old(consumer).wf(),
        ensures
            final(consumer).wf(),
            final(consumer).advanced_from(*old(consumer)),
            final(consumer).action_init_data == old(consumer).action_init_data,
            forall|k: int| old(consumer).cur_frame <= k < final(consumer).cur_frame
                ==> (#[trigger] old(consumer).frames@[k].state).broad_state_spec() == c.state,
            match r {
                CourtesyReturn::NoSkip => {
                    &&& final(consumer).cur_frame == old(consumer).cur_frame
                    &&& c.timeout > 0
                    &&& old(consumer).at_end()
                        || old(consumer).broad_at(old(consumer).cur_frame as int) != c.state
                },
                CourtesyReturn::SkipSome(k) => {
                    &&& 1 <= k < c.timeout
                    &&& final(consumer).cur_frame == old(consumer).cur_frame + k
                    &&& final(consumer).at_end()
                        || final(consumer).broad_at(final(consumer).cur_frame as int) != c.state
                },
                CourtesyReturn::SkipMax(k) => {
                    &&& k == c.timeout
                    &&& final(consumer).cur_frame == old(consumer).cur_frame + k
                },
            },
    {
        let skipped = consumer.skip_while_at_most(c.state, c.timeout);
        if skipped == c.timeout {
            CourtesyReturn::SkipMax(skipped)
        } else if skipped == 0 {
            CourtesyReturn::NoSkip
        } else {
            CourtesyReturn::SkipSome(skipped)
        }
    }

    /// Dispatches on the coarse category of the cursor's current frame and
    /// parses one action. Categories with a courtesy window loop back into
    /// dispatch when the category changes inside the window, so chains of
    /// brief state blips re-dispatch without recursion. Nothing is emitted
    /// for an unparseable or truncated tail.
    pub fn parse_next(consumer: &mut ActionBuilder<'_>) -> (r: Option<Action>)
        requires
            old(consumer).wf(),
            old(consumer).pending_wf(),
        ensures
            final(consumer).wf(),
            final(consumer).advanced_from(*old(consumer)),
            r is Some ==> final(consumer).action_init_data is None,
            r is None ==> final(consumer).action_init_data == old(consumer).action_init_data,
            !old(consumer).at_end() ==> final(consumer).cur_frame > old(consumer).cur_frame,
            r matches Some(a) ==> ActionBuilder::emits(*old(consumer), *final(consumer), a)
                && final(consumer).cur_frame > old(consumer).cur_frame,
            old(consumer).at_end() ==> r is None,
            old(consumer).cur_is(BroadState::SpecialLanding) ==> r is None,
            old(consumer).cur_is(BroadState::GenericInactionable) ==> r is None,
            ({
                let frames = old(consumer).frames@;
                let cur0 = old(consumer).cur_frame as int;
                &&& old(consumer).cur_is(BroadState::Attack) ==> ({
                    &&& r matches Some(a)
                    &&& Some(a.action_taken) == attack_hla_spec(frames[cur0].state)
                    &&& a.frame_end == run_end(frames, cur0, BroadState::Attack)
                })
                &&& old(consumer).cur_is(BroadState::LedgeAction) ==> ({
                    &&& r matches Some(a)
                    &&& Some(a.action_taken) == ledge_hla_spec(frames[cur0].state)
                    &&& a.frame_end == run_end(frames, cur0, BroadState::LedgeAction)
                })
                &&& old(consumer).cur_is(BroadState::Hitstun) ==> ({
                    &&& r matches Some(a)
                    &&& a.action_taken == HighLevelAction::Hitstun
                    &&& a.frame_end == hitstun_end(frames, cur0)
                })
                &&& old(consumer).cur_is(BroadState::Grab) ==> ({
                    &&& r matches Some(a)
                    &&& a.action_taken == HighLevelAction::Grab
                    &&& a.frame_end == run_end(frames, cur0, BroadState::Grab)
                })
                &&& old(consumer).cur_is(BroadState::Spotdodge) ==> ({
                    &&& r matches Some(a)
                    &&& a.action_taken == HighLevelAction::Spotdodge
                    &&& a.frame_end == run_end(frames, cur0, BroadState::Spotdodge)
                })
                &&& old(consumer).cur_is(BroadState::Roll) ==> ({
                    &&& r matches Some(a)
                    &&& a.action_taken == (if frames[cur0].state == MeleeState::EscapeF {
                        HighLevelAction::RollForward
                    } else {
                        HighLevelAction::RollBackward
                    })
                    &&& a.frame_end == run_end(frames, cur0, BroadState::Roll)
                })
                &&& old(consumer).cur_is(BroadState::Ledge) ==> (match ledge_outcome(
                    frames,
                    cur0,
                ) {
                    Some((kind, end)) => r matches Some(a) && a.action_taken == kind
                        && a.frame_end == end,
                    None => r is None,
                })
                &&& old(consumer).cur_is(BroadState::JumpSquat) ==> (match jump_squat_outcome(
                    frames,
                    cur0,
                ) {
                    Some((kind, end)) => r matches Some(a) && a.action_taken == kind
                        && a.frame_end == end,
                    None => r is None,
                })
                &&& old(consumer).cur_is(BroadState::AirJump) ==> (match air_jump_outcome(
                    frames,
                    cur0,
                ) {
                    Some((kind, end)) => r matches Some(a) && a.action_taken == kind
                        && a.frame_end == end,
                    None => r is None,
                })
                &&& old(consumer).cur_is(BroadState::Airdodge) ==> (match airdodge_outcome(
                    frames,
                    cur0,
                ) {
                    Some((kind, end)) => r matches Some(a) && a.action_taken == kind
                        && a.frame_end == end,
                    None => r is None,
                })
            }),
            ({
                let frames = old(consumer).frames@;
                let cur0 = old(consumer).cur_frame as int;
                &&& (old(consumer).cur_is(BroadState::Air) && window_elapses(
                    frames,
                    cur0,
                    BroadState::Air,
                    AIR_COURTESY_TIMEOUT as int,
                )) ==> ({
                    &&& r matches Some(a)
                    &&& a.action_taken == HighLevelAction::AirWait
                    &&& a.frame_end == run_end(frames, cur0, BroadState::Air)
                })
                &&& (old(consumer).cur_is(BroadState::Ground) && window_elapses(
                    frames,
                    cur0,
                    BroadState::Ground,
                    GROUND_COURTESY_TIMEOUT as int,
                )) ==> ({
                    &&& r matches Some(a)
                    &&& a.action_taken == HighLevelAction::GroundWait
                    &&& a.frame_end == run_end(frames, cur0, BroadState::Ground)
                })
                &&& (old(consumer).cur_is(BroadState::Shield) && window_elapses(
                    frames,
                    cur0,
                    BroadState::Shield,
                    SHIELD_COURTESY_TIMEOUT as int,
                )) ==> ({
                    &&& r matches Some(a)
                    &&& a.action_taken == HighLevelAction::Shield
                    &&& a.frame_end == run_end(frames, cur0, BroadState::Shield)
                })
                &&& (old(consumer).cur_is(BroadState::Crouch) && window_elapses(
                    frames,
                    cur0,
                    BroadState::Crouch,
                    CROUCH_COURTESY_TIMEOUT as int,
                )) ==> ({
                    &&& r matches Some(a)
                    &&& a.action_taken == HighLevelAction::Crouch
                    &&& a.frame_end == run_end(frames, cur0, BroadState::Crouch)
                })
                &&& (old(consumer).cur_is(BroadState::Walk) && window_elapses(
                    frames,
                    cur0 + 1,
                    BroadState::Walk,
                    WALK_COURTESY_TIMEOUT as int,
                )) ==> ({
                    &&& r matches Some(a)
                    &&& a.action_taken == (match frames[cur0].direction {
                        Direction::Left => HighLevelAction::WalkLeft,
                        Direction::Right => HighLevelAction::WalkRight,
                    })
                    &&& a.frame_end == run_end(frames, cur0 + 1, BroadState::Walk)
                })
                &&& (old(consumer).cur_is(BroadState::DashRun) && window_elapses(
                    frames,
                    cur0 + 1,
                    BroadState::DashRun,
                    DASH_COURTESY_TIMEOUT as int,
                )) ==> ({
                    &&& r matches Some(a)
                    &&& a.action_taken == (match frames[cur0].direction {
                        Direction::Left => HighLevelAction::DashLeft,
                        Direction::Right => HighLevelAction::DashRight,
                    })
                    &&& a.frame_end == run_end(frames, cur0 + 1, BroadState::DashRun)
                })
            }),
    {
        loop
            invariant
                consumer.wf(),
                consumer.pending_wf(),
                consumer.advanced_from(*old(consumer)),
                consumer.action_init_data == old(consumer).action_init_data,
                consumer.cur_frame == old(consumer).cur_frame ==> *consumer == *old(consumer),
                // only a courtesy window that resolved early re-enters
                // dispatch; every other category returns from its first
                // dispatch
                consumer.cur_frame > old(consumer).cur_frame ==> ({
                    let frames = old(consumer).frames@;
                    let cur0 = old(consumer).cur_frame as int;
                    ||| old(consumer).cur_is(BroadState::Air) && !window_elapses(
                        frames,
                        cur0,
                        BroadState::Air,
                        AIR_COURTESY_TIMEOUT as int,
                    )
                    ||| old(consumer).cur_is(BroadState::Ground) && !window_elapses(
                        frames,
                        cur0,
                        BroadState::Ground,
                        GROUND_COURTESY_TIMEOUT as int,
                    )
                    ||| old(consumer).cur_is(BroadState::Shield) && !window_elapses(
                        frames,
                        cur0,
                        BroadState::Shield,
                        SHIELD_COURTESY_TIMEOUT as int,
                    )
                    ||| old(consumer).cur_is(BroadState::Crouch) && !window_elapses(
                        frames,
                        cur0,
                        BroadState::Crouch,
                        CROUCH_COURTESY_TIMEOUT as int,
                    )
                    ||| old(consumer).cur_is(BroadState::Walk) && !window_elapses(
                        frames,
                        cur0 + 1,
                        BroadState::Walk,
                        WALK_COURTESY_TIMEOUT as int,
                    )
                    ||| old(consumer).cur_is(BroadState::DashRun) && !window_elapses(
                        frames,
                        cur0 + 1,
                        BroadState::DashRun,
                        DASH_COURTESY_TIMEOUT as int,
                    )
                }),
            decreases consumer.frames@.len() - consumer.cur_frame,
        {
            let s1 = match consumer.peek() {
                Some(s) => s,
                None => {
                    return None;
                },
            };
            match s1.broad_state() {
                BroadState::Attack => {
                    return Action::parse_attack(consumer);
                },
                BroadState::Air => {
                    let ghost cur1 = consumer.cur_frame as int;
                    let c = Courtesy { timeout: AIR_COURTESY_TIMEOUT, state: BroadState::Air };
                    match Action::skip_courtesy(consumer, c) {
                        CourtesyReturn::SkipMax(_) => {
                            proof {
                                lemma_run_end_absorb(
                                    consumer.frames@,
                                    cur1,
                                    consumer.cur_frame as int,
                                    BroadState::Air,
                                );
                            }
                            consumer.skip_broad_state(BroadState::Air);
                            return Some(consumer.finish_action(HighLevelAction::AirWait));
                        },
                        _ => {
                            proof {
                                lemma_run_end_props(consumer.frames@, cur1, BroadState::Air);
                            }
                        },
                    }
                },
                BroadState::Airdodge => {
                    return Action::parse_airdodge(consumer);
                },
                BroadState::SpecialLanding => {
                    consumer.skip_broad_state(BroadState::SpecialLanding);
                    return None;
                },
                BroadState::Ground => {
                    let ghost cur1 = consumer.cur_frame as int;
                    let c = Courtesy { timeout: GROUND_COURTESY_TIMEOUT, state: BroadState::Ground };
                    match Action::skip_courtesy(consumer, c) {
                        CourtesyReturn::SkipMax(_) => {
                            proof {
                                lemma_run_end_absorb(
                                    consumer.frames@,
                                    cur1,
                                    consumer.cur_frame as int,
                                    BroadState::Ground,
                                );
                            }
                            consumer.skip_broad_state(BroadState::Ground);
                            return Some(consumer.finish_action(HighLevelAction::GroundWait));
                        },
                        _ => {
                            proof {
                                lemma_run_end_props(consumer.frames@, cur1, BroadState::Ground);
                            }
                        },
                    }
                },
                BroadState::Walk => {
                    let ghost cur1 = consumer.cur_frame as int;
                    let walk_frame = consumer.next_frame().unwrap();
                    let c = Courtesy { timeout: WALK_COURTESY_TIMEOUT, state: BroadState::Walk };
                    match Action::skip_courtesy(consumer, c) {
                        CourtesyReturn::SkipMax(_) => {
                            proof {
                                lemma_run_end_absorb(
                                    consumer.frames@,
                                    cur1 + 1,
                                    consumer.cur_frame as int,
                                    BroadState::Walk,
                                );
                            }
                            consumer.skip_broad_state(BroadState::Walk);
                            let hla = match walk_frame.direction {
                                Direction::Left => HighLevelAction::WalkLeft,
                                Direction::Right => HighLevelAction::WalkRight,
                            };
                            return Some(consumer.finish_action(hla));
                        },
                        _ => {
                            proof {
                                lemma_run_end_props(consumer.frames@, cur1 + 1, BroadState::Walk);
                            }
                        },
                    }
                },
                BroadState::DashRun => {
                    let ghost cur1 = consumer.cur_frame as int;
                    let dash_frame = consumer.next_frame().unwrap();
                    let c = Courtesy { timeout: DASH_COURTESY_TIMEOUT, state: BroadState::DashRun };
                    match Action::skip_courtesy(consumer, c) {
                        CourtesyReturn::SkipMax(_) => {
                            proof {
                                lemma_run_end_absorb(
                                    consumer.frames@,
                                    cur1 + 1,
                                    consumer.cur_frame as int,
                                    BroadState::DashRun,
                                );
                            }
                            consumer.skip_broad_state(BroadState::DashRun);
                            let hla = match dash_frame.direction {
                                Direction::Left => HighLevelAction::DashLeft,
                                Direction::Right => HighLevelAction::DashRight,
                            };
                            return Some(consumer.finish_action(hla));
                        },
                        _ => {
                            proof {
                                lemma_run_end_props(consumer.frames@, cur1 + 1, BroadState::DashRun);
                            }
                        },
                    }
                },
                BroadState::Shield => {
                    let ghost cur1 = consumer.cur_frame as int;
                    let c = Courtesy { timeout: SHIELD_COURTESY_TIMEOUT, state: BroadState::Shield };
                    match Action::skip_courtesy(consumer, c) {
                        CourtesyReturn::SkipMax(_) => {
                            proof {
                                lemma_run_end_absorb(
                                    consumer.frames@,
                                    cur1,
                                    consumer.cur_frame as int,
                                    BroadState::Shield,
                                );
                            }
                            consumer.skip_broad_state(BroadState::Shield);
                            return Some(consumer.finish_action(HighLevelAction::Shield));
                        },
                        _ => {
                            proof {
                                lemma_run_end_props(consumer.frames@, cur1, BroadState::Shield);
                            }
                        },
                    }
                },
                BroadState::Ledge => {
                    return Action::parse_ledge(consumer);
                },
                BroadState::LedgeAction => {
                    return Action::parse_ledge_action(consumer);
                },
                BroadState::Hitstun => {
                    return Action::parse_hitstun(consumer);
                },
                BroadState::GenericInactionable => {
                    consumer.skip_broad_state(BroadState::GenericInactionable);
                    return None;
                },
                BroadState::JumpSquat => {
                    return Action::parse_jump_squat(consumer);
                },
                BroadState::AirJump => {
                    return Action::parse_air_jump(consumer);
                },
                BroadState::Crouch => {
                    let ghost cur1 = consumer.cur_frame as int;
                    let c = Courtesy { timeout: CROUCH_COURTESY_TIMEOUT, state: BroadState::Crouch };
                    match Action::skip_courtesy(consumer, c) {
                        CourtesyReturn::SkipMax(_) => {
                            proof {
                                lemma_run_end_absorb(
                                    consumer.frames@,
                                    cur1,
                                    consumer.cur_frame as int,
                                    BroadState::Crouch,
                                );
                            }
                            consumer.skip_broad_state(BroadState::Crouch);
                            return Some(consumer.finish_action(HighLevelAction::Crouch));
                        },
                        _ => {
                            proof {
                                lemma_run_end_props(consumer.frames@, cur1, BroadState::Crouch);
                            }
                        },
                    }
                },
                BroadState::Grab => {
                    return Action::parse_simple_action(consumer, BroadState::Grab, HighLevelAction::Grab);
                },
                BroadState::Roll => {
                    return Action::parse_roll(consumer);
                },
                BroadState::Spotdodge => {
                    return Action::parse_simple_action(
                        consumer,
                        BroadState::Spotdodge,
                        HighLevelAction::Spotdodge,
                    );
                },
            }
        }
    }

    /// Parses a committed attack: the specific move is read off the first
    /// frame and the whole attack run is consumed.
    fn parse_attack(consumer: &mut ActionBuilder<'_>) -> (r: Option<Action>)
        requires
            old(consumer).wf(),
            old(consumer).pending_wf(),
            old(consumer).cur_is(BroadState::Attack),
        ensures
            final(consumer).wf(),
            final(consumer).advanced_from(*old(consumer)),
            final(consumer).cur_frame > old(consumer).cur_frame,
            final(consumer).cur_frame == run_end(
                old(consumer).frames@,
                old(consumer).cur_frame as int,
                BroadState::Attack,
            ),
            r is Some,
            r is Some ==> final(consumer).action_init_data is None,
            r matches Some(a) ==> ActionBuilder::emits(*old(consumer), *final(consumer), a)
                && Some(a.action_taken) == attack_hla_spec(
                old(consumer).state_at(old(consumer).cur_frame as int),
            ),
    {
        match Action::parse_attack_to_end(consumer) {
            Some(AttackType::AirAttack(at)) => Some(
                consumer.finish_action(HighLevelAction::Aerial(at)),
            ),
            Some(AttackType::GroundAttack(g)) => Some(
                consumer.finish_action(HighLevelAction::GroundAttack(g)),
            ),
            None => None,
        }
    }

    /// Reads the specific move off the current attack frame and consumes
    /// the whole attack run.
    fn parse_attack_to_end(consumer: &mut ActionBuilder<'_>) -> (r: Option<AttackType>)
        requires
            old(consumer).wf(),
            old(consumer).cur_is(BroadState::Attack),
        ensures
            final(consumer).wf(),
            final(consumer).advanced_from(*old(consumer)),
            final(consumer).action_init_data == old(consumer).action_init_data,
            final(consumer).cur_frame > old(consumer).cur_frame,
            final(consumer).cur_frame == run_end(
                old(consumer).frames@,
                old(consumer).cur_frame as int,
                BroadState::Attack,
            ),
            r == old(consumer).state_at(old(consumer).cur_frame as int).attack_type_spec(),
            r is Some,
    {
        let at = consumer.peek().unwrap();
        proof {
            lemma_attack_states_classify(at);
        }
        let attack_type = at.attack_type();
        consumer.skip_broad_state(BroadState::Attack);
        attack_type
    }

    /// Parses a category with no courtesy window and no branching: the
    /// whole run is consumed and the given action emitted.
    fn parse_simple_action(
        consumer: &mut ActionBuilder<'_>,
        broad_state: BroadState,
        hla: HighLevelAction,
    ) -> (r: Option<Action>)
        requires
            old(consumer).wf(),
            old(consumer).pending_wf(),
        ensures
            final(consumer).wf(),
            final(consumer).advanced_from(*old(consumer)),
            final(consumer).action_init_data is None,
            old(consumer).cur_is(broad_state) ==> final(consumer).cur_frame > old(
                consumer,
            ).cur_frame,
            final(consumer).cur_frame == run_end(
                old(consumer).frames@,
                old(consumer).cur_frame as int,
                broad_state,
            ),
            r is Some,
            r matches Some(a) ==> ActionBuilder::emits(*old(consumer), *final(consumer), a)
                && a.action_taken == hla,
    {
        consumer.skip_broad_state(broad_state);
        Some(consumer.finish_action(hla))
    }

    /// Parses a roll: the direction is read off the first frame and the
    /// rest of the roll run is consumed.
    fn parse_roll(consumer: &mut ActionBuilder<'_>) -> (r: Option<Action>)
        requires
            old(consumer).wf(),
            old(consumer).pending_wf(),
            old(consumer).cur_is(BroadState::Roll),
        ensures
            final(consumer).wf(),
            final(consumer).advanced_from(*old(consumer)),
            final(consumer).cur_frame > old(consumer).cur_frame,
            final(consumer).cur_frame == run_end(
                old(consumer).frames@,
                old(consumer).cur_frame as int,
                BroadState::Roll,
            ),
            r is Some,
            r is Some ==> final(consumer).action_init_data is None,
            r matches Some(a) ==> ActionBuilder::emits(*old(consumer), *final(consumer), a)
                && a.action_taken == (
                if old(consumer).state_at(old(consumer).cur_frame as int) == MeleeState::EscapeF {
                    HighLevelAction::RollForward
                } else {
                    HighLevelAction::RollBackward
                }),
    {
        let roll_state = consumer.next().unwrap();
        proof {
            lemma_roll_states(roll_state);
        }
        let hla = match roll_state {
            MeleeState::EscapeF => HighLevelAction::RollForward,
            MeleeState::EscapeB => HighLevelAction::RollBackward,
            _ => {
                return None;
            },
        };
        Action::parse_simple_action(consumer, BroadState::Roll, hla)
    }

    /// Parses a ledge-recovery animation directly: the sub-action is read
    /// off the current frame and the whole run is consumed.
    fn parse_ledge_action(consumer: &mut ActionBuilder<'_>) -> (r: Option<Action>)
        requires
            old(consumer).wf(),
            old(consumer).pending_wf(),
            old(consumer).cur_is(BroadState::LedgeAction),
        ensures
            final(consumer).wf(),
            final(consumer).advanced_from(*old(consumer)),
            final(consumer).cur_frame > old(consumer).cur_frame,
            final(consumer).cur_frame == run_end(
                old(consumer).frames@,
                old(consumer).cur_frame as int,
                BroadState::LedgeAction,
            ),
            r is Some,
            r is Some ==> final(consumer).action_init_data is None,
            r matches Some(a) ==> ActionBuilder::emits(*old(consumer), *final(consumer), a)
                && Some(a.action_taken) == ledge_hla_spec(
                old(consumer).state_at(old(consumer).cur_frame as int),
            ),
    {
        let ledge_action_state = consumer.peek().unwrap();
        proof {
            lemma_ledge_states_classify(ledge_action_state);
        }
        let ledge_action = ledge_action_state.ledge_action().unwrap();
        let hla = match ledge_action {
            LedgeAction::GetUp => HighLevelAction::LedgeGetUp,
            LedgeAction::Attack => HighLevelAction::LedgeAttack,
            LedgeAction::Jump => HighLevelAction::LedgeJump,
            LedgeAction::Roll => HighLevelAction::LedgeRoll,
        };
        consumer.skip_broad_state(BroadState::LedgeAction);
        Some(consumer.finish_action(hla))
    }

    /// Parses a hitstun episode: the hitstun run is consumed, and a
    /// non-hitstun gap of at most [`HITSTUN_GAP_TIMEOUT`] frames that more
    /// hitstun follows is absorbed into the same action, repeatedly. A
    /// longer gap, or one that no hitstun follows, stays outside the
    /// action. One action spanning the whole episode is emitted.
    fn parse_hitstun(consumer: &mut ActionBuilder<'_>) -> (r: Option<Action>)
        requires
            old(consumer).wf(),
            old(consumer).pending_wf(),
            old(consumer).cur_is(BroadState::Hitstun),
        ensures
            final(consumer).wf(),
            final(consumer).advanced_from(*old(consumer)),
            final(consumer).cur_frame > old(consumer).cur_frame,
            final(consumer).cur_frame == hitstun_end(
                old(consumer).frames@,
                old(consumer).cur_frame as int,
            ),
            r is Some,
            r is Some ==> final(consumer).action_init_data is None,
            r matches Some(a) ==> ActionBuilder::emits(*old(consumer), *final(consumer), a)
                && a.action_taken == HighLevelAction::Hitstun,
    {
        loop
            invariant_except_break
                consumer.cur_is(BroadState::Hitstun),
            invariant
                consumer.wf(),
                consumer.pending_wf(),
                consumer.advanced_from(*old(consumer)),
                consumer.action_init_data == old(consumer).action_init_data,
                hitstun_end(consumer.frames@, consumer.cur_frame as int) == hitstun_end(
                    old(consumer).frames@,
                    old(consumer).cur_frame as int,
                ),
            ensures
                consumer.wf(),
                consumer.pending_wf(),
                consumer.advanced_from(*old(consumer)),
                consumer.action_init_data == old(consumer).action_init_data,
                consumer.cur_frame > old(consumer).cur_frame,
                consumer.cur_frame == hitstun_end(
                    old(consumer).frames@,
                    old(consumer).cur_frame as int,
                ),
            decreases consumer.frames@.len() - consumer.cur_frame,
        {
            let ghost top = consumer.cur_frame as int;
            consumer.skip_broad_state(BroadState::Hitstun);
            let ghost h = consumer.cur_frame as int;
            let ahead = consumer.peek_n(HITSTUN_GAP_TIMEOUT + 1);
            // look for a return to hitstun within the gap tolerance; the
            // frame the run stopped on is itself outside hitstun
            let mut resume: usize = 0;
            let mut d: usize = 1;
            while d < ahead.len()
                invariant
                    d >= 1,
                    resume == 0 ==> forall|t: int| 1 <= t < d && t < ahead@.len()
                        ==> (#[trigger] ahead@[t]).broad_state_spec() != BroadState::Hitstun,
                    resume > 0 ==> 1 <= resume < ahead@.len()
                        && ahead@[resume as int].broad_state_spec() == BroadState::Hitstun
                        && (forall|t: int| 1 <= t < resume
                            ==> (#[trigger] ahead@[t]).broad_state_spec() != BroadState::Hitstun),
                decreases ahead.len() - d,
            {
                if resume == 0 {
                    if ahead[d].broad_state() == BroadState::Hitstun {
                        resume = d;
                    }
                }
                d = d + 1;
            }
            if resume == 0 {
                proof {
                    let frames = consumer.frames@;
                    let q = h + ahead@.len();
                    assert forall|k: int| h <= k < q implies (#[trigger] frames[k].state).broad_state_spec()
                        != BroadState::Hitstun by {
                        if k > h {
                            assert(ahead@[k - h] == frames[k].state);
                        }
                    }
                    lemma_next_hitstun_absorb(frames, h, q);
                    lemma_next_hitstun_props(frames, q);
                }
                break;
            }
            proof {
                let frames = consumer.frames@;
                assert forall|k: int| h <= k < h + resume implies (#[trigger] frames[k].state).broad_state_spec()
                    != BroadState::Hitstun by {
                    if k > h {
                        assert(ahead@[k - h] == frames[k].state);
                    }
                }
                lemma_next_hitstun_absorb(frames, h, h + resume);
                assert(ahead@[resume as int] == frames[h + resume].state);
            }
            // absorb the gap: advance to the frame the hitstun resumes on
            let mut k: usize = 0;
            while k < resume
                invariant
                    k <= resume,
                    consumer.wf(),
                    consumer.frames == old(consumer).frames,
                    consumer.action_init_data == old(consumer).action_init_data,
                    consumer.cur_frame == h + k,
                    h + resume < consumer.frames@.len(),
                decreases resume - k,
            {
                consumer.next();
                k = k + 1;
            }
        }
        Some(consumer.finish_action(HighLevelAction::Hitstun))
    }

    /// Parses an airdodge. One that resolves into a special landing is a
    /// waveland, classified by the landing frame's horizontal velocity;
    /// otherwise the airdodge stands on its own.
    fn parse_airdodge(consumer: &mut ActionBuilder<'_>) -> (r: Option<Action>)
        requires
            old(consumer).wf(),
            old(consumer).pending_wf(),
            !old(consumer).at_end(),
            old(consumer).broad_at(old(consumer).cur_frame as int) == BroadState::Airdodge
                || old(consumer).broad_at(old(consumer).cur_frame as int)
                == BroadState::SpecialLanding,
        ensures
            final(consumer).wf(),
            final(consumer).advanced_from(*old(consumer)),
            final(consumer).cur_frame > old(consumer).cur_frame,
            r is Some ==> final(consumer).action_init_data is None,
            r is None ==> final(consumer).action_init_data == old(consumer).action_init_data,
            r matches Some(a) ==> ActionBuilder::emits(*old(consumer), *final(consumer), a),
            match airdodge_outcome(old(consumer).frames@, old(consumer).cur_frame as int) {
                Some((kind, end)) => r matches Some(a) && a.action_taken == kind
                    && a.frame_end == end && final(consumer).cur_frame == end,
                None => r is None,
            },
    {
        consumer.skip_broad_state(BroadState::Airdodge);
        match consumer.peek() {
            None => None,
            Some(s) => {
                if s.broad_state() == BroadState::SpecialLanding {
                    let frame = consumer.next_frame().unwrap();
                    let hla = if frame.velocity.x < -WAVELAND_EPSILON {
                        HighLevelAction::WavelandLeft
                    } else if frame.velocity.x > WAVELAND_EPSILON {
                        HighLevelAction::WavelandRight
                    } else {
                        HighLevelAction::WavelandDown
                    };
                    consumer.skip_broad_state(BroadState::SpecialLanding);
                    Some(consumer.finish_action(hla))
                } else {
                    Some(consumer.finish_action(HighLevelAction::Airdodge))
                }
            },
        }
    }

    /// Consumes a jump-squat run and classifies the launch as a full or a
    /// short hop from the terminal squat frame's vertical velocity against
    /// the character's threshold. A squat truncated by the end of the
    /// array, or by a character missing from the threshold table, yields
    /// nothing.
    fn parse_jump_type(consumer: &mut ActionBuilder<'_>) -> (r: Option<JumpType>)
        requires
            old(consumer).wf(),
            old(consumer).cur_is(BroadState::JumpSquat),
        ensures
            final(consumer).wf(),
            final(consumer).advanced_from(*old(consumer)),
            final(consumer).action_init_data == old(consumer).action_init_data,
            final(consumer).cur_frame > old(consumer).cur_frame,
            ({
                let frames = old(consumer).frames@;
                let e = run_end(frames, old(consumer).cur_frame as int, BroadState::JumpSquat);
                &&& (r is Some <==> e < frames.len() && jump_threshold_spec(
                    frames[e - 1].character,
                ) is Some)
                &&& r matches Some(jt) ==> final(consumer).cur_frame == e
                    && (jump_threshold_spec(frames[e - 1].character) matches Some(t) && jt == (
                    if frames[e - 1].velocity.y > t {
                        JumpType::Full
                    } else {
                        JumpType::Short
                    }))
            }),
    {
        let mut last_squat_f = consumer.next_frame().unwrap();
        loop
            invariant
                consumer.wf(),
                consumer.advanced_from(*old(consumer)),
                consumer.action_init_data == old(consumer).action_init_data,
                consumer.cur_frame > old(consumer).cur_frame,
                last_squat_f == consumer.frames@[consumer.cur_frame - 1],
                run_end(consumer.frames@, consumer.cur_frame as int, BroadState::JumpSquat)
                    == run_end(
                    old(consumer).frames@,
                    old(consumer).cur_frame as int,
                    BroadState::JumpSquat,
                ),
            ensures
                consumer.wf(),
                consumer.advanced_from(*old(consumer)),
                consumer.action_init_data == old(consumer).action_init_data,
                consumer.cur_frame > old(consumer).cur_frame,
                last_squat_f == consumer.frames@[consumer.cur_frame - 1],
                !consumer.at_end(),
                consumer.cur_frame == run_end(
                    old(consumer).frames@,
                    old(consumer).cur_frame as int,
                    BroadState::JumpSquat,
                ),
            decreases consumer.frames@.len() - consumer.cur_frame,
        {
            let s = match consumer.peek() {
                Some(s) => s,
                None => {
                    return None;
                },
            };
            if s.broad_state() != BroadState::JumpSquat {
                break;
            }
            last_squat_f = consumer.next_frame().unwrap();
        }
        let character = last_squat_f.character;
        let y_vel = last_squat_f.velocity.y;
        match jump_velocity_threshold(character) {
            None => None,
            Some(vel_cutoff) => {
                if y_vel > vel_cutoff {
                    Some(JumpType::Full)
                } else {
                    Some(JumpType::Short)
                }
            },
        }
    }

    /// Parses a jump from the ground, beginning with its jump squat. After
    /// a quiet air courtesy window the jump stands alone as a full or a
    /// short hop; an action inside the window specialises it: an attack
    /// becomes a hop aerial, an air jump re-enters jump handling, an
    /// airdodge that lands becomes a wavedash, a grab stands on its own.
    fn parse_jump_squat(consumer: &mut ActionBuilder<'_>) -> (r: Option<Action>)
        requires
            old(consumer).wf(),
            old(consumer).pending_wf(),
            old(consumer).cur_is(BroadState::JumpSquat),
        ensures
            final(consumer).wf(),
            final(consumer).advanced_from(*old(consumer)),
            final(consumer).cur_frame > old(consumer).cur_frame,
            r is Some ==> final(consumer).action_init_data is None,
            r is None ==> final(consumer).action_init_data == old(consumer).action_init_data,
            r matches Some(a) ==> ActionBuilder::emits(*old(consumer), *final(consumer), a),
            match jump_squat_outcome(old(consumer).frames@, old(consumer).cur_frame as int) {
                Some((kind, end)) => r matches Some(a) && a.action_taken == kind
                    && a.frame_end == end,
                None => r is None,
            },
    {
        let jump_type = match Action::parse_jump_type(consumer) {
            Some(jt) => jt,
            None => {
                return None;
            },
        };
        let hla = match jump_type {
            JumpType::Full => HighLevelAction::Fullhop,
            JumpType::Short => HighLevelAction::Shorthop,
        };
        let ghost e = consumer.cur_frame as int;
        proof {
            lemma_run_end_props(consumer.frames@, e, BroadState::Air);
        }
        let c = Courtesy { timeout: AIR_COURTESY_TIMEOUT, state: BroadState::Air };
        match Action::skip_courtesy(consumer, c) {
            CourtesyReturn::SkipMax(_) => {
                // no action inside the window: the jump stands alone
                proof {
                    lemma_run_end_absorb(consumer.frames@, e, consumer.cur_frame as int, BroadState::Air);
                    lemma_run_end_props(consumer.frames@, consumer.cur_frame as int, BroadState::Air);
                }
                return Some(consumer.finish_action(hla));
            },
            _ => {
                proof {
                    lemma_run_end_absorb(consumer.frames@, e, consumer.cur_frame as int, BroadState::Air);
                }
            },
        }
        let state_after_jump = match consumer.peek() {
            Some(s) => s,
            None => {
                return None;
            },
        };
        match state_after_jump.broad_state() {
            BroadState::Attack => {
                match Action::parse_attack_to_end(consumer) {
                    Some(AttackType::AirAttack(at)) => {
                        let high_level_action = match jump_type {
                            JumpType::Full => HighLevelAction::FullhopAerial(at),
                            JumpType::Short => HighLevelAction::ShorthopAerial(at),
                        };
                        Some(consumer.finish_action(high_level_action))
                    },
                    Some(AttackType::GroundAttack(at)) => Some(
                        consumer.finish_action(HighLevelAction::GroundAttack(at)),
                    ),
                    None => None,
                }
            },
            BroadState::AirJump => Action::parse_air_jump(consumer),
            BroadState::Airdodge | BroadState::SpecialLanding => {
                match Action::parse_airdodge(consumer) {
                    None => None,
                    Some(airdodge_action) => {
                        // a waveland straight out of the jump is a wavedash
                        let mut act = airdodge_action;
                        act.action_taken = match airdodge_action.action_taken {
                            HighLevelAction::WavelandRight => HighLevelAction::WavedashRight,
                            HighLevelAction::WavelandLeft => HighLevelAction::WavedashLeft,
                            HighLevelAction::WavelandDown => HighLevelAction::WavedashDown,
                            other => other,
                        };
                        Some(act)
                    },
                }
            },
            BroadState::Grab => Action::parse_simple_action(
                consumer,
                BroadState::Grab,
                HighLevelAction::Grab,
            ),
            _ => Some(consumer.finish_action(hla)),
        }
    }

    /// Parses a mid-air jump. After a quiet air-jump courtesy window the
    /// jump stands alone; only an aerial attack inside the window
    /// specialises it, to a jump aerial — anything else before the window
    /// elapses is an unparseable tail.
    fn parse_air_jump(consumer: &mut ActionBuilder<'_>) -> (r: Option<Action>)
        requires
            old(consumer).wf(),
            old(consumer).pending_wf(),
            !old(consumer).at_end(),
        ensures
            final(consumer).wf(),
            final(consumer).advanced_from(*old(consumer)),
            final(consumer).cur_frame > old(consumer).cur_frame,
            r is Some ==> final(consumer).action_init_data is None,
            r is None ==> final(consumer).action_init_data == old(consumer).action_init_data,
            r matches Some(a) ==> ActionBuilder::emits(*old(consumer), *final(consumer), a),
            match air_jump_outcome(old(consumer).frames@, old(consumer).cur_frame as int) {
                Some((kind, end)) => r matches Some(a) && a.action_taken == kind
                    && a.frame_end == end,
                None => r is None,
            },
    {
        consumer.next();
        let ghost c0 = consumer.cur_frame as int;
        proof {
            lemma_run_end_props(consumer.frames@, c0, BroadState::AirJump);
        }
        let c = Courtesy { timeout: AIRJUMP_COURTESY_TIMEOUT, state: BroadState::AirJump };
        match Action::skip_courtesy(consumer, c) {
            CourtesyReturn::SkipMax(_) => {
                // consume the rest of the run so the jump is not parsed twice
                proof {
                    lemma_run_end_absorb(consumer.frames@, c0, consumer.cur_frame as int, BroadState::AirJump);
                    lemma_run_end_props(consumer.frames@, consumer.cur_frame as int, BroadState::AirJump);
                }
                consumer.skip_broad_state(BroadState::AirJump);
                return Some(consumer.finish_action(HighLevelAction::AirJump));
            },
            _ => {
                proof {
                    lemma_run_end_absorb(consumer.frames@, c0, consumer.cur_frame as int, BroadState::AirJump);
                }
            },
        }
        let state_after_jump = match consumer.peek() {
            Some(s) => s,
            None => {
                return None;
            },
        };
        match state_after_jump.broad_state() {
            BroadState::Attack => {
                match Action::parse_attack_to_end(consumer) {
                    Some(AttackType::AirAttack(at)) => Some(
                        consumer.finish_action(HighLevelAction::JumpAerial(at)),
                    ),
                    _ => None,
                }
            },
            _ => None,
        }
    }

    /// Parses what follows a ledge hang. A full ledge courtesy window is a
    /// ledge wait; otherwise the hang resolves into a ledge-recovery
    /// animation, hitstun, or the air — and from the air, after a drop
    /// window, into a ledge drop, hitstun, or an air jump whose follow-up
    /// (airdodge, aerial, landing) refines the classification further.
    fn parse_ledge(consumer: &mut ActionBuilder<'_>) -> (r: Option<Action>)
        requires
            old(consumer).wf(),
            old(consumer).pending_wf(),
            old(consumer).cur_is(BroadState::Ledge),
        ensures
            final(consumer).wf(),
            final(consumer).advanced_from(*old(consumer)),
            final(consumer).cur_frame > old(consumer).cur_frame,
            r is Some ==> final(consumer).action_init_data is None,
            r is None ==> final(consumer).action_init_data == old(consumer).action_init_data,
            r matches Some(a) ==> ActionBuilder::emits(*old(consumer), *final(consumer), a),
            match ledge_outcome(old(consumer).frames@, old(consumer).cur_frame as int) {
                Some((kind, end)) => r matches Some(a) && a.action_taken == kind
                    && a.frame_end == end,
                None => r is None,
            },
    {
        let ghost cur0 = consumer.cur_frame as int;
        proof {
            lemma_run_end_props(consumer.frames@, cur0, BroadState::Ledge);
        }
        let c = Courtesy { timeout: LEDGE_COURTESY_TIMEOUT, state: BroadState::Ledge };
        match Action::skip_courtesy(consumer, c) {
            CourtesyReturn::SkipMax(_) => {
                proof {
                    lemma_run_end_absorb(consumer.frames@, cur0, consumer.cur_frame as int, BroadState::Ledge);
                    lemma_run_end_props(consumer.frames@, consumer.cur_frame as int, BroadState::Ledge);
                }
                return Some(consumer.finish_action(HighLevelAction::LedgeWait));
            },
            _ => {
                proof {
                    lemma_run_end_absorb(consumer.frames@, cur0, consumer.cur_frame as int, BroadState::Ledge);
                }
            },
        }
        let post_ledge_state = match consumer.peek() {
            Some(s) => s,
            None => {
                return None;
            },
        };
        match post_ledge_state.broad_state() {
            BroadState::LedgeAction => Action::parse_ledge_action(consumer),
            BroadState::Hitstun => Action::parse_hitstun(consumer),
            BroadState::Air => {
                let ghost g = consumer.cur_frame as int;
                proof {
                    lemma_run_end_props(consumer.frames@, g, BroadState::Air);
                }
                let ca = Courtesy { timeout: AIR_COURTESY_TIMEOUT, state: BroadState::Air };
                match Action::skip_courtesy(consumer, ca) {
                    CourtesyReturn::SkipMax(_) => {
                        proof {
                            lemma_run_end_absorb(consumer.frames@, g, consumer.cur_frame as int, BroadState::Air);
                            lemma_run_end_props(consumer.frames@, consumer.cur_frame as int, BroadState::Air);
                        }
                        return Some(consumer.finish_action(HighLevelAction::LedgeDrop));
                    },
                    _ => {
                        proof {
                            lemma_run_end_absorb(consumer.frames@, g, consumer.cur_frame as int, BroadState::Air);
                        }
                    },
                }
                let next_state = match consumer.peek() {
                    Some(s) => s,
                    None => {
                        return None;
                    },
                };
                match next_state.broad_state() {
                    BroadState::Hitstun => Action::parse_hitstun(consumer),
                    BroadState::AirJump => {
                        consumer.next();
                        let ghost cj0 = consumer.cur_frame as int;
                        proof {
                            lemma_run_end_props(consumer.frames@, cj0, BroadState::AirJump);
                        }
                        let cj = Courtesy {
                            timeout: AIRJUMP_COURTESY_TIMEOUT,
                            state: BroadState::AirJump,
                        };
                        match Action::skip_courtesy(consumer, cj) {
                            CourtesyReturn::SkipMax(_) => {
                                proof {
                                    lemma_run_end_absorb(consumer.frames@, cj0, consumer.cur_frame as int, BroadState::AirJump);
                                    lemma_run_end_props(consumer.frames@, consumer.cur_frame as int, BroadState::AirJump);
                                }
                                consumer.skip_broad_state(BroadState::AirJump);
                                return Some(consumer.finish_action(HighLevelAction::LedgeHop));
                            },
                            _ => {
                                proof {
                                    lemma_run_end_absorb(consumer.frames@, cj0, consumer.cur_frame as int, BroadState::AirJump);
                                }
                            },
                        }
                        let after_jump = match consumer.peek() {
                            Some(s) => s,
                            None => {
                                return None;
                            },
                        };
                        match after_jump.broad_state() {
                            BroadState::Airdodge => {
                                match Action::parse_airdodge(consumer) {
                                    None => None,
                                    Some(airdodge_action) => {
                                        // a waveland straight off the hang is a ledgedash
                                        let mut act = airdodge_action;
                                        act.action_taken = match airdodge_action.action_taken {
                                            HighLevelAction::WavelandLeft => HighLevelAction::LedgeDash,
                                            HighLevelAction::WavelandDown => HighLevelAction::LedgeDash,
                                            HighLevelAction::WavelandRight => HighLevelAction::LedgeDash,
                                            other => other,
                                        };
                                        Some(act)
                                    },
                                }
                            },
                            BroadState::Attack => {
                                match Action::parse_attack_to_end(consumer) {
                                    Some(AttackType::AirAttack(at)) => Some(
                                        consumer.finish_action(HighLevelAction::LedgeAerial(at)),
                                    ),
                                    Some(AttackType::GroundAttack(at)) => Some(
                                        consumer.finish_action(HighLevelAction::GroundAttack(at)),
                                    ),
                                    None => None,
                                }
                            },
                            BroadState::SpecialLanding => {
                                consumer.skip_broad_state(BroadState::SpecialLanding);
                                Some(consumer.finish_action(HighLevelAction::LedgeDash))
                            },
                            BroadState::Hitstun => Action::parse_hitstun(consumer),
                            _ => Some(consumer.finish_action(HighLevelAction::LedgeHop)),
                        }
                    },
                    _ => Some(consumer.finish_action(HighLevelAction::LedgeDrop)),
                }
            },
            // a hang can only resolve into a ledge action, hitstun, or the
            // air; any other successor is an unrecognised sub-state and the
            // partial run is discarded
            _ => None,
        }
    }
}

/// Segments one competitor's frame array into an ordered sequence of
/// semantic actions: frames on which no action may begin are advanced
/// past, and each actionable frame opens an action that one dispatch of
/// the state machine completes or discards. The emitted actions have
/// strictly ascending, non-overlapping frame ranges; an empty array yields
/// no actions; and whenever the first actionable frame's category commits
/// (its grace window fully elapses), the sequence is non-empty and opens
/// with exactly that committed action.
pub fn parse(frames: &Vec<Frame>) -> (r: Vec<Action>)
    ensures
        forall|i: int| 0 <= i < r@.len() ==> action_valid(frames@, #[trigger] r@[i]),
        forall|i: int, j: int| 0 <= i < j < r@.len()
            ==> (#[trigger] r@[i]).frame_end <= (#[trigger] r@[j]).frame_start,
        frames@.len() == 0 ==> r@.len() == 0,
        ({
            let f0 = first_actionable(frames@, 0);
            (f0 < frames@.len() && first_commits(frames@, f0)) ==> ({
                &&& r@.len() > 0
                &&& r@[0].frame_start == f0
                &&& r@[0].action_taken == committed_kind(frames@, f0)
                &&& r@[0].frame_end == committed_end(frames@, f0)
            })
        }),
{
    let mut consumer = ActionBuilder::new(frames);
    let mut actions: Vec<Action> = Vec::new();
    loop
        invariant
            consumer.wf(),
            consumer.frames == frames,
            forall|i: int| 0 <= i < actions@.len() ==> action_valid(frames@, #[trigger] actions@[i]),
            forall|i: int| 0 <= i < actions@.len()
                ==> (#[trigger] actions@[i]).frame_end <= consumer.cur_frame,
            forall|i: int, j: int| 0 <= i < j < actions@.len()
                ==> (#[trigger] actions@[i]).frame_end <= (#[trigger] actions@[j]).frame_start,
            actions@.len() > 0 ==> frames@.len() > 0,
            ({
                let f0 = first_actionable(frames@, 0);
                (f0 < frames@.len() && first_commits(frames@, f0)) ==> ({
                    ||| (consumer.cur_frame <= f0 && actions@.len() == 0)
                    ||| ({
                        &&& actions@.len() > 0
                        &&& actions@[0].frame_start == f0
                        &&& actions@[0].action_taken == committed_kind(frames@, f0)
                        &&& actions@[0].frame_end == committed_end(frames@, f0)
                    })
                })
            }),
        ensures
            forall|i: int| 0 <= i < actions@.len() ==> action_valid(frames@, #[trigger] actions@[i]),
            forall|i: int, j: int| 0 <= i < j < actions@.len()
                ==> (#[trigger] actions@[i]).frame_end <= (#[trigger] actions@[j]).frame_start,
            frames@.len() == 0 ==> actions@.len() == 0,
            consumer.at_end(),
            ({
                let f0 = first_actionable(frames@, 0);
                (f0 < frames@.len() && first_commits(frames@, f0)) ==> ({
                    ||| (consumer.cur_frame <= f0 && actions@.len() == 0)
                    ||| ({
                        &&& actions@.len() > 0
                        &&& actions@[0].frame_start == f0
                        &&& actions@[0].action_taken == committed_kind(frames@, f0)
                        &&& actions@[0].frame_end == committed_end(frames@, f0)
                    })
                })
            }),
        decreases frames@.len() - consumer.cur_frame,
    {
        proof {
            lemma_first_actionable_props(frames@, 0);
        }
        let next_state = match consumer.peek() {
            Some(s) => s,
            None => {
                break;
            },
        };
        match next_state.actionable_state() {
            Some(_) => {
                consumer.start_action();
                match Action::parse_next(&mut consumer) {
                    Some(action) => {
                        actions.push(action);
                    },
                    None => {},
                }
            },
            None => {
                consumer.next();
            },
        }
    }
    proof {
        lemma_first_actionable_props(frames@, 0);
    }
    actions
}

} // verus!
