//! Segmentation of raw per-frame fighting-game captures into semantic
//! actions, and temporal alignment of two competitors' action sequences
//! into initiation/response pairs.
//!
//! The input is one ordered array of per-simulation-tick [`Frame`] records
//! per competitor, produced by an external decoder. [`parser::parse`] turns
//! one such array into an ordered, non-overlapping sequence of [`Action`]s;
//! [`generate_interactions`] pairs two such sequences.
//!
//! Positions and velocities are carried as fixed-point numbers in
//! thousandths of a game-world unit, so that every classification
//! threshold is an exact integer comparison.

use vstd::prelude::*;

pub mod game_enums;
pub mod parser;
pub mod states;

pub use game_enums::Character;
pub use game_enums::CharacterColour;
pub use game_enums::Stage;
pub use parser::parse;
pub use parser::ActionBuilder;
pub use parser::ActionInitData;
pub use parser::Courtesy;
pub use parser::CourtesyReturn;
pub use states::ActionableState;
pub use states::AirAttack;
pub use states::AttackType;
pub use states::BroadState;
pub use states::GroundAttack;
pub use states::HighLevelAction;
pub use states::LedgeAction;
pub use states::MeleeState;

verus! {

/// A two-dimensional quantity (position or velocity), in thousandths of a
/// game-world unit.
#[derive(Clone, Copy, Debug, PartialEq, Eq, Structural)]
pub struct Vector {
    pub x: i32,
    pub y: i32,
}

/// The way a competitor faces.
#[derive(Clone, Copy, Debug, PartialEq, Eq, Structural)]
pub enum Direction {
    Left,
    Right,
}

/// Which of the two competitors of a match a frame array belongs to.
#[derive(Clone, Copy, Debug, PartialEq, Eq, Structural)]
pub enum Port {
    Low,
    High,
}

/// One per-simulation-tick snapshot of one competitor's state, produced by
/// the external decoder and read-only to this library.
#[derive(Clone, Copy, Debug, PartialEq, Eq, Structural)]
pub struct Frame {
    pub character: Character,
    /// Zero-indexed controller port.
    pub port_idx: u8,
    pub direction: Direction,
    pub velocity: Vector,
    pub hit_velocity: Vector,
    pub position: Vector,
    pub state: MeleeState,
    /// The animation clock, in thousandths of an animation frame.
    pub anim_frame: i32,
}

/// One item alive on the stage during one frame.
#[derive(Clone, Copy, Debug, PartialEq, Eq, Structural)]
pub struct Item {
    pub type_id: u16,
    pub state: u8,
    pub direction: Direction,
    pub position: Vector,
    pub missile_type: u8,
    pub turnip_type: u8,
    pub charge_shot_launched: bool,
    pub charge_shot_power: u8,
}

/// The metadata of one match: where it was played and who by.
#[derive(Clone, Copy, Debug, PartialEq, Eq, Structural)]
pub struct GameInfo {
    pub stage: Stage,
    pub low_port_idx: u8,
    pub low_starting_character: CharacterColour,
    pub high_port_idx: u8,
    pub high_starting_character: CharacterColour,
}

/// One fully decoded match: a frame array per competitor, the items on the
/// stage, and the match metadata.
#[derive(Debug)]
pub struct Game {
    pub low_port_frames: Vec<Frame>,
    pub high_port_frames: Vec<Frame>,
    /// One entry per frame, and one more: the items alive on frame `f` are
    /// `items[item_idx[f] .. item_idx[f + 1]]`.
    pub item_idx: Vec<u16>,
    pub items: Vec<Item>,
    pub info: GameInfo,
}

/// One semantic action: the category it began from, what it was classified
/// as, the half-open frame range `[frame_start, frame_end)` it spans, and
/// the position and velocity on its first frame.
#[derive(Clone, Copy, Debug, PartialEq, Eq, Structural)]
pub struct Action {
    pub start_state: BroadState,
    pub action_taken: HighLevelAction,
    pub frame_start: usize,
    pub frame_end: usize,
    pub initial_position: Vector,
    pub initial_velocity: Vector,
}

/// One aligned pair: the index of an opponent initiation in the opponent's
/// action sequence, and the index of the player action that answered it in
/// the player's sequence. Indices avoid duplicating the actions themselves.
#[derive(Clone, Copy, Debug, PartialEq, Eq, Structural)]
pub struct Interaction {
    pub opponent_initiation: usize,
    pub player_response: usize,
}

/// The frame array of the competitor on the given port of a match.
pub fn port_frames(game: &Game, port: Port) -> (r: &Vec<Frame>)
    ensures
        r == (match port {
            Port::Low => &game.low_port_frames,
            Port::High => &game.high_port_frames,
        }),
{
    match port {
        Port::Low => &game.low_port_frames,
        Port::High => &game.high_port_frames,
    }
}

/// The pairs the aligner yields from initiation index `i` and response
/// index `j` on, while a response to initiation `i` is being sought: the
/// response pointer advances past responses that do not start strictly
/// after initiation `i`; the first that does is paired with it.
pub open spec fn align_pairs(opp: Seq<Action>, pl: Seq<Action>, i: int, j: int) -> Seq<(int, int)>
    decreases opp.len() - i + pl.len() - j,
{
    if !(0 <= i < opp.len() && 0 <= j < pl.len()) {
        Seq::empty()
    } else if pl[j].frame_start <= opp[i].frame_start {
        align_pairs(opp, pl, i, j + 1)
    } else {
        seq![(i, j)] + align_rest(opp, pl, i + 1, j)
    }
}

/// The pairs the aligner yields while initiations are being advanced past
/// just-answered response `j`: initiations that do not start strictly after
/// it are superseded, and the first that does is sought a fresh response.
pub open spec fn align_rest(opp: Seq<Action>, pl: Seq<Action>, i: int, j: int) -> Seq<(int, int)>
    decreases opp.len() - i + pl.len() - j,
{
    if !(0 <= i < opp.len() && 0 <= j < pl.len()) {
        Seq::empty()
    } else if opp[i].frame_start <= pl[j].frame_start {
        align_rest(opp, pl, i + 1, j)
    } else {
        align_pairs(opp, pl, i, j + 1)
    }
}

/// Every pair the aligner yields is in bounds and pairs an initiation with
/// a response that starts strictly after it.
pub proof fn lemma_align_pairs_sound(opp: Seq<Action>, pl: Seq<Action>, i: int, j: int)
    ensures
        forall|k: int| 0 <= k < align_pairs(opp, pl, i, j).len() ==> {
            let p = #[trigger] align_pairs(opp, pl, i, j)[k];
            &&& i <= p.0 < opp.len()
            &&& j <= p.1 < pl.len()
            &&& opp[p.0].frame_start < pl[p.1].frame_start
        },
    decreases opp.len() - i + pl.len() - j,
{
    if !(0 <= i < opp.len() && 0 <= j < pl.len()) {
    } else if pl[j].frame_start <= opp[i].frame_start {
        lemma_align_pairs_sound(opp, pl, i, j + 1);
    } else {
        lemma_align_rest_sound(opp, pl, i + 1, j);
    }
}

/// As [`lemma_align_pairs_sound`], for the initiation-advancing phase.
pub proof fn lemma_align_rest_sound(opp: Seq<Action>, pl: Seq<Action>, i: int, j: int)
    ensures
        forall|k: int| 0 <= k < align_rest(opp, pl, i, j).len() ==> {
            let p = #[trigger] align_rest(opp, pl, i, j)[k];
            &&& i <= p.0 < opp.len()
            &&& j <= p.1 < pl.len()
            &&& opp[p.0].frame_start < pl[p.1].frame_start
        },
    decreases opp.len() - i + pl.len() - j,
{
    if !(0 <= i < opp.len() && 0 <= j < pl.len()) {
    } else if opp[i].frame_start <= pl[j].frame_start {
        lemma_align_rest_sound(opp, pl, i + 1, j);
    } else {
        lemma_align_pairs_sound(opp, pl, i, j + 1);
    }
}

/// The view of an interaction list as plain index pairs.
pub open spec fn interactions_view(s: Seq<Interaction>) -> Seq<(int, int)> {
    s.map(|k: int, it: Interaction| (it.opponent_initiation as int, it.player_response as int))
}

proof fn lemma_interactions_view_push(s: Seq<Interaction>, it: Interaction)
    ensures
        interactions_view(s.push(it))
            == interactions_view(s).push((it.opponent_initiation as int, it.player_response as int)),
{
    assert(interactions_view(s.push(it))
        =~= interactions_view(s).push((it.opponent_initiation as int, it.player_response as int)));
}

/// Pairs opponent initiations with player responses in one forward pass
/// over two chronologically ordered action sequences. Each pair matches
/// the most recent unanswered initiation to the first player action that
/// starts strictly after it; initiations that go stale before a response
/// arrives are superseded, and only the first qualifying response to an
/// initiation is paired. Empty input on either side yields no pairs.
pub fn generate_interactions(player_actions: &Vec<Action>, opponent_actions: &Vec<Action>) -> (r: Vec<Interaction>)
    ensures
        interactions_view(r@) == align_pairs(opponent_actions@, player_actions@, 0, 0),
        forall|k: int| 0 <= k < r@.len() ==> {
            let it = #[trigger] r@[k];
            &&& it.opponent_initiation < opponent_actions@.len()
            &&& it.player_response < player_actions@.len()
            &&& opponent_actions@[it.opponent_initiation as int].frame_start
                < player_actions@[it.player_response as int].frame_start
        },
        opponent_actions@.len() == 0 || player_actions@.len() == 0 ==> r@.len() == 0,
{
    let ghost opp = opponent_actions@;
    let ghost pl = player_actions@;
    let mut interactions: Vec<Interaction> = Vec::new();
    let mut i: usize = 0;
    let mut j: usize = 0;
    loop
        invariant
            opp == opponent_actions@,
            pl == player_actions@,
            i <= opp.len(),
            j <= pl.len(),
            interactions_view(interactions@) + align_pairs(opp, pl, i as int, j as int)
                == align_pairs(opp, pl, 0, 0),
        ensures
            opp == opponent_actions@,
            pl == player_actions@,
            interactions_view(interactions@) + align_pairs(opp, pl, i as int, j as int)
                == align_pairs(opp, pl, 0, 0),
            align_pairs(opp, pl, i as int, j as int) == Seq::<(int, int)>::empty(),
        decreases opp.len() - i + pl.len() - j,
    {
        if i >= opponent_actions.len() || j >= player_actions.len() {
            assert(align_pairs(opp, pl, i as int, j as int) == Seq::<(int, int)>::empty());
            break;
        }
        if player_actions[j].frame_start <= opponent_actions[i].frame_start {
            j = j + 1;
        } else {
            let ghost before = interactions@;
            let ghost i0 = i as int;
            let ghost j0 = j as int;
            interactions.push(Interaction { opponent_initiation: i, player_response: j });
            proof {
                lemma_interactions_view_push(before, Interaction { opponent_initiation: i, player_response: j });
                assert(interactions_view(interactions@) + align_rest(opp, pl, i0 + 1, j0)
                    =~= interactions_view(before) + align_pairs(opp, pl, i0, j0));
            }
            i = i + 1;
            while i < opponent_actions.len()
                && opponent_actions[i].frame_start <= player_actions[j].frame_start
                invariant
                    opp == opponent_actions@,
                    pl == player_actions@,
                    i0 < i <= opp.len(),
                    j == j0,
                    j < pl.len(),
                    interactions_view(interactions@) + align_rest(opp, pl, i as int, j as int)
                        == align_pairs(opp, pl, 0, 0),
                decreases opp.len() - i,
            {
                i = i + 1;
            }
            if i < opponent_actions.len() {
                j = j + 1;
            }
        }
    }
    proof {
        assert(interactions_view(interactions@) + Seq::<(int, int)>::empty()
            =~= interactions_view(interactions@));
        lemma_align_pairs_sound(opp, pl, 0, 0);
        assert forall|k: int| 0 <= k < interactions@.len() implies {
            let it = #[trigger] interactions@[k];
            &&& it.opponent_initiation < opp.len()
            &&& it.player_response < pl.len()
            &&& opp[it.opponent_initiation as int].frame_start < pl[it.player_response as int].frame_start
        } by {
            assert(interactions_view(interactions@)[k]
                == (interactions@[k].opponent_initiation as int, interactions@[k].player_response as int));
        }
    }
    interactions
}

} // verus!
