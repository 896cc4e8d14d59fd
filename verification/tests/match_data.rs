use melee_actions::game_enums::FoxColour;
use melee_actions::game_enums::MarthColour;
use melee_actions::port_frames;
use melee_actions::Character;
use melee_actions::CharacterColour;
use melee_actions::Direction;
use melee_actions::Frame;
use melee_actions::Game;
use melee_actions::GameInfo;
use melee_actions::MeleeState;
use melee_actions::Port;
use melee_actions::Stage;
use melee_actions::Vector;

fn frame_for(character: Character, state: MeleeState) -> Frame {
    Frame {
        character,
        port_idx: 0,
        direction: Direction::Right,
        velocity: Vector { x: 0, y: 0 },
        hit_velocity: Vector { x: 0, y: 0 },
        position: Vector { x: 0, y: 0 },
        state,
        anim_frame: 0,
    }
}

#[test]
fn port_selects_the_right_frame_array() {
    let game = Game {
        low_port_frames: vec![frame_for(Character::Fox, MeleeState::Wait)],
        high_port_frames: vec![
            frame_for(Character::Marth, MeleeState::Fall),
            frame_for(Character::Marth, MeleeState::Fall),
        ],
        item_idx: vec![0, 0],
        items: Vec::new(),
        info: GameInfo {
            stage: Stage::Battlefield,
            low_port_idx: 0,
            low_starting_character: CharacterColour::Fox(FoxColour::Neutral),
            high_port_idx: 3,
            high_starting_character: CharacterColour::Marth(MarthColour::Red),
        },
    };
    assert_eq!(port_frames(&game, Port::Low).len(), 1);
    assert_eq!(port_frames(&game, Port::Low)[0].character, Character::Fox);
    assert_eq!(port_frames(&game, Port::High).len(), 2);
    assert_eq!(port_frames(&game, Port::High)[0].state, MeleeState::Fall);
}
