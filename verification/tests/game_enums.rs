use melee_actions::game_enums::CaptainFalconColour;
use melee_actions::game_enums::FoxColour;
use melee_actions::game_enums::IceClimbersColour;
use melee_actions::Character;
use melee_actions::CharacterColour;
use melee_actions::Stage;

#[test]
fn stage_ids_round_trip() {
    assert_eq!(Stage::from_u16(2), Some(Stage::FountainOfDreams));
    assert_eq!(Stage::from_u16(3), Some(Stage::PokemonStadium));
    assert_eq!(Stage::from_u16(8), Some(Stage::YoshisStory));
    assert_eq!(Stage::from_u16(28), Some(Stage::DreamLandN64));
    assert_eq!(Stage::from_u16(31), Some(Stage::Battlefield));
    assert_eq!(Stage::from_u16(32), Some(Stage::FinalDestination));
}

#[test]
fn unknown_stage_ids_name_nothing() {
    assert_eq!(Stage::from_u16(0), None);
    assert_eq!(Stage::from_u16(1), None);
    assert_eq!(Stage::from_u16(21), None);
    assert_eq!(Stage::from_u16(33), None);
    assert_eq!(Stage::from_u16(u16::MAX), None);
    for id in 2..=32u16 {
        assert_eq!(Stage::from_u16(id).is_some(), id != 21, "id {}", id);
    }
}

#[test]
fn internal_character_ids() {
    assert_eq!(Character::from_u8_internal(0), Some(Character::Mario));
    assert_eq!(Character::from_u8_internal(1), Some(Character::Fox));
    assert_eq!(Character::from_u8_internal(11), Some(Character::Nana));
    assert_eq!(Character::from_u8_internal(26), Some(Character::Roy));
    assert_eq!(Character::from_u8_internal(27), None);
    assert_eq!(Character::from_u8_internal(255), None);
}

#[test]
fn external_character_ids_differ_from_internal() {
    assert_eq!(Character::from_u8_external(0), Some(Character::CaptainFalcon));
    assert_eq!(Character::from_u8_external(2), Some(Character::Fox));
    assert_eq!(Character::from_u8_external(8), Some(Character::Mario));
    assert_eq!(Character::from_u8_external(14), Some(Character::Popo));
    assert_eq!(Character::from_u8_external(25), Some(Character::Ganondorf));
    assert_eq!(Character::from_u8_external(26), None);
    // the trailing climber has no external id of her own
    for id in 0..=25u8 {
        assert_ne!(Character::from_u8_external(id), Some(Character::Nana));
    }
}

#[test]
fn character_and_colour_combine() {
    assert_eq!(
        CharacterColour::from_character_and_colour(Character::Fox, 3),
        Some(CharacterColour::Fox(FoxColour::Green))
    );
    assert_eq!(
        CharacterColour::from_character_and_colour(Character::CaptainFalcon, 5),
        Some(CharacterColour::CaptainFalcon(CaptainFalconColour::Blue))
    );
    assert_eq!(
        CharacterColour::from_character_and_colour(Character::Popo, 2),
        Some(CharacterColour::Popo(IceClimbersColour::Orange))
    );
}

#[test]
fn colour_indices_past_the_costume_list_name_nothing() {
    assert_eq!(CharacterColour::from_character_and_colour(Character::Fox, 4), None);
    assert_eq!(CharacterColour::from_character_and_colour(Character::CaptainFalcon, 6), None);
    assert_eq!(CharacterColour::from_character_and_colour(Character::Popo, 4), None);
}

#[test]
fn the_character_survives_the_colour_pairing() {
    for id in 0..=26u8 {
        let character = Character::from_u8_internal(id).unwrap();
        let pick = CharacterColour::from_character_and_colour(character, 0).unwrap();
        assert_eq!(pick.character(), character);
    }
}
