//! Match metadata catalogues: stages, characters and costume colours.
//!
//! These are pure lookup tables between the upstream capture's numeric ids
//! and named values; they carry no algorithm of their own.

use vstd::prelude::*;

verus! {

/// A stage the match can take place on.
#[derive(Clone, Copy, Debug, PartialEq, Eq, Hash, Structural)]
pub enum Stage {
    FountainOfDreams,
    PokemonStadium,
    PrincessPeachsCastle,
    KongoJungle,
    Brinstar,
    Corneria,
    YoshisStory,
    Onett,
    MuteCity,
    RainbowCruise,
    JungleJapes,
    GreatBay,
    HyruleTemple,
    BrinstarDepths,
    YoshisIsland,
    GreenGreens,
    Fourside,
    MushroomKingdomI,
    MushroomKingdomII,
    Venom,
    PokeFloats,
    BigBlue,
    IcicleMountain,
    Icetop,
    FlatZone,
    DreamLandN64,
    YoshisIslandN64,
    KongoJungleN64,
    Battlefield,
    FinalDestination,
}

impl Stage {
    /// The numeric id of this stage in the upstream capture.
    pub open spec fn id_spec(self) -> u16 {
        match self {
            Stage::FountainOfDreams => 2,
            Stage::PokemonStadium => 3,
            Stage::PrincessPeachsCastle => 4,
            Stage::KongoJungle => 5,
            Stage::Brinstar => 6,
            Stage::Corneria => 7,
            Stage::YoshisStory => 8,
            Stage::Onett => 9,
            Stage::MuteCity => 10,
            Stage::RainbowCruise => 11,
            Stage::JungleJapes => 12,
            Stage::GreatBay => 13,
            Stage::HyruleTemple => 14,
            Stage::BrinstarDepths => 15,
            Stage::YoshisIsland => 16,
            Stage::GreenGreens => 17,
            Stage::Fourside => 18,
            Stage::MushroomKingdomI => 19,
            Stage::MushroomKingdomII => 20,
            Stage::Venom => 22,
            Stage::PokeFloats => 23,
            Stage::BigBlue => 24,
            Stage::IcicleMountain => 25,
            Stage::Icetop => 26,
            Stage::FlatZone => 27,
            Stage::DreamLandN64 => 28,
            Stage::YoshisIslandN64 => 29,
            Stage::KongoJungleN64 => 30,
            Stage::Battlefield => 31,
            Stage::FinalDestination => 32,
        }
    }

    /// Whether a numeric id names a stage.
    pub open spec fn id_known(st: u16) -> bool {
        2 <= st <= 32 && st != 21
    }

    /// Looks a stage up by its numeric id.
    pub fn from_u16(st: u16) -> (r: Option<Self>)
        ensures
            r is Some <==> Stage::id_known(st),
            r matches Some(s) ==> s.id_spec() == st,
    {
        match st {
            2 => Some(Stage::FountainOfDreams),
            3 => Some(Stage::PokemonStadium),
            4 => Some(Stage::PrincessPeachsCastle),
            5 => Some(Stage::KongoJungle),
            6 => Some(Stage::Brinstar),
            7 => Some(Stage::Corneria),
            8 => Some(Stage::YoshisStory),
            9 => Some(Stage::Onett),
            10 => Some(Stage::MuteCity),
            11 => Some(Stage::RainbowCruise),
            12 => Some(Stage::JungleJapes),
            13 => Some(Stage::GreatBay),
            14 => Some(Stage::HyruleTemple),
            15 => Some(Stage::BrinstarDepths),
            16 => Some(Stage::YoshisIsland),
            17 => Some(Stage::GreenGreens),
            18 => Some(Stage::Fourside),
            19 => Some(Stage::MushroomKingdomI),
            20 => Some(Stage::MushroomKingdomII),
            22 => Some(Stage::Venom),
            23 => Some(Stage::PokeFloats),
            24 => Some(Stage::BigBlue),
            25 => Some(Stage::IcicleMountain),
            26 => Some(Stage::Icetop),
            27 => Some(Stage::FlatZone),
            28 => Some(Stage::DreamLandN64),
            29 => Some(Stage::YoshisIslandN64),
            30 => Some(Stage::KongoJungleN64),
            31 => Some(Stage::Battlefield),
            32 => Some(Stage::FinalDestination),
            _ => None,
        }
    }
}

/// A playable character.
#[derive(Clone, Copy, Debug, PartialEq, Eq, Hash, Structural)]
pub enum Character {
    Mario,
    Fox,
    CaptainFalcon,
    DonkeyKong,
    Kirby,
    Bowser,
    Link,
    Sheik,
    Ness,
    Peach,
    Popo,
    Nana,
    Pikachu,
    Samus,
    Yoshi,
    Jigglypuff,
    Mewtwo,
    Luigi,
    Marth,
    Zelda,
    YoungLink,
    DrMario,
    Falco,
    Pichu,
    MrGameAndWatch,
    Ganondorf,
    Roy,
}

impl Character {
    /// The internal numeric id of this character.
    pub open spec fn internal_id_spec(self) -> u8 {
        match self {
            Character::Mario => 0,
            Character::Fox => 1,
            Character::CaptainFalcon => 2,
            Character::DonkeyKong => 3,
            Character::Kirby => 4,
            Character::Bowser => 5,
            Character::Link => 6,
            Character::Sheik => 7,
            Character::Ness => 8,
            Character::Peach => 9,
            Character::Popo => 10,
            Character::Nana => 11,
            Character::Pikachu => 12,
            Character::Samus => 13,
            Character::Yoshi => 14,
            Character::Jigglypuff => 15,
            Character::Mewtwo => 16,
            Character::Luigi => 17,
            Character::Marth => 18,
            Character::Zelda => 19,
            Character::YoungLink => 20,
            Character::DrMario => 21,
            Character::Falco => 22,
            Character::Pichu => 23,
            Character::MrGameAndWatch => 24,
            Character::Ganondorf => 25,
            Character::Roy => 26,
        }
    }

    /// The external numeric id of this character, as match metadata encodes
    /// it. `Nana` has none (she only appears behind `Popo`); her entry is a
    /// sentinel past the valid range.
    pub open spec fn external_id_spec(self) -> u8 {
        match self {
            Character::Mario => 8,
            Character::Fox => 2,
            Character::CaptainFalcon => 0,
            Character::DonkeyKong => 1,
            Character::Kirby => 4,
            Character::Bowser => 5,
            Character::Link => 6,
            Character::Sheik => 19,
            Character::Ness => 11,
            Character::Peach => 12,
            Character::Popo => 14,
            Character::Nana => 26,
            Character::Pikachu => 13,
            Character::Samus => 16,
            Character::Yoshi => 17,
            Character::Jigglypuff => 15,
            Character::Mewtwo => 10,
            Character::Luigi => 7,
            Character::Marth => 9,
            Character::Zelda => 18,
            Character::YoungLink => 21,
            Character::DrMario => 22,
            Character::Falco => 20,
            Character::Pichu => 24,
            Character::MrGameAndWatch => 3,
            Character::Ganondorf => 25,
            Character::Roy => 23,
        }
    }

    /// Looks a character up by its internal numeric id.
    pub fn from_u8_internal(n: u8) -> (r: Option<Self>)
        ensures
            r is Some <==> n <= 26,
            r matches Some(c) ==> c.internal_id_spec() == n,
    {
        match n {
            0 => Some(Character::Mario),
            1 => Some(Character::Fox),
            2 => Some(Character::CaptainFalcon),
            3 => Some(Character::DonkeyKong),
            4 => Some(Character::Kirby),
            5 => Some(Character::Bowser),
            6 => Some(Character::Link),
            7 => Some(Character::Sheik),
            8 => Some(Character::Ness),
            9 => Some(Character::Peach),
            10 => Some(Character::Popo),
            11 => Some(Character::Nana),
            12 => Some(Character::Pikachu),
            13 => Some(Character::Samus),
            14 => Some(Character::Yoshi),
            15 => Some(Character::Jigglypuff),
            16 => Some(Character::Mewtwo),
            17 => Some(Character::Luigi),
            18 => Some(Character::Marth),
            19 => Some(Character::Zelda),
            20 => Some(Character::YoungLink),
            21 => Some(Character::DrMario),
            22 => Some(Character::Falco),
            23 => Some(Character::Pichu),
            24 => Some(Character::MrGameAndWatch),
            25 => Some(Character::Ganondorf),
            26 => Some(Character::Roy),
            _ => None,
        }
    }

    /// Looks a character up by its external numeric id.
    pub fn from_u8_external(n: u8) -> (r: Option<Self>)
        ensures
            r is Some <==> n <= 25,
            r matches Some(c) ==> c.external_id_spec() == n,
    {
        match n {
            0 => Some(Character::CaptainFalcon),
            1 => Some(Character::DonkeyKong),
            2 => Some(Character::Fox),
            3 => Some(Character::MrGameAndWatch),
            4 => Some(Character::Kirby),
            5 => Some(Character::Bowser),
            6 => Some(Character::Link),
            7 => Some(Character::Luigi),
            8 => Some(Character::Mario),
            9 => Some(Character::Marth),
            10 => Some(Character::Mewtwo),
            11 => Some(Character::Ness),
            12 => Some(Character::Peach),
            13 => Some(Character::Pikachu),
            14 => Some(Character::Popo),
            15 => Some(Character::Jigglypuff),
            16 => Some(Character::Samus),
            17 => Some(Character::Yoshi),
            18 => Some(Character::Zelda),
            19 => Some(Character::Sheik),
            20 => Some(Character::Falco),
            21 => Some(Character::YoungLink),
            22 => Some(Character::DrMario),
            23 => Some(Character::Roy),
            24 => Some(Character::Pichu),
            25 => Some(Character::Ganondorf),
            _ => None,
        }
    }
}

/// A costume colour of one character.
#[derive(Clone, Copy, Debug, PartialEq, Eq, Hash, Structural)]
pub enum CaptainFalconColour {
    Neutral,
    Black,
    Red,
    White,
    Green,
    Blue,
}

impl CaptainFalconColour {
    /// The numeric colour index of this costume.
    pub open spec fn index_spec(self) -> u8 {
        match self {
            CaptainFalconColour::Neutral => 0,
            CaptainFalconColour::Black => 1,
            CaptainFalconColour::Red => 2,
            CaptainFalconColour::White => 3,
            CaptainFalconColour::Green => 4,
            CaptainFalconColour::Blue => 5,
        }
    }

    /// Looks a costume up by its numeric colour index.
    pub fn from_u8(n: u8) -> (r: Option<Self>)
        ensures
            r is Some <==> n < 6,
            r matches Some(c) ==> c.index_spec() == n,
    {
        match n {
            0 => Some(CaptainFalconColour::Neutral),
            1 => Some(CaptainFalconColour::Black),
            2 => Some(CaptainFalconColour::Red),
            3 => Some(CaptainFalconColour::White),
            4 => Some(CaptainFalconColour::Green),
            5 => Some(CaptainFalconColour::Blue),
            _ => None,
        }
    }
}

/// A costume colour of one character.
#[derive(Clone, Copy, Debug, PartialEq, Eq, Hash, Structural)]
pub enum DonkeyKongColour {
    Neutral,
    Black,
    Red,
    Blue,
    Green,
}

impl DonkeyKongColour {
    /// The numeric colour index of this costume.
    pub open spec fn index_spec(self) -> u8 {
        match self {
            DonkeyKongColour::Neutral => 0,
            DonkeyKongColour::Black => 1,
            DonkeyKongColour::Red => 2,
            DonkeyKongColour::Blue => 3,
            DonkeyKongColour::Green => 4,
        }
    }

    /// Looks a costume up by its numeric colour index.
    pub fn from_u8(n: u8) -> (r: Option<Self>)
        ensures
            r is Some <==> n < 5,
            r matches Some(c) ==> c.index_spec() == n,
    {
        match n {
            0 => Some(DonkeyKongColour::Neutral),
            1 => Some(DonkeyKongColour::Black),
            2 => Some(DonkeyKongColour::Red),
            3 => Some(DonkeyKongColour::Blue),
            4 => Some(DonkeyKongColour::Green),
            _ => None,
        }
    }
}

/// A costume colour of one character.
#[derive(Clone, Copy, Debug, PartialEq, Eq, Hash, Structural)]
pub enum FoxColour {
    Neutral,
    Red,
    Blue,
    Green,
}

impl FoxColour {
    /// The numeric colour index of this costume.
    pub open spec fn index_spec(self) -> u8 {
        match self {
            FoxColour::Neutral => 0,
            FoxColour::Red => 1,
            FoxColour::Blue => 2,
            FoxColour::Green => 3,
        }
    }

    /// Looks a costume up by its numeric colour index.
    pub fn from_u8(n: u8) -> (r: Option<Self>)
        ensures
            r is Some <==> n < 4,
            r matches Some(c) ==> c.index_spec() == n,
    {
        match n {
            0 => Some(FoxColour::Neutral),
            1 => Some(FoxColour::Red),
            2 => Some(FoxColour::Blue),
            3 => Some(FoxColour::Green),
            _ => None,
        }
    }
}

/// A costume colour of one character.
#[derive(Clone, Copy, Debug, PartialEq, Eq, Hash, Structural)]
pub enum MrGameAndWatchColour {
    Neutral,
    Red,
    Blue,
    Green,
}

impl MrGameAndWatchColour {
    /// The numeric colour index of this costume.
    pub open spec fn index_spec(self) -> u8 {
        match self {
            MrGameAndWatchColour::Neutral => 0,
            MrGameAndWatchColour::Red => 1,
            MrGameAndWatchColour::Blue => 2,
            MrGameAndWatchColour::Green => 3,
        }
    }

    /// Looks a costume up by its numeric colour index.
    pub fn from_u8(n: u8) -> (r: Option<Self>)
        ensures
            r is Some <==> n < 4,
            r matches Some(c) ==> c.index_spec() == n,
    {
        match n {
            0 => Some(MrGameAndWatchColour::Neutral),
            1 => Some(MrGameAndWatchColour::Red),
            2 => Some(MrGameAndWatchColour::Blue),
            3 => Some(MrGameAndWatchColour::Green),
            _ => None,
        }
    }
}

/// A costume colour of one character.
#[derive(Clone, Copy, Debug, PartialEq, Eq, Hash, Structural)]
pub enum KirbyColour {
    Neutral,
    Yellow,
    Blue,
    Red,
    Green,
    White,
}

impl KirbyColour {
    /// The numeric colour index of this costume.
    pub open spec fn index_spec(self) -> u8 {
        match self {
            KirbyColour::Neutral => 0,
            KirbyColour::Yellow => 1,
            KirbyColour::Blue => 2,
            KirbyColour::Red => 3,
            KirbyColour::Green => 4,
            KirbyColour::White => 5,
        }
    }

    /// Looks a costume up by its numeric colour index.
    pub fn from_u8(n: u8) -> (r: Option<Self>)
        ensures
            r is Some <==> n < 6,
            r matches Some(c) ==> c.index_spec() == n,
    {
        match n {
            0 => Some(KirbyColour::Neutral),
            1 => Some(KirbyColour::Yellow),
            2 => Some(KirbyColour::Blue),
            3 => Some(KirbyColour::Red),
            4 => Some(KirbyColour::Green),
            5 => Some(KirbyColour::White),
            _ => None,
        }
    }
}

/// A costume colour of one character.
#[derive(Clone, Copy, Debug, PartialEq, Eq, Hash, Structural)]
pub enum BowserColour {
    Neutral,
    Red,
    Blue,
    Black,
}

impl BowserColour {
    /// The numeric colour index of this costume.
    pub open spec fn index_spec(self) -> u8 {
        match self {
            BowserColour::Neutral => 0,
            BowserColour::Red => 1,
            BowserColour::Blue => 2,
            BowserColour::Black => 3,
        }
    }

    /// Looks a costume up by its numeric colour index.
    pub fn from_u8(n: u8) -> (r: Option<Self>)
        ensures
            r is Some <==> n < 4,
            r matches Some(c) ==> c.index_spec() == n,
    {
        match n {
            0 => Some(BowserColour::Neutral),
            1 => Some(BowserColour::Red),
            2 => Some(BowserColour::Blue),
            3 => Some(BowserColour::Black),
            _ => None,
        }
    }
}

/// A costume colour of one character.
#[derive(Clone, Copy, Debug, PartialEq, Eq, Hash, Structural)]
pub enum LinkColour {
    Neutral,
    Red,
    Blue,
    Black,
    White,
}

impl LinkColour {
    /// The numeric colour index of this costume.
    pub open spec fn index_spec(self) -> u8 {
        match self {
            LinkColour::Neutral => 0,
            LinkColour::Red => 1,
            LinkColour::Blue => 2,
            LinkColour::Black => 3,
            LinkColour::White => 4,
        }
    }

    /// Looks a costume up by its numeric colour index.
    pub fn from_u8(n: u8) -> (r: Option<Self>)
        ensures
            r is Some <==> n < 5,
            r matches Some(c) ==> c.index_spec() == n,
    {
        match n {
            0 => Some(LinkColour::Neutral),
            1 => Some(LinkColour::Red),
            2 => Some(LinkColour::Blue),
            3 => Some(LinkColour::Black),
            4 => Some(LinkColour::White),
            _ => None,
        }
    }
}

/// A costume colour of one character.
#[derive(Clone, Copy, Debug, PartialEq, Eq, Hash, Structural)]
pub enum LuigiColour {
    Neutral,
    White,
    Blue,
    Red,
}

impl LuigiColour {
    /// The numeric colour index of this costume.
    pub open spec fn index_spec(self) -> u8 {
        match self {
            LuigiColour::Neutral => 0,
            LuigiColour::White => 1,
            LuigiColour::Blue => 2,
            LuigiColour::Red => 3,
        }
    }

    /// Looks a costume up by its numeric colour index.
    pub fn from_u8(n: u8) -> (r: Option<Self>)
        ensures
            r is Some <==> n < 4,
            r matches Some(c) ==> c.index_spec() == n,
    {
        match n {
            0 => Some(LuigiColour::Neutral),
            1 => Some(LuigiColour::White),
            2 => Some(LuigiColour::Blue),
            3 => Some(LuigiColour::Red),
            _ => None,
        }
    }
}

/// A costume colour of one character.
#[derive(Clone, Copy, Debug, PartialEq, Eq, Hash, Structural)]
pub enum MarioColour {
    Neutral,
    Yellow,
    Black,
    Blue,
    Green,
}

impl MarioColour {
    /// The numeric colour index of this costume.
    pub open spec fn index_spec(self) -> u8 {
        match self {
            MarioColour::Neutral => 0,
            MarioColour::Yellow => 1,
            MarioColour::Black => 2,
            MarioColour::Blue => 3,
            MarioColour::Green => 4,
        }
    }

    /// Looks a costume up by its numeric colour index.
    pub fn from_u8(n: u8) -> (r: Option<Self>)
        ensures
            r is Some <==> n < 5,
            r matches Some(c) ==> c.index_spec() == n,
    {
        match n {
            0 => Some(MarioColour::Neutral),
            1 => Some(MarioColour::Yellow),
            2 => Some(MarioColour::Black),
            3 => Some(MarioColour::Blue),
            4 => Some(MarioColour::Green),
            _ => None,
        }
    }
}

/// A costume colour of one character.
#[derive(Clone, Copy, Debug, PartialEq, Eq, Hash, Structural)]
pub enum MarthColour {
    Neutral,
    Red,
    Green,
    Black,
    White,
}

impl MarthColour {
    /// The numeric colour index of this costume.
    pub open spec fn index_spec(self) -> u8 {
        match self {
            MarthColour::Neutral => 0,
            MarthColour::Red => 1,
            MarthColour::Green => 2,
            MarthColour::Black => 3,
            MarthColour::White => 4,
        }
    }

    /// Looks a costume up by its numeric colour index.
    pub fn from_u8(n: u8) -> (r: Option<Self>)
        ensures
            r is Some <==> n < 5,
            r matches Some(c) ==> c.index_spec() == n,
    {
        match n {
            0 => Some(MarthColour::Neutral),
            1 => Some(MarthColour::Red),
            2 => Some(MarthColour::Green),
            3 => Some(MarthColour::Black),
            4 => Some(MarthColour::White),
            _ => None,
        }
    }
}

/// A costume colour of one character.
#[derive(Clone, Copy, Debug, PartialEq, Eq, Hash, Structural)]
pub enum MewtwoColour {
    Neutral,
    Red,
    Blue,
    Green,
}

impl MewtwoColour {
    /// The numeric colour index of this costume.
    pub open spec fn index_spec(self) -> u8 {
        match self {
            MewtwoColour::Neutral => 0,
            MewtwoColour::Red => 1,
            MewtwoColour::Blue => 2,
            MewtwoColour::Green => 3,
        }
    }

    /// Looks a costume up by its numeric colour index.
    pub fn from_u8(n: u8) -> (r: Option<Self>)
        ensures
            r is Some <==> n < 4,
            r matches Some(c) ==> c.index_spec() == n,
    {
        match n {
            0 => Some(MewtwoColour::Neutral),
            1 => Some(MewtwoColour::Red),
            2 => Some(MewtwoColour::Blue),
            3 => Some(MewtwoColour::Green),
            _ => None,
        }
    }
}

/// A costume colour of one character.
#[derive(Clone, Copy, Debug, PartialEq, Eq, Hash, Structural)]
pub enum NessColour {
    Neutral,
    Yellow,
    Blue,
    Green,
}

impl NessColour {
    /// The numeric colour index of this costume.
    pub open spec fn index_spec(self) -> u8 {
        match self {
            NessColour::Neutral => 0,
            NessColour::Yellow => 1,
            NessColour::Blue => 2,
            NessColour::Green => 3,
        }
    }

    /// Looks a costume up by its numeric colour index.
    pub fn from_u8(n: u8) -> (r: Option<Self>)
        ensures
            r is Some <==> n < 4,
            r matches Some(c) ==> c.index_spec() == n,
    {
        match n {
            0 => Some(NessColour::Neutral),
            1 => Some(NessColour::Yellow),
            2 => Some(NessColour::Blue),
            3 => Some(NessColour::Green),
            _ => None,
        }
    }
}

/// A costume colour of one character.
#[derive(Clone, Copy, Debug, PartialEq, Eq, Hash, Structural)]
pub enum PeachColour {
    Neutral,
    Daisy,
    White,
    Blue,
    Green,
}

impl PeachColour {
    /// The numeric colour index of this costume.
    pub open spec fn index_spec(self) -> u8 {
        match self {
            PeachColour::Neutral => 0,
            PeachColour::Daisy => 1,
            PeachColour::White => 2,
            PeachColour::Blue => 3,
            PeachColour::Green => 4,
        }
    }

    /// Looks a costume up by its numeric colour index.
    pub fn from_u8(n: u8) -> (r: Option<Self>)
        ensures
            r is Some <==> n < 5,
            r matches Some(c) ==> c.index_spec() == n,
    {
        match n {
            0 => Some(PeachColour::Neutral),
            1 => Some(PeachColour::Daisy),
            2 => Some(PeachColour::White),
            3 => Some(PeachColour::Blue),
            4 => Some(PeachColour::Green),
            _ => None,
        }
    }
}

/// A costume colour of one character.
#[derive(Clone, Copy, Debug, PartialEq, Eq, Hash, Structural)]
pub enum PikachuColour {
    Neutral,
    Red,
    PartyHat,
    CowboyHat,
}

impl PikachuColour {
    /// The numeric colour index of this costume.
    pub open spec fn index_spec(self) -> u8 {
        match self {
            PikachuColour::Neutral => 0,
            PikachuColour::Red => 1,
            PikachuColour::PartyHat => 2,
            PikachuColour::CowboyHat => 3,
        }
    }

    /// Looks a costume up by its numeric colour index.
    pub fn from_u8(n: u8) -> (r: Option<Self>)
        ensures
            r is Some <==> n < 4,
            r matches Some(c) ==> c.index_spec() == n,
    {
        match n {
            0 => Some(PikachuColour::Neutral),
            1 => Some(PikachuColour::Red),
            2 => Some(PikachuColour::PartyHat),
            3 => Some(PikachuColour::CowboyHat),
            _ => None,
        }
    }
}

/// A costume colour of one character.
#[derive(Clone, Copy, Debug, PartialEq, Eq, Hash, Structural)]
pub enum IceClimbersColour {
    Neutral,
    Green,
    Orange,
    Red,
}

impl IceClimbersColour {
    /// The numeric colour index of this costume.
    pub open spec fn index_spec(self) -> u8 {
        match self {
            IceClimbersColour::Neutral => 0,
            IceClimbersColour::Green => 1,
            IceClimbersColour::Orange => 2,
            IceClimbersColour::Red => 3,
        }
    }

    /// Looks a costume up by its numeric colour index.
    pub fn from_u8(n: u8) -> (r: Option<Self>)
        ensures
            r is Some <==> n < 4,
            r matches Some(c) ==> c.index_spec() == n,
    {
        match n {
            0 => Some(IceClimbersColour::Neutral),
            1 => Some(IceClimbersColour::Green),
            2 => Some(IceClimbersColour::Orange),
            3 => Some(IceClimbersColour::Red),
            _ => None,
        }
    }
}

/// A costume colour of one character.
#[derive(Clone, Copy, Debug, PartialEq, Eq, Hash, Structural)]
pub enum JigglypuffColour {
    Neutral,
    Red,
    Blue,
    Headband,
    Crown,
}

impl JigglypuffColour {
    /// The numeric colour index of this costume.
    pub open spec fn index_spec(self) -> u8 {
        match self {
            JigglypuffColour::Neutral => 0,
            JigglypuffColour::Red => 1,
            JigglypuffColour::Blue => 2,
            JigglypuffColour::Headband => 3,
            JigglypuffColour::Crown => 4,
        }
    }

    /// Looks a costume up by its numeric colour index.
    pub fn from_u8(n: u8) -> (r: Option<Self>)
        ensures
            r is Some <==> n < 5,
            r matches Some(c) ==> c.index_spec() == n,
    {
        match n {
            0 => Some(JigglypuffColour::Neutral),
            1 => Some(JigglypuffColour::Red),
            2 => Some(JigglypuffColour::Blue),
            3 => Some(JigglypuffColour::Headband),
            4 => Some(JigglypuffColour::Crown),
            _ => None,
        }
    }
}

/// A costume colour of one character.
#[derive(Clone, Copy, Debug, PartialEq, Eq, Hash, Structural)]
pub enum SamusColour {
    Neutral,
    Pink,
    Black,
    Green,
    Purple,
}

impl SamusColour {
    /// The numeric colour index of this costume.
    pub open spec fn index_spec(self) -> u8 {
        match self {
            SamusColour::Neutral => 0,
            SamusColour::Pink => 1,
            SamusColour::Black => 2,
            SamusColour::Green => 3,
            SamusColour::Purple => 4,
        }
    }

    /// Looks a costume up by its numeric colour index.
    pub fn from_u8(n: u8) -> (r: Option<Self>)
        ensures
            r is Some <==> n < 5,
            r matches Some(c) ==> c.index_spec() == n,
    {
        match n {
            0 => Some(SamusColour::Neutral),
            1 => Some(SamusColour::Pink),
            2 => Some(SamusColour::Black),
            3 => Some(SamusColour::Green),
            4 => Some(SamusColour::Purple),
            _ => None,
        }
    }
}

/// A costume colour of one character.
#[derive(Clone, Copy, Debug, PartialEq, Eq, Hash, Structural)]
pub enum YoshiColour {
    Neutral,
    Red,
    Blue,
    Yellow,
    Pink,
    Cyan,
}

impl YoshiColour {
    /// The numeric colour index of this costume.
    pub open spec fn index_spec(self) -> u8 {
        match self {
            YoshiColour::Neutral => 0,
            YoshiColour::Red => 1,
            YoshiColour::Blue => 2,
            YoshiColour::Yellow => 3,
            YoshiColour::Pink => 4,
            YoshiColour::Cyan => 5,
        }
    }

    /// Looks a costume up by its numeric colour index.
    pub fn from_u8(n: u8) -> (r: Option<Self>)
        ensures
            r is Some <==> n < 6,
            r matches Some(c) ==> c.index_spec() == n,
    {
        match n {
            0 => Some(YoshiColour::Neutral),
            1 => Some(YoshiColour::Red),
            2 => Some(YoshiColour::Blue),
            3 => Some(YoshiColour::Yellow),
            4 => Some(YoshiColour::Pink),
            5 => Some(YoshiColour::Cyan),
            _ => None,
        }
    }
}

/// A costume colour of one character.
#[derive(Clone, Copy, Debug, PartialEq, Eq, Hash, Structural)]
pub enum ZeldaColour {
    Neutral,
    Red,
    Blue,
    Green,
    White,
}

impl ZeldaColour {
    /// The numeric colour index of this costume.
    pub open spec fn index_spec(self) -> u8 {
        match self {
            ZeldaColour::Neutral => 0,
            ZeldaColour::Red => 1,
            ZeldaColour::Blue => 2,
            ZeldaColour::Green => 3,
            ZeldaColour::White => 4,
        }
    }

    /// Looks a costume up by its numeric colour index.
    pub fn from_u8(n: u8) -> (r: Option<Self>)
        ensures
            r is Some <==> n < 5,
            r matches Some(c) ==> c.index_spec() == n,
    {
        match n {
            0 => Some(ZeldaColour::Neutral),
            1 => Some(ZeldaColour::Red),
            2 => Some(ZeldaColour::Blue),
            3 => Some(ZeldaColour::Green),
            4 => Some(ZeldaColour::White),
            _ => None,
        }
    }
}

/// A costume colour of one character.
#[derive(Clone, Copy, Debug, PartialEq, Eq, Hash, Structural)]
pub enum FalcoColour {
    Neutral,
    Red,
    Blue,
    Green,
}

impl FalcoColour {
    /// The numeric colour index of this costume.
    pub open spec fn index_spec(self) -> u8 {
        match self {
            FalcoColour::Neutral => 0,
            FalcoColour::Red => 1,
            FalcoColour::Blue => 2,
            FalcoColour::Green => 3,
        }
    }

    /// Looks a costume up by its numeric colour index.
    pub fn from_u8(n: u8) -> (r: Option<Self>)
        ensures
            r is Some <==> n < 4,
            r matches Some(c) ==> c.index_spec() == n,
    {
        match n {
            0 => Some(FalcoColour::Neutral),
            1 => Some(FalcoColour::Red),
            2 => Some(FalcoColour::Blue),
            3 => Some(FalcoColour::Green),
            _ => None,
        }
    }
}

/// A costume colour of one character.
#[derive(Clone, Copy, Debug, PartialEq, Eq, Hash, Structural)]
pub enum YoungLinkColour {
    Neutral,
    Red,
    Blue,
    White,
    Black,
}

impl YoungLinkColour {
    /// The numeric colour index of this costume.
    pub open spec fn index_spec(self) -> u8 {
        match self {
            YoungLinkColour::Neutral => 0,
            YoungLinkColour::Red => 1,
            YoungLinkColour::Blue => 2,
            YoungLinkColour::White => 3,
            YoungLinkColour::Black => 4,
        }
    }

    /// Looks a costume up by its numeric colour index.
    pub fn from_u8(n: u8) -> (r: Option<Self>)
        ensures
            r is Some <==> n < 5,
            r matches Some(c) ==> c.index_spec() == n,
    {
        match n {
            0 => Some(YoungLinkColour::Neutral),
            1 => Some(YoungLinkColour::Red),
            2 => Some(YoungLinkColour::Blue),
            3 => Some(YoungLinkColour::White),
            4 => Some(YoungLinkColour::Black),
            _ => None,
        }
    }
}

/// A costume colour of one character.
#[derive(Clone, Copy, Debug, PartialEq, Eq, Hash, Structural)]
pub enum DrMarioColour {
    Neutral,
    Red,
    Blue,
    Green,
    Black,
}

impl DrMarioColour {
    /// The numeric colour index of this costume.
    pub open spec fn index_spec(self) -> u8 {
        match self {
            DrMarioColour::Neutral => 0,
            DrMarioColour::Red => 1,
            DrMarioColour::Blue => 2,
            DrMarioColour::Green => 3,
            DrMarioColour::Black => 4,
        }
    }

    /// Looks a costume up by its numeric colour index.
    pub fn from_u8(n: u8) -> (r: Option<Self>)
        ensures
            r is Some <==> n < 5,
            r matches Some(c) ==> c.index_spec() == n,
    {
        match n {
            0 => Some(DrMarioColour::Neutral),
            1 => Some(DrMarioColour::Red),
            2 => Some(DrMarioColour::Blue),
            3 => Some(DrMarioColour::Green),
            4 => Some(DrMarioColour::Black),
            _ => None,
        }
    }
}

/// A costume colour of one character.
#[derive(Clone, Copy, Debug, PartialEq, Eq, Hash, Structural)]
pub enum RoyColour {
    Neutral,
    Red,
    Blue,
    Green,
    Yellow,
}

impl RoyColour {
    /// The numeric colour index of this costume.
    pub open spec fn index_spec(self) -> u8 {
        match self {
            RoyColour::Neutral => 0,
            RoyColour::Red => 1,
            RoyColour::Blue => 2,
            RoyColour::Green => 3,
            RoyColour::Yellow => 4,
        }
    }

    /// Looks a costume up by its numeric colour index.
    pub fn from_u8(n: u8) -> (r: Option<Self>)
        ensures
            r is Some <==> n < 5,
            r matches Some(c) ==> c.index_spec() == n,
    {
        match n {
            0 => Some(RoyColour::Neutral),
            1 => Some(RoyColour::Red),
            2 => Some(RoyColour::Blue),
            3 => Some(RoyColour::Green),
            4 => Some(RoyColour::Yellow),
            _ => None,
        }
    }
}

/// A costume colour of one character.
#[derive(Clone, Copy, Debug, PartialEq, Eq, Hash, Structural)]
pub enum PichuColour {
    Neutral,
    Red,
    Blue,
    Green,
}

impl PichuColour {
    /// The numeric colour index of this costume.
    pub open spec fn index_spec(self) -> u8 {
        match self {
            PichuColour::Neutral => 0,
            PichuColour::Red => 1,
            PichuColour::Blue => 2,
            PichuColour::Green => 3,
        }
    }

    /// Looks a costume up by its numeric colour index.
    pub fn from_u8(n: u8) -> (r: Option<Self>)
        ensures
            r is Some <==> n < 4,
            r matches Some(c) ==> c.index_spec() == n,
    {
        match n {
            0 => Some(PichuColour::Neutral),
            1 => Some(PichuColour::Red),
            2 => Some(PichuColour::Blue),
            3 => Some(PichuColour::Green),
            _ => None,
        }
    }
}

/// A costume colour of one character.
#[derive(Clone, Copy, Debug, PartialEq, Eq, Hash, Structural)]
pub enum GanondorfColour {
    Neutral,
    Red,
    Blue,
    Green,
    Purple,
}

impl GanondorfColour {
    /// The numeric colour index of this costume.
    pub open spec fn index_spec(self) -> u8 {
        match self {
            GanondorfColour::Neutral => 0,
            GanondorfColour::Red => 1,
            GanondorfColour::Blue => 2,
            GanondorfColour::Green => 3,
            GanondorfColour::Purple => 4,
        }
    }

    /// Looks a costume up by its numeric colour index.
    pub fn from_u8(n: u8) -> (r: Option<Self>)
        ensures
            r is Some <==> n < 5,
            r matches Some(c) ==> c.index_spec() == n,
    {
        match n {
            0 => Some(GanondorfColour::Neutral),
            1 => Some(GanondorfColour::Red),
            2 => Some(GanondorfColour::Blue),
            3 => Some(GanondorfColour::Green),
            4 => Some(GanondorfColour::Purple),
            _ => None,
        }
    }
}

/// A character together with the costume colour it was picked in.
#[derive(Clone, Copy, Debug, PartialEq, Eq, Hash, Structural)]
pub enum CharacterColour {
    Mario(MarioColour),
    Fox(FoxColour),
    CaptainFalcon(CaptainFalconColour),
    DonkeyKong(DonkeyKongColour),
    Kirby(KirbyColour),
    Bowser(BowserColour),
    Link(LinkColour),
    Sheik(ZeldaColour),
    Ness(NessColour),
    Peach(PeachColour),
    Popo(IceClimbersColour),
    Nana(IceClimbersColour),
    Pikachu(PikachuColour),
    Samus(SamusColour),
    Yoshi(YoshiColour),
    Jigglypuff(JigglypuffColour),
    Mewtwo(MewtwoColour),
    Luigi(LuigiColour),
    Marth(MarthColour),
    Zelda(ZeldaColour),
    YoungLink(YoungLinkColour),
    DrMario(DrMarioColour),
    Falco(FalcoColour),
    Pichu(PichuColour),
    MrGameAndWatch(MrGameAndWatchColour),
    Ganondorf(GanondorfColour),
    Roy(RoyColour),
}

impl CharacterColour {
    /// The character this pick is of, without the colour.
    pub open spec fn character_spec(self) -> Character {
        match self {
            CharacterColour::Mario(_) => Character::Mario,
            CharacterColour::Fox(_) => Character::Fox,
            CharacterColour::CaptainFalcon(_) => Character::CaptainFalcon,
            CharacterColour::DonkeyKong(_) => Character::DonkeyKong,
            CharacterColour::Kirby(_) => Character::Kirby,
            CharacterColour::Bowser(_) => Character::Bowser,
            CharacterColour::Link(_) => Character::Link,
            CharacterColour::Sheik(_) => Character::Sheik,
            CharacterColour::Ness(_) => Character::Ness,
            CharacterColour::Peach(_) => Character::Peach,
            CharacterColour::Popo(_) => Character::Popo,
            CharacterColour::Nana(_) => Character::Nana,
            CharacterColour::Pikachu(_) => Character::Pikachu,
            CharacterColour::Samus(_) => Character::Samus,
            CharacterColour::Yoshi(_) => Character::Yoshi,
            CharacterColour::Jigglypuff(_) => Character::Jigglypuff,
            CharacterColour::Mewtwo(_) => Character::Mewtwo,
            CharacterColour::Luigi(_) => Character::Luigi,
            CharacterColour::Marth(_) => Character::Marth,
            CharacterColour::Zelda(_) => Character::Zelda,
            CharacterColour::YoungLink(_) => Character::YoungLink,
            CharacterColour::DrMario(_) => Character::DrMario,
            CharacterColour::Falco(_) => Character::Falco,
            CharacterColour::Pichu(_) => Character::Pichu,
            CharacterColour::MrGameAndWatch(_) => Character::MrGameAndWatch,
            CharacterColour::Ganondorf(_) => Character::Ganondorf,
            CharacterColour::Roy(_) => Character::Roy,
        }
    }

    /// The numeric colour index of this pick.
    pub open spec fn colour_index_spec(self) -> u8 {
        match self {
            CharacterColour::Mario(c) => c.index_spec(),
            CharacterColour::Fox(c) => c.index_spec(),
            CharacterColour::CaptainFalcon(c) => c.index_spec(),
            CharacterColour::DonkeyKong(c) => c.index_spec(),
            CharacterColour::Kirby(c) => c.index_spec(),
            CharacterColour::Bowser(c) => c.index_spec(),
            CharacterColour::Link(c) => c.index_spec(),
            CharacterColour::Sheik(c) => c.index_spec(),
            CharacterColour::Ness(c) => c.index_spec(),
            CharacterColour::Peach(c) => c.index_spec(),
            CharacterColour::Popo(c) => c.index_spec(),
            CharacterColour::Nana(c) => c.index_spec(),
            CharacterColour::Pikachu(c) => c.index_spec(),
            CharacterColour::Samus(c) => c.index_spec(),
            CharacterColour::Yoshi(c) => c.index_spec(),
            CharacterColour::Jigglypuff(c) => c.index_spec(),
            CharacterColour::Mewtwo(c) => c.index_spec(),
            CharacterColour::Luigi(c) => c.index_spec(),
            CharacterColour::Marth(c) => c.index_spec(),
            CharacterColour::Zelda(c) => c.index_spec(),
            CharacterColour::YoungLink(c) => c.index_spec(),
            CharacterColour::DrMario(c) => c.index_spec(),
            CharacterColour::Falco(c) => c.index_spec(),
            CharacterColour::Pichu(c) => c.index_spec(),
            CharacterColour::MrGameAndWatch(c) => c.index_spec(),
            CharacterColour::Ganondorf(c) => c.index_spec(),
            CharacterColour::Roy(c) => c.index_spec(),
        }
    }

    /// How many costume colours a character has.
    pub open spec fn colour_count_spec(character: Character) -> u8 {
        match character {
            Character::Mario => 5,
            Character::Fox => 4,
            Character::CaptainFalcon => 6,
            Character::DonkeyKong => 5,
            Character::Kirby => 6,
            Character::Bowser => 4,
            Character::Link => 5,
            Character::Sheik => 5,
            Character::Ness => 4,
            Character::Peach => 5,
            Character::Popo => 4,
            Character::Nana => 4,
            Character::Pikachu => 4,
            Character::Samus => 5,
            Character::Yoshi => 6,
            Character::Jigglypuff => 5,
            Character::Mewtwo => 4,
            Character::Luigi => 4,
            Character::Marth => 5,
            Character::Zelda => 5,
            Character::YoungLink => 5,
            Character::DrMario => 5,
            Character::Falco => 4,
            Character::Pichu => 4,
            Character::MrGameAndWatch => 4,
            Character::Ganondorf => 5,
            Character::Roy => 5,
        }
    }

    /// Combines a character with a numeric colour index; indices past the
    /// character's costume list name nothing.
    pub fn from_character_and_colour(character: Character, colour_idx: u8) -> (r: Option<Self>)
        ensures
            r is Some <==> colour_idx < CharacterColour::colour_count_spec(character),
            r matches Some(cc) ==> cc.character_spec() == character
                && cc.colour_index_spec() == colour_idx,
    {
        match character {
            Character::Mario => match MarioColour::from_u8(colour_idx) {
                Some(c) => Some(CharacterColour::Mario(c)),
                None => None,
            },
            Character::Fox => match FoxColour::from_u8(colour_idx) {
                Some(c) => Some(CharacterColour::Fox(c)),
                None => None,
            },
            Character::CaptainFalcon => match CaptainFalconColour::from_u8(colour_idx) {
                Some(c) => Some(CharacterColour::CaptainFalcon(c)),
                None => None,
            },
            Character::DonkeyKong => match DonkeyKongColour::from_u8(colour_idx) {
                Some(c) => Some(CharacterColour::DonkeyKong(c)),
                None => None,
            },
            Character::Kirby => match KirbyColour::from_u8(colour_idx) {
                Some(c) => Some(CharacterColour::Kirby(c)),
                None => None,
            },
            Character::Bowser => match BowserColour::from_u8(colour_idx) {
                Some(c) => Some(CharacterColour::Bowser(c)),
                None => None,
            },
            Character::Link => match LinkColour::from_u8(colour_idx) {
                Some(c) => Some(CharacterColour::Link(c)),
                None => None,
            },
            Character::Sheik => match ZeldaColour::from_u8(colour_idx) {
                Some(c) => Some(CharacterColour::Sheik(c)),
                None => None,
            },
            Character::Ness => match NessColour::from_u8(colour_idx) {
                Some(c) => Some(CharacterColour::Ness(c)),
                None => None,
            },
            Character::Peach => match PeachColour::from_u8(colour_idx) {
                Some(c) => Some(CharacterColour::Peach(c)),
                None => None,
            },
            Character::Popo => match IceClimbersColour::from_u8(colour_idx) {
                Some(c) => Some(CharacterColour::Popo(c)),
                None => None,
            },
            Character::Nana => match IceClimbersColour::from_u8(colour_idx) {
                Some(c) => Some(CharacterColour::Nana(c)),
                None => None,
            },
            Character::Pikachu => match PikachuColour::from_u8(colour_idx) {
                Some(c) => Some(CharacterColour::Pikachu(c)),
                None => None,
            },
            Character::Samus => match SamusColour::from_u8(colour_idx) {
                Some(c) => Some(CharacterColour::Samus(c)),
                None => None,
            },
            Character::Yoshi => match YoshiColour::from_u8(colour_idx) {
                Some(c) => Some(CharacterColour::Yoshi(c)),
                None => None,
            },
            Character::Jigglypuff => match JigglypuffColour::from_u8(colour_idx) {
                Some(c) => Some(CharacterColour::Jigglypuff(c)),
                None => None,
            },
            Character::Mewtwo => match MewtwoColour::from_u8(colour_idx) {
                Some(c) => Some(CharacterColour::Mewtwo(c)),
                None => None,
            },
            Character::Luigi => match LuigiColour::from_u8(colour_idx) {
                Some(c) => Some(CharacterColour::Luigi(c)),
                None => None,
            },
            Character::Marth => match MarthColour::from_u8(colour_idx) {
                Some(c) => Some(CharacterColour::Marth(c)),
                None => None,
            },
            Character::Zelda => match ZeldaColour::from_u8(colour_idx) {
                Some(c) => Some(CharacterColour::Zelda(c)),
                None => None,
            },
            Character::YoungLink => match YoungLinkColour::from_u8(colour_idx) {
                Some(c) => Some(CharacterColour::YoungLink(c)),
                None => None,
            },
            Character::DrMario => match DrMarioColour::from_u8(colour_idx) {
                Some(c) => Some(CharacterColour::DrMario(c)),
                None => None,
            },
            Character::Falco => match FalcoColour::from_u8(colour_idx) {
                Some(c) => Some(CharacterColour::Falco(c)),
                None => None,
            },
            Character::Pichu => match PichuColour::from_u8(colour_idx) {
                Some(c) => Some(CharacterColour::Pichu(c)),
                None => None,
            },
            Character::MrGameAndWatch => match MrGameAndWatchColour::from_u8(colour_idx) {
                Some(c) => Some(CharacterColour::MrGameAndWatch(c)),
                None => None,
            },
            Character::Ganondorf => match GanondorfColour::from_u8(colour_idx) {
                Some(c) => Some(CharacterColour::Ganondorf(c)),
                None => None,
            },
            Character::Roy => match RoyColour::from_u8(colour_idx) {
                Some(c) => Some(CharacterColour::Roy(c)),
                None => None,
            },
        }
    }

    /// The character this pick is of, without the colour.
    pub fn character(self) -> (r: Character)
        ensures
            r == self.character_spec(),
    {
        match self {
            CharacterColour::Mario(_) => Character::Mario,
            CharacterColour::Fox(_) => Character::Fox,
            CharacterColour::CaptainFalcon(_) => Character::CaptainFalcon,
            CharacterColour::DonkeyKong(_) => Character::DonkeyKong,
            CharacterColour::Kirby(_) => Character::Kirby,
            CharacterColour::Bowser(_) => Character::Bowser,
            CharacterColour::Link(_) => Character::Link,
            CharacterColour::Sheik(_) => Character::Sheik,
            CharacterColour::Ness(_) => Character::Ness,
            CharacterColour::Peach(_) => Character::Peach,
            CharacterColour::Popo(_) => Character::Popo,
            CharacterColour::Nana(_) => Character::Nana,
            CharacterColour::Pikachu(_) => Character::Pikachu,
            CharacterColour::Samus(_) => Character::Samus,
            CharacterColour::Yoshi(_) => Character::Yoshi,
            CharacterColour::Jigglypuff(_) => Character::Jigglypuff,
            CharacterColour::Mewtwo(_) => Character::Mewtwo,
            CharacterColour::Luigi(_) => Character::Luigi,
            CharacterColour::Marth(_) => Character::Marth,
            CharacterColour::Zelda(_) => Character::Zelda,
            CharacterColour::YoungLink(_) => Character::YoungLink,
            CharacterColour::DrMario(_) => Character::DrMario,
            CharacterColour::Falco(_) => Character::Falco,
            CharacterColour::Pichu(_) => Character::Pichu,
            CharacterColour::MrGameAndWatch(_) => Character::MrGameAndWatch,
            CharacterColour::Ganondorf(_) => Character::Ganondorf,
            CharacterColour::Roy(_) => Character::Roy,
        }
    }
}

} // verus!

