use vstd::prelude::*;

verus! {

/// The icons the engine can show beside a frame, each under its numeric code.
#[derive(Clone, Copy, Debug, PartialEq, Eq, Structural)]
pub enum Icon {
    NoIcon,
    HealthA,
    Armor,
    Ammo,
    Money,
    Flashbang,
    KillsA,
    Headshot,
    Helmet,
    Hunger,
    Air,
    Compass,
    Tool,
    ManaA,
    Clock,
    Lightning,
    Backpack,
    AtSymbol,
    Muted,
    Talking,
    Connect,
    Disconnect,
    Music,
    Play,
    Pause,
    CPU,
    GPU,
    RAM,
    Assists,
    CreepScore,
    Dead,
    Dragon,
    Enemies,
    GameStart,
    Gold,
    HealthB,
    KillsB,
    ManaB,
    Teammates,
    Timer,
    Temperature,
}

impl Icon {
    /// The numeric code under which the engine knows the icon.
    pub open spec fn spec_code(self) -> u8 {
        match self {
            Icon::NoIcon => 0,
            Icon::HealthA => 1,
            Icon::Armor => 2,
            Icon::Ammo => 3,
            Icon::Money => 4,
            Icon::Flashbang => 5,
            Icon::KillsA => 6,
            Icon::Headshot => 7,
            Icon::Helmet => 8,
            Icon::Hunger => 10,
            Icon::Air => 11,
            Icon::Compass => 12,
            Icon::Tool => 13,
            Icon::ManaA => 14,
            Icon::Clock => 15,
            Icon::Lightning => 16,
            Icon::Backpack => 17,
            Icon::AtSymbol => 18,
            Icon::Muted => 19,
            Icon::Talking => 20,
            Icon::Connect => 21,
            Icon::Disconnect => 22,
            Icon::Music => 23,
            Icon::Play => 24,
            Icon::Pause => 25,
            Icon::CPU => 27,
            Icon::GPU => 28,
            Icon::RAM => 29,
            Icon::Assists => 30,
            Icon::CreepScore => 31,
            Icon::Dead => 32,
            Icon::Dragon => 33,
            Icon::Enemies => 35,
            Icon::GameStart => 36,
            Icon::Gold => 37,
            Icon::HealthB => 38,
            Icon::KillsB => 39,
            Icon::ManaB => 40,
            Icon::Teammates => 41,
            Icon::Timer => 42,
            Icon::Temperature => 43,
        }
    }

    /// The icon with numeric code `n`, if any.
    pub open spec fn spec_from_code(n: int) -> Option<Icon> {
        if n == 0 {
            Some(Icon::NoIcon)
        } else if n == 1 {
            Some(Icon::HealthA)
        } else if n == 2 {
            Some(Icon::Armor)
        } else if n == 3 {
            Some(Icon::Ammo)
        } else if n == 4 {
            Some(Icon::Money)
        } else if n == 5 {
            Some(Icon::Flashbang)
        } else if n == 6 {
            Some(Icon::KillsA)
        } else if n == 7 {
            Some(Icon::Headshot)
        } else if n == 8 {
            Some(Icon::Helmet)
        } else if n == 10 {
            Some(Icon::Hunger)
        } else if n == 11 {
            Some(Icon::Air)
        } else if n == 12 {
            Some(Icon::Compass)
        } else if n == 13 {
            Some(Icon::Tool)
        } else if n == 14 {
            Some(Icon::ManaA)
        } else if n == 15 {
            Some(Icon::Clock)
        } else if n == 16 {
            Some(Icon::Lightning)
        } else if n == 17 {
            Some(Icon::Backpack)
        } else if n == 18 {
            Some(Icon::AtSymbol)
        } else if n == 19 {
            Some(Icon::Muted)
        } else if n == 20 {
            Some(Icon::Talking)
        } else if n == 21 {
            Some(Icon::Connect)
        } else if n == 22 {
            Some(Icon::Disconnect)
        } else if n == 23 {
            Some(Icon::Music)
        } else if n == 24 {
            Some(Icon::Play)
        } else if n == 25 {
            Some(Icon::Pause)
        } else if n == 27 {
            Some(Icon::CPU)
        } else if n == 28 {
            Some(Icon::GPU)
        } else if n == 29 {
            Some(Icon::RAM)
        } else if n == 30 {
            Some(Icon::Assists)
        } else if n == 31 {
            Some(Icon::CreepScore)
        } else if n == 32 {
            Some(Icon::Dead)
        } else if n == 33 {
            Some(Icon::Dragon)
        } else if n == 35 {
            Some(Icon::Enemies)
        } else if n == 36 {
            Some(Icon::GameStart)
        } else if n == 37 {
            Some(Icon::Gold)
        } else if n == 38 {
            Some(Icon::HealthB)
        } else if n == 39 {
            Some(Icon::KillsB)
        } else if n == 40 {
            Some(Icon::ManaB)
        } else if n == 41 {
            Some(Icon::Teammates)
        } else if n == 42 {
            Some(Icon::Timer)
        } else if n == 43 {
            Some(Icon::Temperature)
        } else {
            None
        }
    }

    pub fn code(self) -> (r: u8)
        ensures
            r == self.spec_code(),
    {
        match self {
            Icon::NoIcon => 0,
            Icon::HealthA => 1,
            Icon::Armor => 2,
            Icon::Ammo => 3,
            Icon::Money => 4,
            Icon::Flashbang => 5,
            Icon::KillsA => 6,
            Icon::Headshot => 7,
            Icon::Helmet => 8,
            Icon::Hunger => 10,
            Icon::Air => 11,
            Icon::Compass => 12,
            Icon::Tool => 13,
            Icon::ManaA => 14,
            Icon::Clock => 15,
            Icon::Lightning => 16,
            Icon::Backpack => 17,
            Icon::AtSymbol => 18,
            Icon::Muted => 19,
            Icon::Talking => 20,
            Icon::Connect => 21,
            Icon::Disconnect => 22,
            Icon::Music => 23,
            Icon::Play => 24,
            Icon::Pause => 25,
            Icon::CPU => 27,
            Icon::GPU => 28,
            Icon::RAM => 29,
            Icon::Assists => 30,
            Icon::CreepScore => 31,
            Icon::Dead => 32,
            Icon::Dragon => 33,
            Icon::Enemies => 35,
            Icon::GameStart => 36,
            Icon::Gold => 37,
            Icon::HealthB => 38,
            Icon::KillsB => 39,
            Icon::ManaB => 40,
            Icon::Teammates => 41,
            Icon::Timer => 42,
            Icon::Temperature => 43,
        }
    }

    pub fn from_code(n: i64) -> (r: Option<Icon>)
        ensures
            r == Icon::spec_from_code(n as int),
    {
        match n {
            0 => Some(Icon::NoIcon),
            1 => Some(Icon::HealthA),
            2 => Some(Icon::Armor),
            3 => Some(Icon::Ammo),
            4 => Some(Icon::Money),
            5 => Some(Icon::Flashbang),
            6 => Some(Icon::KillsA),
            7 => Some(Icon::Headshot),
            8 => Some(Icon::Helmet),
            10 => Some(Icon::Hunger),
            11 => Some(Icon::Air),
            12 => Some(Icon::Compass),
            13 => Some(Icon::Tool),
            14 => Some(Icon::ManaA),
            15 => Some(Icon::Clock),
            16 => Some(Icon::Lightning),
            17 => Some(Icon::Backpack),
            18 => Some(Icon::AtSymbol),
            19 => Some(Icon::Muted),
            20 => Some(Icon::Talking),
            21 => Some(Icon::Connect),
            22 => Some(Icon::Disconnect),
            23 => Some(Icon::Music),
            24 => Some(Icon::Play),
            25 => Some(Icon::Pause),
            27 => Some(Icon::CPU),
            28 => Some(Icon::GPU),
            29 => Some(Icon::RAM),
            30 => Some(Icon::Assists),
            31 => Some(Icon::CreepScore),
            32 => Some(Icon::Dead),
            33 => Some(Icon::Dragon),
            35 => Some(Icon::Enemies),
            36 => Some(Icon::GameStart),
            37 => Some(Icon::Gold),
            38 => Some(Icon::HealthB),
            39 => Some(Icon::KillsB),
            40 => Some(Icon::ManaB),
            41 => Some(Icon::Teammates),
            42 => Some(Icon::Timer),
            43 => Some(Icon::Temperature),
            _ => None,
        }
    }
}

/// Every icon is found again from its code.
pub proof fn lemma_icon_code_round_trip(i: Icon)
    ensures
        Icon::spec_from_code(i.spec_code() as int) == Some(i),
{
}

} // verus!
