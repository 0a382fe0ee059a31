use vstd::prelude::*;
use vstd::string::*;

verus! {

/// The ruleset a beatmap is played in.
#[derive(Debug, Clone, Copy, PartialEq, Eq, Structural)]
pub enum GameMode {
    Osu,
    Taiko,
    Catch,
    Mania,
}

/// The wire code of each mode: 0 osu, 1 taiko, 2 catch, 3 mania.
pub open spec fn mode_code(m: GameMode) -> u8 {
    match m {
        GameMode::Osu => 0,
        GameMode::Taiko => 1,
        GameMode::Catch => 2,
        GameMode::Mania => 3,
    }
}

/// The mode that a wire code stands for; codes above 3 stand for none.
pub open spec fn mode_of_code(code: u8) -> Option<GameMode> {
    if code == 0 {
        Some(GameMode::Osu)
    } else if code == 1 {
        Some(GameMode::Taiko)
    } else if code == 2 {
        Some(GameMode::Catch)
    } else if code == 3 {
        Some(GameMode::Mania)
    } else {
        None
    }
}

/// The lower-case name of each mode.
pub open spec fn mode_name(m: GameMode) -> Seq<char> {
    match m {
        GameMode::Osu => "osu"@,
        GameMode::Taiko => "taiko"@,
        GameMode::Catch => "catch"@,
        GameMode::Mania => "mania"@,
    }
}

impl Default for GameMode {
    fn default() -> (r: GameMode)
        ensures
            r == GameMode::Osu,
    {
        GameMode::Osu
    }
}

impl GameMode {
    /// Decodes a wire code. An unknown code is rejected rather than guessed.
    pub fn from_code(code: u8) -> (r: Option<GameMode>)
        ensures
            r == mode_of_code(code),
    {
        match code {
            0 => Some(GameMode::Osu),
            1 => Some(GameMode::Taiko),
            2 => Some(GameMode::Catch),
            3 => Some(GameMode::Mania),
            _ => None,
        }
    }

    /// The wire code of this mode.
    pub fn code(self) -> (r: u8)
        ensures
            r == mode_code(self),
            mode_of_code(r) == Some(self),
    {
        match self {
            GameMode::Osu => 0,
            GameMode::Taiko => 1,
            GameMode::Catch => 2,
            GameMode::Mania => 3,
        }
    }

    /// The mode's lower-case name, as shown in rendered text.
    pub fn to_string(&self) -> (r: String)
        ensures
            r@ == mode_name(*self),
    {
        match self {
            GameMode::Osu => String::from_str("osu"),
            GameMode::Taiko => String::from_str("taiko"),
            GameMode::Catch => String::from_str("catch"),
            GameMode::Mania => String::from_str("mania"),
        }
    }
}

/// Decoding the code of a mode gives the mode back.
pub proof fn lemma_mode_code_round_trip(m: GameMode)
    ensures
        mode_of_code(mode_code(m)) == Some(m),
{
}

} // verus!
