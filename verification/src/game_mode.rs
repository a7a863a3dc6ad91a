//! The game-mode enumeration as the console and settings surface see it:
//! conversions to and from the wire nibble, the signed settings form, and the
//! names the console accepts.

use vstd::prelude::*;

verus! {

use crate::codec::i8_to_byte;
use crate::packet::{EncodingError, spec_byte_to_i8, spec_i8_to_byte};
use vstd::string::StringExecFns;

/// Game modes: 0..15, where 15 encodes "none (-1)" and 14 is reserved for
/// possible extensions.
#[derive(Clone, Copy, Debug, PartialEq, Eq, Structural)]
pub enum GameMode {
    Legacy,
    HideAndSeek,
    Sardines,
    FreezeTag,
    Unknown04,
    Unknown05,
    Unknown06,
    Unknown07,
    Unknown08,
    Unknown09,
    Unknown10,
    Unknown11,
    Unknown12,
    Unknown13,
    Reserved,
    NoneMode,
}

pub open spec fn spec_mode_from_u8(x: u8) -> GameMode {
    if x == 0 {
        GameMode::Legacy
    } else if x == 1 {
        GameMode::HideAndSeek
    } else if x == 2 {
        GameMode::Sardines
    } else if x == 3 {
        GameMode::FreezeTag
    } else if x == 4 {
        GameMode::Unknown04
    } else if x == 5 {
        GameMode::Unknown05
    } else if x == 6 {
        GameMode::Unknown06
    } else if x == 7 {
        GameMode::Unknown07
    } else if x == 8 {
        GameMode::Unknown08
    } else if x == 9 {
        GameMode::Unknown09
    } else if x == 10 {
        GameMode::Unknown10
    } else if x == 11 {
        GameMode::Unknown11
    } else if x == 12 {
        GameMode::Unknown12
    } else if x == 13 {
        GameMode::Unknown13
    } else if x == 14 {
        GameMode::Reserved
    } else {
        GameMode::NoneMode
    }
}

pub open spec fn spec_mode_to_u8(x: GameMode) -> u8 {
    match x {
        GameMode::Legacy => 0,
        GameMode::HideAndSeek => 1,
        GameMode::Sardines => 2,
        GameMode::FreezeTag => 3,
        GameMode::Unknown04 => 4,
        GameMode::Unknown05 => 5,
        GameMode::Unknown06 => 6,
        GameMode::Unknown07 => 7,
        GameMode::Unknown08 => 8,
        GameMode::Unknown09 => 9,
        GameMode::Unknown10 => 10,
        GameMode::Unknown11 => 11,
        GameMode::Unknown12 => 12,
        GameMode::Unknown13 => 13,
        GameMode::Reserved => 14,
        GameMode::NoneMode => 15,
    }
}

/// The signed settings form: 15 (none) reads back as -1, every other mode as
/// its nibble.
pub open spec fn spec_mode_to_i8(x: GameMode) -> i8 {
    if x == GameMode::NoneMode {
        -1i8
    } else {
        spec_mode_to_u8(x) as i8
    }
}

/// The names and numbers the console accepts for a mode.
pub open spec fn spec_mode_parse(s: Seq<char>) -> Option<GameMode> {
    if s == "-1"@ || s == "None"@ {
        Option::Some(GameMode::NoneMode)
    } else if s == "0"@ || s == "Legacy"@ {
        Option::Some(GameMode::Legacy)
    } else if s == "1"@ || s == "HideAndSeek"@ {
        Option::Some(GameMode::HideAndSeek)
    } else if s == "2"@ || s == "Sardines"@ {
        Option::Some(GameMode::Sardines)
    } else if s == "3"@ || s == "FreezeTag"@ {
        Option::Some(GameMode::FreezeTag)
    } else if s == "4"@ {
        Option::Some(GameMode::Unknown04)
    } else if s == "5"@ {
        Option::Some(GameMode::Unknown05)
    } else if s == "6"@ {
        Option::Some(GameMode::Unknown06)
    } else if s == "7"@ {
        Option::Some(GameMode::Unknown07)
    } else if s == "8"@ {
        Option::Some(GameMode::Unknown08)
    } else if s == "9"@ {
        Option::Some(GameMode::Unknown09)
    } else if s == "10"@ {
        Option::Some(GameMode::Unknown10)
    } else if s == "11"@ {
        Option::Some(GameMode::Unknown11)
    } else if s == "12"@ {
        Option::Some(GameMode::Unknown12)
    } else if s == "13"@ {
        Option::Some(GameMode::Unknown13)
    } else if s == "14"@ {
        Option::Some(GameMode::Reserved)
    } else {
        Option::None
    }
}

impl GameMode {
    /// The mode a nibble encodes.
    pub fn from_u8(x: u8) -> (r: GameMode)
        ensures
            r == spec_mode_from_u8(x),
    {
        match x {
            0 => GameMode::Legacy,
            1 => GameMode::HideAndSeek,
            2 => GameMode::Sardines,
            3 => GameMode::FreezeTag,
            4 => GameMode::Unknown04,
            5 => GameMode::Unknown05,
            6 => GameMode::Unknown06,
            7 => GameMode::Unknown07,
            8 => GameMode::Unknown08,
            9 => GameMode::Unknown09,
            10 => GameMode::Unknown10,
            11 => GameMode::Unknown11,
            12 => GameMode::Unknown12,
            13 => GameMode::Unknown13,
            14 => GameMode::Reserved,
            _ => GameMode::NoneMode,
        }
    }

    /// The nibble a mode encodes to.
    pub fn to_u8(x: GameMode) -> (r: u8)
        ensures
            r == spec_mode_to_u8(x),
    {
        match x {
            GameMode::Legacy => 0,
            GameMode::HideAndSeek => 1,
            GameMode::Sardines => 2,
            GameMode::FreezeTag => 3,
            GameMode::Unknown04 => 4,
            GameMode::Unknown05 => 5,
            GameMode::Unknown06 => 6,
            GameMode::Unknown07 => 7,
            GameMode::Unknown08 => 8,
            GameMode::Unknown09 => 9,
            GameMode::Unknown10 => 10,
            GameMode::Unknown11 => 11,
            GameMode::Unknown12 => 12,
            GameMode::Unknown13 => 13,
            GameMode::Reserved => 14,
            GameMode::NoneMode => 15,
        }
    }

    /// The mode of a signed settings value: only its low nibble counts.
    pub fn from_i8(x: i8) -> (r: GameMode)
        ensures
            r == spec_mode_from_u8(spec_i8_to_byte(x) & 0x0f),
    {
        GameMode::from_u8(i8_to_byte(x) & 0x0f)
    }

    /// The signed settings value of a mode: -1 for none, the nibble otherwise.
    pub fn to_i8(x: GameMode) -> (r: i8)
        ensures
            r == spec_mode_to_i8(x),
    {
        match x {
            GameMode::NoneMode => -1,
            _ => GameMode::to_u8(x) as i8,
        }
    }

    /// Parse a console name or number for a mode.
    pub fn from_str(input: &str) -> (r: Result<GameMode, EncodingError>)
        ensures
            match spec_mode_parse(input@) {
                Option::Some(m) => r == Result::<GameMode, EncodingError>::Ok(m),
                Option::None => r == Result::<GameMode, EncodingError>::Err(
                    EncodingError::CustomError,
                ),
            },
    {
        let s = String::from_str(input);
        let m = if str_is(&s, "-1") || str_is(&s, "None") {
            Some(GameMode::NoneMode)
        } else if str_is(&s, "0") || str_is(&s, "Legacy") {
            Some(GameMode::Legacy)
        } else if str_is(&s, "1") || str_is(&s, "HideAndSeek") {
            Some(GameMode::HideAndSeek)
        } else if str_is(&s, "2") || str_is(&s, "Sardines") {
            Some(GameMode::Sardines)
        } else if str_is(&s, "3") || str_is(&s, "FreezeTag") {
            Some(GameMode::FreezeTag)
        } else if str_is(&s, "4") {
            Some(GameMode::Unknown04)
        } else if str_is(&s, "5") {
            Some(GameMode::Unknown05)
        } else if str_is(&s, "6") {
            Some(GameMode::Unknown06)
        } else if str_is(&s, "7") {
            Some(GameMode::Unknown07)
        } else if str_is(&s, "8") {
            Some(GameMode::Unknown08)
        } else if str_is(&s, "9") {
            Some(GameMode::Unknown09)
        } else if str_is(&s, "10") {
            Some(GameMode::Unknown10)
        } else if str_is(&s, "11") {
            Some(GameMode::Unknown11)
        } else if str_is(&s, "12") {
            Some(GameMode::Unknown12)
        } else if str_is(&s, "13") {
            Some(GameMode::Unknown13)
        } else if str_is(&s, "14") {
            Some(GameMode::Reserved)
        } else {
            None
        };
        match m {
            Some(mode) => Result::Ok(mode),
            None => Result::Err(EncodingError::CustomError),
        }
    }
}

/// Whether a string holds exactly this literal text.
fn str_is(s: &String, lit: &str) -> (r: bool)
    ensures
        r == (s@ == lit@),
{
    s.eq(&String::from_str(lit))
}

} // verus!
