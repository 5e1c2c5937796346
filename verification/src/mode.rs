//! The operating modes of the detector.

use vstd::prelude::*;
use vstd::std_specs::convert::TryFromSpecImpl;

verus! {

/// How restrictive the detector is in reporting speech.
///
/// A more aggressive mode reports speech less readily: a frame that is
/// reported as voice is more likely to be voice, and more voice is missed.
#[derive(Debug, Clone, Copy, PartialEq, Eq, Structural)]
pub enum Mode {
    Quality,
    LowBitrate,
    Aggressive,
    VeryAggressive,
}

impl Mode {
    /// The number by which the engine knows this mode.
    pub open spec fn ordinal_spec(self) -> int {
        match self {
            Mode::Quality => 0,
            Mode::LowBitrate => 1,
            Mode::Aggressive => 2,
            Mode::VeryAggressive => 3,
        }
    }

    /// The mode that the engine knows by `n`, if there is one.
    pub open spec fn from_ordinal_spec(n: int) -> Option<Mode> {
        if n == 0 {
            Some(Mode::Quality)
        } else if n == 1 {
            Some(Mode::LowBitrate)
        } else if n == 2 {
            Some(Mode::Aggressive)
        } else if n == 3 {
            Some(Mode::VeryAggressive)
        } else {
            None
        }
    }

    /// The number to hand to the engine for this mode.
    pub fn ordinal(&self) -> (n: i32)
        ensures
            n == self.ordinal_spec(),
    {
        match self {
            Mode::Quality => 0,
            Mode::LowBitrate => 1,
            Mode::Aggressive => 2,
            Mode::VeryAggressive => 3,
        }
    }
}

impl Default for Mode {
    /// The mode of a session that has not been configured.
    fn default() -> (mode: Mode)
        ensures
            mode == Mode::Quality,
    {
        Mode::Quality
    }
}

impl TryFrom<i32> for Mode {
    type Error = ();

    /// Admits the four ordinals that name a mode and no other number.
    fn try_from(n: i32) -> (res: Result<Mode, ()>)
        ensures
            res is Ok <==> 0 <= n <= 3,
            res matches Ok(mode) ==> mode.ordinal_spec() == n,
    {
        match n {
            0 => Ok(Mode::Quality),
            1 => Ok(Mode::LowBitrate),
            2 => Ok(Mode::Aggressive),
            3 => Ok(Mode::VeryAggressive),
            _ => Err(()),
        }
    }
}

impl TryFromSpecImpl<i32> for Mode {
    open spec fn obeys_try_from_spec() -> bool {
        true
    }

    open spec fn try_from_spec(n: i32) -> Result<Mode, ()> {
        match Mode::from_ordinal_spec(n as int) {
            Some(mode) => Ok(mode),
            None => Err(()),
        }
    }
}

/// The ordinals name the modes one for one: a mode is found again by its
/// ordinal, and a number that names a mode is the ordinal of that mode.
pub proof fn lemma_ordinal_names_mode(mode: Mode, n: int)
    ensures
        Mode::from_ordinal_spec(mode.ordinal_spec()) == Some(mode),
        Mode::from_ordinal_spec(n) == Some(mode) <==> n == mode.ordinal_spec(),
        Mode::from_ordinal_spec(n) is Some <==> 0 <= n <= 3,
{
}

} // verus!
