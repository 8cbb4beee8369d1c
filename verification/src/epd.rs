//! Refresh-quality modes of slow-refresh panels.

use vstd::prelude::*;

verus! {

/// Refresh quality of a slow-refresh panel, from best fidelity to highest
/// speed.
#[derive(Debug, Clone, Copy, PartialEq, Eq, Structural)]
pub enum EpdMode {
    Quality,
    Text,
    Fast,
    Fastest,
}

/// The number by which the primitive layer knows a mode.
pub open spec fn mode_code(mode: EpdMode) -> u32 {
    match mode {
        EpdMode::Quality => 1,
        EpdMode::Text => 2,
        EpdMode::Fast => 3,
        EpdMode::Fastest => 4,
    }
}

/// The mode that a number of the primitive layer stands for, if any.
pub open spec fn mode_of_code(code: u32) -> Option<EpdMode> {
    if code == 1 {
        Some(EpdMode::Quality)
    } else if code == 2 {
        Some(EpdMode::Text)
    } else if code == 3 {
        Some(EpdMode::Fast)
    } else if code == 4 {
        Some(EpdMode::Fastest)
    } else {
        None
    }
}

impl EpdMode {
    /// Reads a mode number. Any number but the four known ones is refused,
    /// never coerced to a mode.
    pub fn try_from(value: u32) -> (mode: Result<EpdMode, ()>)
        ensures
            mode == match mode_of_code(value) {
                Some(m) => Ok::<EpdMode, ()>(m),
                None => Err::<EpdMode, ()>(()),
            },
    {
        if value == 1 {
            Ok(EpdMode::Quality)
        } else if value == 2 {
            Ok(EpdMode::Text)
        } else if value == 3 {
            Ok(EpdMode::Fast)
        } else if value == 4 {
            Ok(EpdMode::Fastest)
        } else {
            Err(())
        }
    }

    /// The number of this mode.
    pub fn code(self) -> (code: u32)
        ensures
            code == mode_code(self),
    {
        match self {
            EpdMode::Quality => 1,
            EpdMode::Text => 2,
            EpdMode::Fast => 3,
            EpdMode::Fastest => 4,
        }
    }
}

impl From<EpdMode> for u32 {
    fn from(value: EpdMode) -> (code: u32) {
        value.code()
    }
}

impl vstd::std_specs::convert::FromSpecImpl<EpdMode> for u32 {
    open spec fn obeys_from_spec() -> bool {
        true
    }

    open spec fn from_spec(value: EpdMode) -> u32 {
        mode_code(value)
    }
}

/// Every mode is read back from its own number, and a number that is read as
/// a mode is that mode's number.
pub proof fn lemma_mode_code_round_trip(mode: EpdMode, code: u32)
    ensures
        mode_of_code(mode_code(mode)) == Some(mode),
        mode_of_code(code) == Some(mode) ==> mode_code(mode) == code,
        1 <= mode_code(mode) <= 4,
{
}

} // verus!
