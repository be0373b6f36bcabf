//! The keys pressed this frame, as the menus and tables read them.
use vstd::prelude::*;

verus! {

/// Which keys were pressed this frame.
#[derive(Clone, Copy, Debug, PartialEq, Eq, Structural)]
pub struct PressedKeys {
    pub digit1: bool,
    pub digit2: bool,
    pub digit3: bool,
    pub digit4: bool,
    pub digit5: bool,
    pub key_w: bool,
    pub key_s: bool,
    pub key_h: bool,
    pub arrow_up: bool,
    pub arrow_down: bool,
    pub enter: bool,
    pub space: bool,
    pub escape: bool,
    pub backspace: bool,
    /// Whether any key at all was pressed.
    pub any: bool,
}

impl PressedKeys {
    /// No key pressed.
    pub fn none() -> (k: PressedKeys)
        ensures
            !k.digit1 && !k.digit2 && !k.digit3 && !k.digit4 && !k.digit5,
            !k.key_w && !k.key_s && !k.key_h && !k.arrow_up && !k.arrow_down,
            !k.enter && !k.space && !k.escape && !k.backspace && !k.any,
    {
        PressedKeys {
            digit1: false,
            digit2: false,
            digit3: false,
            digit4: false,
            digit5: false,
            key_w: false,
            key_s: false,
            key_h: false,
            arrow_up: false,
            arrow_down: false,
            enter: false,
            space: false,
            escape: false,
            backspace: false,
            any: false,
        }
    }
}

} // verus!
