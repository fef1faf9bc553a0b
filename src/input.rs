use vstd::prelude::*;

verus! {

/// A key press, as far as the extensions tell keys apart. Keys pressed with a
/// modifier are `Other`.
#[derive(Debug, Clone, Copy, PartialEq, Eq, Structural)]
pub enum KeyInput {
    Up,
    Down,
    Enter,
    Esc,
    Char(char),
    Other,
}

} // verus!
