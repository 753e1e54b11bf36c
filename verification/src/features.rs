use vstd::prelude::*;

verus! {

/// The optional parts of the library that a build enables.
///
/// `crossterm` draws to the terminal through crossterm, `windowed` renders the terminal into a
/// window instead, `keyboard` forwards terminal input to Bevy's input system and `mouse` captures
/// the mouse.
#[derive(Clone, Copy, Debug, PartialEq, Eq, Structural)]
pub struct Features {
    pub crossterm: bool,
    pub windowed: bool,
    pub keyboard: bool,
    pub mouse: bool,
}

} // verus!
