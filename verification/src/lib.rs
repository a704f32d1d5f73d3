use vstd::prelude::*;

pub mod action;
pub mod paths;
pub mod keybinding;
pub mod draw;
pub mod event;
pub mod open_rom;
pub mod laws;

verus! {

/// An error of the emulator, described for the user.
#[derive(Clone, Debug, PartialEq, Eq)]
pub struct NesErr {
    pub description: String,
}

/// The result type of the emulator's fallible operations.
pub type NesResult<T> = Result<T, NesErr>;

} // verus!
