use vstd::prelude::*;

verus! {

/// The views that the emulator can show.
#[derive(Clone, Copy, Debug, PartialEq, Eq, Structural)]
pub enum ViewType {
    OpenRom,
}

/// A request that a view raises and the emulator carries out.
#[derive(Clone, Debug, PartialEq, Eq)]
pub enum Action {
    CloseView,
    Tab,
    SelectPath,
    SelectUp,
    SelectDown,
    SelectLeft,
    SelectRight,
    LoadRom(String),
}

} // verus!
