use vstd::prelude::*;
use crate::action::{Action, ViewType};

verus! {

/// The keys that the views bind.
#[derive(Clone, Copy, Debug, PartialEq, Eq, Structural)]
pub enum Key {
    Ctrl,
    Escape,
    O,
    Tab,
    Return,
    Up,
    Down,
    Left,
    Right,
}

/// A user event: a key, whether it went down (`true`) or up, and whether it
/// is a key repeat.
#[derive(Clone, Copy, Debug, PartialEq, Eq, Structural)]
pub enum InputEvent {
    KeyPress(Key, bool, bool),
}

/// A mapping of a user event to a UI action
#[derive(Clone, Debug)]
pub struct Keybind {
    pub event: InputEvent,
    pub view_type: ViewType,
    pub modifiers: Vec<InputEvent>,
    pub action: Action,
}

impl Keybind {
    /// Whether this binding maps `event` with `modifiers` in the view `view_type`
    /// to `action`.
    pub open spec fn binds(self, event: InputEvent, view_type: ViewType, modifiers: Seq<InputEvent>, action: Action) -> bool {
        &&& self.event == event
        &&& self.view_type == view_type
        &&& self.modifiers@ == modifiers
        &&& self.action == action
    }

    pub fn new(event: InputEvent, view_type: ViewType, modifiers: &[InputEvent], action: Action) -> (bind: Self)
        ensures
            bind.binds(event, view_type, modifiers@, action),
    {
        Keybind { event, view_type, modifiers: vstd::slice::slice_to_vec(modifiers), action }
    }
}

/// Whether `bind` maps `event` in the view `view_type` while the keys `held`
/// are down: the event and the view are its own, and each of its modifiers is
/// held.
pub open spec fn binding_matches(bind: Keybind, event: InputEvent, view_type: ViewType, held: Seq<InputEvent>) -> bool {
    &&& bind.event == event
    &&& bind.view_type == view_type
    &&& forall|j: int| 0 <= j < bind.modifiers@.len() ==> held.contains(#[trigger] bind.modifiers@[j])
}

/// Whether `key` is among `held`.
fn is_held(held: &Vec<InputEvent>, key: InputEvent) -> (r: bool)
    ensures
        r == held@.contains(key),
{
    let mut i: usize = 0;
    while i < held.len()
        invariant
            i <= held@.len(),
            forall|j: int| 0 <= j < i ==> held@[j] != key,
        decreases held.len() - i,
    {
        if held[i] == key {
            return true;
        }
        i = i + 1;
    }
    false
}

/// Whether each modifier of `bind` is among `held`.
fn modifiers_held(bind: &Keybind, held: &Vec<InputEvent>) -> (r: bool)
    ensures
        r == (forall|j: int| 0 <= j < bind.modifiers@.len() ==> held@.contains(#[trigger] bind.modifiers@[j])),
{
    let mut i: usize = 0;
    while i < bind.modifiers.len()
        invariant
            i <= bind.modifiers@.len(),
            forall|j: int| 0 <= j < i ==> held@.contains(#[trigger] bind.modifiers@[j]),
        decreases bind.modifiers.len() - i,
    {
        if !is_held(held, bind.modifiers[i]) {
            return false;
        }
        i = i + 1;
    }
    true
}

/// The first of `binds` that maps `event` in the view `view_type` while the
/// keys `held` are down, by its index; `None` when none does.
pub fn match_keybinding(binds: &Vec<Keybind>, event: InputEvent, view_type: ViewType, held: &Vec<InputEvent>) -> (r: Option<usize>)
    ensures
        match r {
            Some(i) => i < binds@.len() && binding_matches(binds@[i as int], event, view_type, held@)
                && forall|j: int| 0 <= j < i ==> !binding_matches(#[trigger] binds@[j], event, view_type, held@),
            None => forall|j: int| 0 <= j < binds@.len() ==> !binding_matches(#[trigger] binds@[j], event, view_type, held@),
        },
{
    let mut i: usize = 0;
    while i < binds.len()
        invariant
            i <= binds@.len(),
            forall|j: int| 0 <= j < i ==> !binding_matches(#[trigger] binds@[j], event, view_type, held@),
        decreases binds.len() - i,
    {
        let bind = &binds[i];
        if bind.event == event && bind.view_type == view_type && modifiers_held(bind, held) {
            return Some(i);
        }
        i = i + 1;
    }
    None
}

} // verus!
