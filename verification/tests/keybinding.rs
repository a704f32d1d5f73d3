use tetanes::action::{Action, ViewType};
use tetanes::keybinding::{match_keybinding, InputEvent, Key, Keybind};
use tetanes::open_rom::OpenRomView;

#[test]
fn new_keeps_all_parts() {
    let ctrl = InputEvent::KeyPress(Key::Ctrl, true, false);
    let bind = Keybind::new(InputEvent::KeyPress(Key::O, true, false), ViewType::OpenRom, &[ctrl], Action::CloseView);
    assert_eq!(bind.event, InputEvent::KeyPress(Key::O, true, false));
    assert_eq!(bind.view_type, ViewType::OpenRom);
    assert_eq!(bind.modifiers, vec![ctrl]);
    assert_eq!(bind.action, Action::CloseView);
}

#[test]
fn default_keybindings_of_open_rom_view() {
    let binds = OpenRomView::default_keybindings();
    assert_eq!(binds.len(), 12);
    assert!(binds.iter().all(|b| b.view_type == ViewType::OpenRom));
    assert_eq!(binds[0].event, InputEvent::KeyPress(Key::Escape, true, false));
    assert_eq!(binds[0].action, Action::CloseView);
    assert_eq!(binds[1].event, InputEvent::KeyPress(Key::O, true, false));
    assert_eq!(binds[1].modifiers, vec![InputEvent::KeyPress(Key::Ctrl, true, false)]);
    assert_eq!(binds[1].action, Action::CloseView);
    assert_eq!(binds[2].action, Action::Tab);
    assert_eq!(binds[3].event, InputEvent::KeyPress(Key::Return, true, false));
    assert_eq!(binds[3].action, Action::SelectPath);
    assert_eq!(binds[4].event, InputEvent::KeyPress(Key::Up, true, true));
    assert_eq!(binds[4].action, Action::SelectUp);
    assert_eq!(binds[11].event, InputEvent::KeyPress(Key::Right, true, false));
    assert_eq!(binds[11].action, Action::SelectRight);
}

#[test]
fn arrows_bound_with_and_without_repeat() {
    let binds = OpenRomView::default_keybindings();
    for (key, action) in [
        (Key::Up, Action::SelectUp),
        (Key::Down, Action::SelectDown),
        (Key::Left, Action::SelectLeft),
        (Key::Right, Action::SelectRight),
    ] {
        for repeat in [true, false] {
            assert!(binds.iter().any(|b| b.event == InputEvent::KeyPress(key, true, repeat)
                && b.modifiers.is_empty()
                && b.action == action));
        }
    }
}

#[test]
fn match_finds_first_binding_of_event() {
    let binds = OpenRomView::default_keybindings();
    let up = InputEvent::KeyPress(Key::Up, true, false);
    assert_eq!(match_keybinding(&binds, up, ViewType::OpenRom, &Vec::new()), Some(8));
    let up_repeat = InputEvent::KeyPress(Key::Up, true, true);
    assert_eq!(match_keybinding(&binds, up_repeat, ViewType::OpenRom, &Vec::new()), Some(4));
    let released = InputEvent::KeyPress(Key::Up, false, false);
    assert_eq!(match_keybinding(&binds, released, ViewType::OpenRom, &Vec::new()), None);
}

#[test]
fn match_needs_the_modifiers_held() {
    let binds = OpenRomView::default_keybindings();
    let o = InputEvent::KeyPress(Key::O, true, false);
    assert_eq!(match_keybinding(&binds, o, ViewType::OpenRom, &Vec::new()), None);
    let ctrl = vec![InputEvent::KeyPress(Key::Ctrl, true, false)];
    let found = match_keybinding(&binds, o, ViewType::OpenRom, &ctrl).unwrap();
    assert_eq!(binds[found].action, Action::CloseView);
}
