use tetanes::action::{Action, ViewType};
use tetanes::draw::{Color, DrawCmd};
use tetanes::open_rom::{OpenMode, OpenRomView, PathStep, Step, HEIGHT, WIDTH};
use tetanes::NesErr;

fn strings(items: &[&str]) -> Vec<String> {
    items.iter().map(|s| s.to_string()).collect()
}

fn view_with_files(count: usize) -> OpenRomView {
    let mut view = OpenRomView::new(2);
    let roms: Vec<String> = (0..count).map(|i| format!("/games/rom{}.nes", i)).collect();
    // The root has no parent, so the list holds the games alone.
    view.load_paths("/", Ok(Vec::new()), Ok(roms), Ok(Vec::new())).unwrap();
    view
}

fn view_with_recent() -> OpenRomView {
    let mut view = OpenRomView::new(2);
    let recent = vec![
        ("/r/zelda.nes".to_string(), "/r/zelda.png".to_string()),
        ("/r/mario.nes".to_string(), "/r/mario.png".to_string()),
        ("/r/metroid.nes".to_string(), "/r/metroid.png".to_string()),
    ];
    view.load_paths("/r", Ok(Vec::new()), Ok(Vec::new()), Ok(recent)).unwrap();
    view
}

fn frame() -> Vec<DrawCmd> {
    vec![
        DrawCmd::FillRect(0, 0, WIDTH, 20, Color::Shade),
        DrawCmd::FillRect(748, 0, WIDTH, HEIGHT, Color::Shade),
        DrawCmd::FillRect(0, 700, WIDTH, HEIGHT, Color::Shade),
        DrawCmd::FillRect(0, 0, 20, HEIGHT, Color::Shade),
        DrawCmd::FillRect(745, 20, 3, 680, Color::VeryDarkGray),
        DrawCmd::FillRect(20, 20, 3, 680, Color::Gray),
        DrawCmd::FillRect(20, 697, 728, 3, Color::VeryDarkGray),
        DrawCmd::FillRect(20, 20, 728, 3, Color::Gray),
    ]
}

fn title(file: Color, recent: Color) -> Vec<DrawCmd> {
    vec![
        DrawCmd::FillRect(20, 20, 728, 680, Color::DarkGray),
        DrawCmd::SetScale(3),
        DrawCmd::Text(40, 40, "Open File".to_string(), file),
        DrawCmd::Text(301, 40, "Open Recent".to_string(), recent),
        DrawCmd::FillRect(277, 30, 3, 50, Color::VeryDarkGray),
        DrawCmd::FillRect(30, 80, 708, 3, Color::VeryDarkGray),
        DrawCmd::SetScale(2),
    ]
}

#[test]
fn new_view_is_hidden_on_recent_tab() {
    let view = OpenRomView::new(3);
    assert!(!view.is_active());
    assert!(!view.on_update());
    assert_eq!(view.view_type(), ViewType::OpenRom);
    assert_eq!(view.mode(), OpenMode::Recent);
    assert_eq!(view.selected(), 0);
    assert_eq!(view.scroll(), 0);
    assert!(view.paths().is_empty());
    assert!(view.recent_roms().is_empty());
}

#[test]
fn resume_shows_and_stop_hides() {
    let mut view = OpenRomView::new(1);
    assert!(view.on_resume());
    assert!(view.is_active());
    assert!(view.on_update());
    assert!(view.on_pause());
    assert!(view.is_active());
    assert!(view.on_stop());
    assert!(!view.is_active());
    assert!(!view.on_update());
}

#[test]
fn load_lists_parent_dirs_then_roms() {
    let mut view = OpenRomView::new(1);
    let r = view.load_paths(
        "/home/user/roms",
        Ok(strings(&["/home/user/roms/japan"])),
        Ok(strings(&["/home/user/roms/a.nes", "/home/user/roms/b.nes"])),
        Ok(Vec::new()),
    );
    assert!(r.is_ok());
    assert_eq!(
        view.paths(),
        &strings(&["../", "/home/user/roms/japan", "/home/user/roms/a.nes", "/home/user/roms/b.nes"])
    );
    // No recent game: the file tab is shown.
    assert_eq!(view.mode(), OpenMode::NewFile);
}

#[test]
fn load_of_root_has_no_parent_entry() {
    let mut view = OpenRomView::new(1);
    let r = view.load_paths("/", Ok(strings(&["/games"])), Ok(Vec::new()), Ok(Vec::new()));
    assert!(r.is_ok());
    assert_eq!(view.paths(), &strings(&["/games"]));
}

#[test]
fn load_keeps_recent_tab_when_there_are_recent_games() {
    let view = view_with_recent();
    assert_eq!(view.mode(), OpenMode::Recent);
    assert_eq!(view.recent_roms().len(), 3);
    assert_eq!(view.recent_roms()[1].0, "/r/mario.nes");
}

#[test]
fn failed_directory_read_stops_the_load() {
    let mut view = view_with_recent();
    let err = NesErr { description: "no such directory".to_string() };
    let r = view.load_paths("/home/user", Err(err.clone()), Ok(strings(&["/x.nes"])), Ok(Vec::new()));
    assert_eq!(r, Err(err));
    assert_eq!(view.paths(), &strings(&["../"]));
    assert_eq!(view.recent_roms().len(), 3);
    assert_eq!(view.mode(), OpenMode::Recent);
}

#[test]
fn failed_rom_read_keeps_directories() {
    let mut view = OpenRomView::new(1);
    let err = NesErr { description: "denied".to_string() };
    let r = view.load_paths("/", Ok(strings(&["/a", "/b"])), Err(err.clone()), Ok(Vec::new()));
    assert_eq!(r, Err(err));
    assert_eq!(view.paths(), &strings(&["/a", "/b"]));
    assert_eq!(view.mode(), OpenMode::Recent);
}

#[test]
fn failed_recent_read_keeps_paths() {
    let mut view = OpenRomView::new(1);
    let err = NesErr { description: "bad list".to_string() };
    let r = view.load_paths("/", Ok(Vec::new()), Ok(strings(&["/a.nes"])), Err(err.clone()));
    assert_eq!(r, Err(err));
    assert_eq!(view.paths(), &strings(&["/a.nes"]));
    assert_eq!(view.mode(), OpenMode::Recent);
}

#[test]
fn select_down_scrolls_near_the_bottom() {
    let mut view = view_with_files(25);
    for _ in 0..17 {
        assert!(matches!(view.handle_action(Action::SelectDown), Step::Redraw));
    }
    assert_eq!((view.selected(), view.scroll()), (17, 0));
    view.handle_action(Action::SelectDown);
    assert_eq!((view.selected(), view.scroll()), (18, 1));
    view.handle_action(Action::SelectDown);
    assert_eq!((view.selected(), view.scroll()), (19, 2));
}

#[test]
fn select_down_stops_at_last_entry() {
    let mut view = view_with_files(3);
    for _ in 0..5 {
        view.handle_action(Action::SelectDown);
    }
    assert_eq!(view.selected(), 2);
}

#[test]
fn select_up_stops_at_first_entry_and_scrolls_back() {
    let mut view = view_with_files(25);
    view.handle_action(Action::SelectUp);
    assert_eq!((view.selected(), view.scroll()), (0, 0));
    for _ in 0..20 {
        view.handle_action(Action::SelectDown);
    }
    assert_eq!((view.selected(), view.scroll()), (20, 3));
    for _ in 0..17 {
        view.handle_action(Action::SelectUp);
    }
    assert_eq!((view.selected(), view.scroll()), (3, 2));
    view.handle_action(Action::SelectUp);
    assert_eq!((view.selected(), view.scroll()), (2, 1));
}

#[test]
fn down_then_up_gives_back_the_entry() {
    let mut view = view_with_files(25);
    for _ in 0..17 {
        view.handle_action(Action::SelectDown);
    }
    view.handle_action(Action::SelectDown);
    view.handle_action(Action::SelectUp);
    assert_eq!(view.selected(), 17);
    // The list stays scrolled.
    assert_eq!(view.scroll(), 1);
}

#[test]
fn recent_tab_moves_over_pairs() {
    let mut view = view_with_recent();
    view.handle_action(Action::SelectDown);
    assert_eq!((view.selected(), view.scroll()), (1, 0));
    // The last selectable game is one before the last.
    view.handle_action(Action::SelectDown);
    assert_eq!((view.selected(), view.scroll()), (1, 0));
}

#[test]
fn recent_tab_scrolls_after_two() {
    let mut view = OpenRomView::new(1);
    let recent: Vec<(String, String)> = (0..6).map(|i| (format!("/r/{}.nes", i), format!("/r/{}.png", i))).collect();
    view.load_paths("/r", Ok(Vec::new()), Ok(Vec::new()), Ok(recent)).unwrap();
    view.handle_action(Action::SelectDown);
    view.handle_action(Action::SelectDown);
    assert_eq!((view.selected(), view.scroll()), (2, 1));
}

#[test]
fn left_and_right_switch_tabs_and_reset() {
    let mut view = view_with_files(25);
    for _ in 0..20 {
        view.handle_action(Action::SelectDown);
    }
    assert!(matches!(view.handle_action(Action::SelectRight), Step::Redraw));
    assert_eq!((view.selected(), view.scroll(), view.mode()), (0, 0, OpenMode::Recent));
    view.handle_action(Action::SelectLeft);
    assert_eq!((view.selected(), view.scroll(), view.mode()), (0, 0, OpenMode::NewFile));
}

#[test]
fn select_path_asks_to_inspect_highlighted_entry() {
    let mut view = view_with_files(3);
    view.handle_action(Action::SelectDown);
    match view.handle_action(Action::SelectPath) {
        Step::Inspect(p) => assert_eq!(p, "/games/rom1.nes"),
        other => panic!("unexpected step {:?}", other),
    }
    assert_eq!(view.selected(), 1);
    let mut recent = view_with_recent();
    match recent.handle_action(Action::SelectPath) {
        Step::Inspect(p) => assert_eq!(p, "/r/zelda.nes"),
        other => panic!("unexpected step {:?}", other),
    }
}

#[test]
fn other_actions_are_queued() {
    let mut view = view_with_files(3);
    match view.handle_action(Action::CloseView) {
        Step::Queue(a) => assert_eq!(a, Action::CloseView),
        other => panic!("unexpected step {:?}", other),
    }
    match view.handle_action(Action::Tab) {
        Step::Queue(a) => assert_eq!(a, Action::Tab),
        other => panic!("unexpected step {:?}", other),
    }
    assert_eq!(view.selected(), 0);
}

#[test]
fn open_parent_entry_goes_up() {
    match OpenRomView::open_entry("../", true, "/home/user/roms") {
        PathStep::EnterDir(d) => assert_eq!(d, "/home/user"),
        other => panic!("unexpected step {:?}", other),
    }
    match OpenRomView::open_entry("..", true, "/home/user/roms") {
        PathStep::EnterDir(d) => assert_eq!(d, "/home/user"),
        other => panic!("unexpected step {:?}", other),
    }
    // The root has no parent: it stays current.
    match OpenRomView::open_entry("../", true, "/") {
        PathStep::EnterDir(d) => assert_eq!(d, "/"),
        other => panic!("unexpected step {:?}", other),
    }
}

#[test]
fn open_directory_enters_it() {
    match OpenRomView::open_entry("/home/user/roms/japan", true, "/home/user/roms") {
        PathStep::EnterDir(d) => assert_eq!(d, "/home/user/roms/japan"),
        other => panic!("unexpected step {:?}", other),
    }
}

#[test]
fn open_nes_file_queues_load() {
    match OpenRomView::open_entry("/roms/zelda.nes", false, "/roms") {
        PathStep::Queue(Action::LoadRom(p)) => assert_eq!(p, "/roms/zelda.nes"),
        other => panic!("unexpected step {:?}", other),
    }
}

#[test]
fn open_other_file_does_nothing() {
    assert!(matches!(OpenRomView::open_entry("/roms/notes.txt", false, "/roms"), PathStep::Stay));
    assert!(matches!(OpenRomView::open_entry("/roms/NES", false, "/roms"), PathStep::Stay));
    assert!(matches!(OpenRomView::open_entry("/roms/.nes", false, "/roms"), PathStep::Stay));
}

#[test]
fn enter_dir_loads_and_resets_selection() {
    let mut view = view_with_files(25);
    for _ in 0..20 {
        view.handle_action(Action::SelectDown);
    }
    let r = view.enter_dir("/games/more", Ok(Vec::new()), Ok(strings(&["/games/more/x.nes"])), Ok(Vec::new()));
    assert!(r.is_ok());
    assert_eq!((view.selected(), view.scroll()), (0, 0));
    assert_eq!(view.paths(), &strings(&["../", "/games/more/x.nes"]));
}

#[test]
fn enter_dir_resets_selection_even_on_error() {
    let mut view = view_with_files(25);
    view.handle_action(Action::SelectDown);
    let err = NesErr { description: "gone".to_string() };
    let r = view.enter_dir("/games/gone", Err(err.clone()), Ok(Vec::new()), Ok(Vec::new()));
    assert_eq!(r, Err(err));
    assert_eq!((view.selected(), view.scroll()), (0, 0));
    assert_eq!(view.paths(), &strings(&["../"]));
}

#[test]
fn render_file_tab() {
    let mut view = OpenRomView::new(1);
    view.load_paths(
        "/home/user/roms",
        Ok(strings(&["/home/user/roms/japan"])),
        Ok(strings(&["/home/user/roms/a.nes", "/home/user/roms/b.nes"])),
        Ok(Vec::new()),
    )
    .unwrap();
    view.handle_action(Action::SelectDown);
    let (cmds, complete) = view.render(&Vec::new());
    assert!(complete);
    let mut expected = title(Color::White, Color::Gray);
    expected.push(DrawCmd::Text(50, 100, "../".to_string(), Color::White));
    expected.push(DrawCmd::Text(50, 130, "japan".to_string(), Color::Blue));
    expected.push(DrawCmd::Text(50, 160, "a.nes".to_string(), Color::White));
    expected.push(DrawCmd::Text(50, 190, "b.nes".to_string(), Color::White));
    expected.extend(frame());
    assert_eq!(cmds, expected);
}

#[test]
fn render_file_tab_shows_twenty_rows_from_scroll() {
    let mut view = view_with_files(30);
    for _ in 0..19 {
        view.handle_action(Action::SelectDown);
    }
    assert_eq!(view.scroll(), 2);
    let (cmds, _) = view.render(&Vec::new());
    let rows: Vec<&DrawCmd> = cmds.iter().filter(|c| matches!(c, DrawCmd::Text(50, _, _, _))).collect();
    assert_eq!(rows.len(), 20);
    assert_eq!(rows[0], &DrawCmd::Text(50, 100, "rom2.nes".to_string(), Color::White));
    assert_eq!(rows[17], &DrawCmd::Text(50, 610, "rom19.nes".to_string(), Color::Blue));
    assert_eq!(rows[19], &DrawCmd::Text(50, 670, "rom21.nes".to_string(), Color::White));
    let blue = cmds.iter().filter(|c| matches!(c, DrawCmd::Text(_, _, _, Color::Blue))).count();
    assert_eq!(blue, 1);
}

#[test]
fn render_recent_tab() {
    let view = view_with_recent();
    let images = vec![(256, 240), (256, 240), (100, 50)];
    let (cmds, complete) = view.render(&images);
    assert!(complete);
    let mut expected = title(Color::Gray, Color::White);
    expected.extend(vec![
        DrawCmd::SetScale(1),
        DrawCmd::Image(50, 100, 0),
        DrawCmd::Text(50, 350, "zelda".to_string(), Color::Blue),
        DrawCmd::SetScale(1),
        DrawCmd::Image(356, 100, 1),
        DrawCmd::Text(356, 350, "mario".to_string(), Color::White),
        DrawCmd::SetScale(1),
        DrawCmd::Image(50, 370, 2),
        DrawCmd::Text(50, 430, "metroid".to_string(), Color::White),
    ]);
    expected.extend(frame());
    assert_eq!(cmds, expected);
}

#[test]
fn render_stops_at_missing_picture() {
    let view = view_with_recent();
    let (cmds, complete) = view.render(&vec![(256, 240)]);
    assert!(!complete);
    let mut expected = title(Color::Gray, Color::White);
    expected.extend(vec![
        DrawCmd::SetScale(1),
        DrawCmd::Image(50, 100, 0),
        DrawCmd::Text(50, 350, "zelda".to_string(), Color::Blue),
    ]);
    assert_eq!(cmds, expected);
}

#[test]
fn try_render_refuses_layout_past_u32() {
    let view = view_with_recent();
    assert!(view.try_render(&vec![(u32::MAX - 10, 10)]).is_none());
    assert!(view.try_render(&vec![(10, 10), (10, u32::MAX - 100)]).is_none());
    let out = view.try_render(&vec![(256, 240)]).unwrap();
    assert_eq!(out, view.render(&vec![(256, 240)]));
}

#[test]
fn shown_exactly_after_last_resume() {
    let mut view = view_with_files(3);
    assert!(!view.is_active());
    view.on_resume();
    view.handle_action(Action::SelectDown);
    view.on_pause();
    let _ = view.render(&Vec::new());
    assert!(view.is_active());
    view.on_stop();
    view.handle_action(Action::SelectUp);
    assert!(!view.is_active());
    view.on_resume();
    assert!(view.is_active());
}

#[test]
fn event_without_binding_is_not_handled() {
    let mut view = view_with_files(3);
    assert!(view.handle_event(None).is_none());
    assert_eq!(view.selected(), 0);
}

#[test]
fn event_with_binding_carries_out_its_action() {
    let mut view = view_with_files(3);
    assert!(matches!(view.handle_event(Some(Action::SelectDown)), Some(Step::Redraw)));
    assert_eq!(view.selected(), 1);
    match view.handle_event(Some(Action::CloseView)) {
        Some(Step::Queue(a)) => assert_eq!(a, Action::CloseView),
        other => panic!("unexpected step {:?}", other),
    }
    match view.handle_event(Some(Action::SelectPath)) {
        Some(Step::Inspect(p)) => assert_eq!(p, "/games/rom1.nes"),
        other => panic!("unexpected step {:?}", other),
    }
}
