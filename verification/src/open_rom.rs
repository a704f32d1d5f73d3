use vstd::prelude::*;
use crate::action::{Action, ViewType};
use crate::keybinding::{InputEvent, Key, Keybind};
use crate::draw::{draw_views, Color, DrawCmd, DrawView};
use crate::paths::{
    extension_of_name, file_name_of, path_extension, path_file_name, path_file_name_of, path_parent,
    path_parent_of, path_with_extension, path_with_extension_of, paths_equal, same_path,
    dir_part, last_part, plain_name, file_stem_of_name, lemma_last_part_after_dir,
};
use crate::NesErr;

verus! {

/// Width of the emulator's picture, in pixels.
pub const RENDER_WIDTH: u32 = 256;
/// Height of the emulator's picture, in pixels.
pub const RENDER_HEIGHT: u32 = 240;
/// Width of the view's texture.
pub const WIDTH: u32 = 3 * RENDER_WIDTH;
/// Height of the view's texture.
pub const HEIGHT: u32 = 3 * RENDER_HEIGHT;
/// Rows of the file list that fit on screen, less one.
pub const MAX_ROWS: usize = 19;
/// Recently played games that fit on screen.
pub const MAX_RECENTS: usize = 4;

/// Which tab of the view is shown.
#[derive(Clone, Copy, Debug, PartialEq, Eq, Structural)]
pub enum OpenMode {
    NewFile,
    Recent,
}

/// The abstract state of an [`OpenRomView`].
pub struct OpenRomModel {
    pub scale: u32,
    pub active: bool,
    /// Index of the highlighted entry of the current tab.
    pub selected: int,
    /// Index of the first entry shown.
    pub scroll: int,
    /// Entries of the "Open File" tab: directories, then games.
    pub paths: Seq<Seq<char>>,
    /// Entries of the "Open Recent" tab: a game and its picture.
    pub recent_roms: Seq<(Seq<char>, Seq<char>)>,
    pub mode: OpenMode,
}

impl OpenRomModel {
    /// How many entries below the first shown one the highlight may sit.
    pub open spec fn scroll_max(self) -> int {
        match self.mode {
            OpenMode::NewFile => MAX_ROWS - 1,
            OpenMode::Recent => MAX_RECENTS - 2,
        }
    }

    /// The number of entries of the current tab.
    pub open spec fn entry_count(self) -> int {
        match self.mode {
            OpenMode::NewFile => self.paths.len() as int,
            OpenMode::Recent => self.recent_roms.len() as int,
        }
    }

    /// The last index that moving down may reach (the recent games are laid out
    /// two to a row).
    pub open spec fn last_selectable(self) -> int {
        match self.mode {
            OpenMode::NewFile => self.paths.len() - 1,
            OpenMode::Recent => self.recent_roms.len() - 2,
        }
    }

    /// The path of entry `i` of the current tab.
    pub open spec fn entry(self, i: int) -> Seq<char> {
        match self.mode {
            OpenMode::NewFile => self.paths[i],
            OpenMode::Recent => self.recent_roms[i].0,
        }
    }

    /// The highlighted entry lies among the shown ones.
    pub open spec fn selection_in_window(self) -> bool {
        0 <= self.scroll <= self.selected < self.scroll + self.scroll_max()
    }

    /// The actions that the view carries out without failing: moving down needs
    /// an entry to move over, choosing needs the highlighted entry.
    pub open spec fn can_take(self, action: Action) -> bool {
        match action {
            Action::SelectDown => self.last_selectable() >= 0,
            Action::SelectPath => self.selected < self.entry_count(),
            _ => true,
        }
    }

    /// The state after moving the highlight up.
    pub open spec fn select_up(self) -> OpenRomModel {
        if self.selected > 0 {
            let selected = self.selected - 1;
            let scroll = if self.scroll > 0 && selected < self.scroll + 1 {
                self.scroll - 1
            } else {
                self.scroll
            };
            OpenRomModel { selected, scroll, ..self }
        } else {
            self
        }
    }

    /// The state after moving the highlight down; the list scrolls when the
    /// highlight reaches the last shown row.
    pub open spec fn select_down(self) -> OpenRomModel {
        if self.selected < self.last_selectable() {
            let selected = self.selected + 1;
            let scroll = if selected - self.scroll >= self.scroll_max() {
                self.scroll + 1
            } else {
                self.scroll
            };
            OpenRomModel { selected, scroll, ..self }
        } else {
            self
        }
    }

    /// The state after the view carries out `action`: only the moves change it.
    pub open spec fn after_action(self, action: Action) -> OpenRomModel {
        match action {
            Action::SelectUp => self.select_up(),
            Action::SelectDown => self.select_down(),
            Action::SelectLeft => self.select_tab(OpenMode::NewFile),
            Action::SelectRight => self.select_tab(OpenMode::Recent),
            _ => self,
        }
    }

    /// The state after switching to tab `mode`: its first entry is highlighted.
    pub open spec fn select_tab(self, mode: OpenMode) -> OpenRomModel {
        OpenRomModel { selected: 0, scroll: 0, mode, ..self }
    }
}

/// The views of a list of strings.
pub open spec fn views(v: Seq<String>) -> Seq<Seq<char>> {
    v.map_values(|s: String| s@)
}

/// The views of a list of pairs of strings.
pub open spec fn pair_views(v: Seq<(String, String)>) -> Seq<(Seq<char>, Seq<char>)> {
    v.map_values(|p: (String, String)| (p.0@, p.1@))
}

/// The model after `load_paths` with the given outcomes of reading the
/// directory, and the error it returns: the list starts with `../` when the
/// current directory has a parent; the first failed read ends the load.
pub open spec fn loaded(
    m: OpenRomModel,
    has_parent: bool,
    dirs: Result<Vec<String>, NesErr>,
    roms: Result<Vec<String>, NesErr>,
    recent: Result<Vec<(String, String)>, NesErr>,
) -> (OpenRomModel, Result<(), NesErr>) {
    let up: Seq<Seq<char>> = if has_parent { seq!["../"@] } else { Seq::empty() };
    match dirs {
        Err(e) => (OpenRomModel { paths: up, ..m }, Err(e)),
        Ok(d) => match roms {
            Err(e) => (OpenRomModel { paths: up + views(d@), ..m }, Err(e)),
            Ok(r) => {
                let paths = up + views(d@) + views(r@);
                match recent {
                    Err(e) => (OpenRomModel { paths, ..m }, Err(e)),
                    Ok(rr) => (
                        OpenRomModel {
                            paths,
                            recent_roms: pair_views(rr@),
                            mode: if rr@.len() == 0 { OpenMode::NewFile } else { m.mode },
                            ..m
                        },
                        Ok(()),
                    ),
                }
            },
        },
    }
}

/// The bindings of this view, in order: event, modifiers, action. The arrow
/// keys are bound with and without key repeat.
pub open spec fn open_rom_bindings() -> Seq<(InputEvent, Seq<InputEvent>, Action)> {
    let none = Seq::<InputEvent>::empty();
    let ctrl = seq![InputEvent::KeyPress(Key::Ctrl, true, false)];
    seq![
        (InputEvent::KeyPress(Key::Escape, true, false), none, Action::CloseView),
        (InputEvent::KeyPress(Key::O, true, false), ctrl, Action::CloseView),
        (InputEvent::KeyPress(Key::Tab, true, false), none, Action::Tab),
        (InputEvent::KeyPress(Key::Return, true, false), none, Action::SelectPath),
        (InputEvent::KeyPress(Key::Up, true, true), none, Action::SelectUp),
        (InputEvent::KeyPress(Key::Down, true, true), none, Action::SelectDown),
        (InputEvent::KeyPress(Key::Left, true, true), none, Action::SelectLeft),
        (InputEvent::KeyPress(Key::Right, true, true), none, Action::SelectRight),
        (InputEvent::KeyPress(Key::Up, true, false), none, Action::SelectUp),
        (InputEvent::KeyPress(Key::Down, true, false), none, Action::SelectDown),
        (InputEvent::KeyPress(Key::Left, true, false), none, Action::SelectLeft),
        (InputEvent::KeyPress(Key::Right, true, false), none, Action::SelectRight),
    ]
}

/// The action that an arrow key moves the highlight by.
pub open spec fn arrow_action(key: Key) -> Action {
    match key {
        Key::Up => Action::SelectUp,
        Key::Down => Action::SelectDown,
        Key::Left => Action::SelectLeft,
        _ => Action::SelectRight,
    }
}

/// The title bar: a dark panel, the two tab titles (the shown one in white)
/// and the rules that separate them.
pub open spec fn title_cmds(mode: OpenMode) -> Seq<DrawView> {
    let file_color = if mode == OpenMode::NewFile { Color::White } else { Color::Gray };
    let recent_color = if mode == OpenMode::Recent { Color::White } else { Color::Gray };
    seq![
        DrawView::FillRect(20, 20, WIDTH - 40, HEIGHT - 40, Color::DarkGray),
        DrawView::SetScale(3),
        DrawView::Text(40, 40, "Open File"@, file_color),
        DrawView::Text(301, 40, "Open Recent"@, recent_color),
        DrawView::FillRect(277, 30, 3, 50, Color::VeryDarkGray),
        DrawView::FillRect(30, 80, WIDTH - 60, 3, Color::VeryDarkGray),
        DrawView::SetScale(2),
    ]
}

/// The frame: darkened edges, then a light top and left and a dark bottom and
/// right border around the panel.
pub open spec fn frame_cmds() -> Seq<DrawView> {
    seq![
        DrawView::FillRect(0, 0, WIDTH as int, 20, Color::Shade),
        DrawView::FillRect(WIDTH - 20, 0, WIDTH as int, HEIGHT as int, Color::Shade),
        DrawView::FillRect(0, HEIGHT - 20, WIDTH as int, HEIGHT as int, Color::Shade),
        DrawView::FillRect(0, 0, 20, HEIGHT as int, Color::Shade),
        DrawView::FillRect(WIDTH - 23, 20, 3, HEIGHT - 40, Color::VeryDarkGray),
        DrawView::FillRect(20, 20, 3, HEIGHT - 40, Color::Gray),
        DrawView::FillRect(20, HEIGHT - 23, WIDTH - 40, 3, Color::VeryDarkGray),
        DrawView::FillRect(20, 20, WIDTH - 40, 3, Color::Gray),
    ]
}

/// The rows of the file list drawn for `entries` from height `y` down, one
/// every 30 pixels: `../` as it is, any other entry by its file name (an entry
/// without one is skipped). The entry `highlight` rows down is blue.
pub open spec fn file_rows(entries: Seq<Seq<char>>, highlight: int, y: int) -> Seq<DrawView>
    decreases entries.len(),
{
    if entries.len() == 0 {
        Seq::empty()
    } else {
        let color = if highlight == 0 { Color::Blue } else { Color::White };
        let rest = entries.drop_first();
        if paths_equal(entries[0], "../"@) {
            seq![DrawView::Text(50, y, "../"@, color)] + file_rows(rest, highlight - 1, y + 30)
        } else {
            match file_name_of(entries[0]) {
                Some(name) => seq![DrawView::Text(50, y, name, color)] + file_rows(
                    rest,
                    highlight - 1,
                    y + 30,
                ),
                None => file_rows(rest, highlight - 1, y),
            }
        }
    }
}

/// The label of a recently played game: its file name without extension.
pub open spec fn recent_label(rom: Seq<char>) -> Option<Seq<char>> {
    let name = last_part(rom);
    if plain_name(name) && plain_name(file_stem_of_name(name)) {
        Some(file_stem_of_name(name))
    } else {
        path_file_name_of(path_with_extension_of(rom, ""@))
    }
}

/// The tiles drawn for the recent games `roms[k..]`, whose pictures have the
/// sizes `dims` (width, height), from position (`x`, `y`): each picture at
/// scale 1 with its label 10 pixels below it, two to a row; the tile
/// `highlight` has a blue label. The tiles stop where the sizes stop.
pub open spec fn recent_tiles(
    roms: Seq<Seq<char>>,
    dims: Seq<(u32, u32)>,
    k: int,
    highlight: int,
    x: int,
    y: int,
) -> Seq<DrawView>
    decreases dims.len() - k,
{
    if k < 0 || k >= dims.len() || k >= roms.len() {
        Seq::empty()
    } else {
        let w = dims[k].0 as int;
        let h = dims[k].1 as int;
        let color = if k == highlight { Color::Blue } else { Color::White };
        let label = match recent_label(roms[k]) {
            Some(name) => seq![DrawView::Text(x, y + h + 10, name, color)],
            None => Seq::empty(),
        };
        let tile = seq![DrawView::SetScale(1), DrawView::Image(x, y, k)] + label;
        if k % 2 == 1 {
            tile + recent_tiles(roms, dims, k + 1, highlight, 50, y + h + 30)
        } else {
            tile + recent_tiles(roms, dims, k + 1, highlight, x + w + 50, y)
        }
    }
}

/// Every position that laying out the tiles of [`recent_tiles`] computes fits
/// in a `u32`.
pub open spec fn recent_tiles_fit(roms: Seq<Seq<char>>, dims: Seq<(u32, u32)>, k: int, x: int, y: int) -> bool
    decreases dims.len() - k,
{
    if k < 0 || k >= dims.len() || k >= roms.len() {
        true
    } else {
        let w = dims[k].0 as int;
        let h = dims[k].1 as int;
        &&& (recent_label(roms[k]) is Some ==> y + h + 10 <= u32::MAX)
        &&& if k % 2 == 1 {
            y + h + 30 <= u32::MAX && recent_tiles_fit(roms, dims, k + 1, 50, y + h + 30)
        } else {
            x + w + 50 <= u32::MAX && recent_tiles_fit(roms, dims, k + 1, x + w + 50, y)
        }
    }
}

/// The smaller of two integers.
pub open spec fn min_int(a: int, b: int) -> int {
    if a < b { a } else { b }
}

impl OpenRomModel {
    /// How many entries from the first shown one are drawn.
    pub open spec fn shown_count(self) -> int {
        match self.mode {
            OpenMode::NewFile => MAX_ROWS + 1,
            OpenMode::Recent => MAX_RECENTS + 2,
        }
    }

    /// The entries of the "Open File" tab that are drawn.
    pub open spec fn shown_paths(self) -> Seq<Seq<char>> {
        self.paths.subrange(self.scroll, min_int(self.paths.len() as int, self.scroll + MAX_ROWS + 1))
    }

    /// The games of the "Open Recent" tab that are drawn.
    pub open spec fn shown_recent(self) -> Seq<Seq<char>> {
        self.recent_roms.subrange(
            self.scroll,
            min_int(self.recent_roms.len() as int, self.scroll + MAX_RECENTS + 2),
        ).map_values(|p: (Seq<char>, Seq<char>)| p.0)
    }

    /// What drawing the view gives, given the sizes `dims` of the pictures of
    /// the shown recent games that could be loaded, in order, and whether the
    /// drawing was completed (it stops where a picture could not be loaded).
    pub open spec fn drawing(self, dims: Seq<(u32, u32)>) -> (Seq<DrawView>, bool) {
        match self.mode {
            OpenMode::NewFile => (
                title_cmds(self.mode) + file_rows(self.shown_paths(), self.selected - self.scroll, 100)
                    + frame_cmds(),
                true,
            ),
            OpenMode::Recent => {
                let tiles = recent_tiles(self.shown_recent(), dims, 0, self.selected - self.scroll, 50, 100);
                if dims.len() < self.shown_recent().len() {
                    (title_cmds(self.mode) + tiles, false)
                } else {
                    (title_cmds(self.mode) + tiles + frame_cmds(), true)
                }
            },
        }
    }

    /// Drawing the view does not fail: the shown entries exist and, on the
    /// "Open Recent" tab, no more picture sizes are given than games are shown
    /// and the tiles' layout fits in a `u32`.
    pub open spec fn can_draw(self, dims: Seq<(u32, u32)>) -> bool {
        &&& self.scroll <= self.entry_count()
        &&& self.scroll + self.shown_count() <= usize::MAX
        &&& self.mode == OpenMode::Recent ==> {
            &&& dims.len() <= self.shown_recent().len()
            &&& recent_tiles_fit(self.shown_recent(), dims, 0, 50, 100)
        }
    }
}

/// What the view asks of the emulator after an action.
#[derive(Debug)]
pub enum Step {
    /// The view changed itself (or nothing); draw it again.
    Redraw,
    /// Queue this action for the emulator, then draw the view again.
    Queue(Action),
    /// The highlighted entry was chosen: find out whether this path is a
    /// directory and hand the answer to [`OpenRomView::open_entry`].
    Inspect(String),
}

/// What opening a chosen entry asks of the emulator.
#[derive(Debug)]
pub enum PathStep {
    /// Make this the current directory, read it, and hand the outcome to
    /// [`OpenRomView::enter_dir`].
    EnterDir(String),
    /// Queue this action for the emulator.
    Queue(Action),
    /// Nothing is to be done.
    Stay,
}

/// An operation on the open-ROM view, by its effect on the view's state.
pub enum ViewOp {
    /// `on_resume`.
    Resume,
    /// `on_stop`.
    Stop,
    /// `on_pause`, `handle_event` with no action bound, and the functions that
    /// take the view by `&self`: they leave the state as it is.
    Keep,
    /// `handle_action` with this action, or `handle_event` with this
    /// action bound.
    Act(Action),
    /// `load_paths`, with whether the directory has a parent and the reads.
    Load(bool, Result<Vec<String>, NesErr>, Result<Vec<String>, NesErr>, Result<Vec<(String, String)>, NesErr>),
    /// `enter_dir`, with whether the directory has a parent and the reads.
    EnterDir(bool, Result<Vec<String>, NesErr>, Result<Vec<String>, NesErr>, Result<Vec<(String, String)>, NesErr>),
}

/// The state after one operation, as the operation's contract gives it.
pub open spec fn apply_op(m: OpenRomModel, op: ViewOp) -> OpenRomModel {
    match op {
        ViewOp::Resume => OpenRomModel { active: true, ..m },
        ViewOp::Stop => OpenRomModel { active: false, ..m },
        ViewOp::Keep => m,
        ViewOp::Act(action) => m.after_action(action),
        ViewOp::Load(p, d, r, rr) => loaded(m, p, d, r, rr).0,
        ViewOp::EnterDir(p, d, r, rr) => OpenRomModel { selected: 0, scroll: 0, ..loaded(m, p, d, r, rr).0 },
    }
}

/// What the view asks of the emulator after carrying out `action` in the
/// state `m`: a move asks for a redraw, choosing asks to inspect the
/// highlighted entry, and any other action is handed on.
pub open spec fn step_for(m: OpenRomModel, action: Action, step: Step) -> bool {
    match action {
        Action::SelectUp | Action::SelectDown | Action::SelectLeft | Action::SelectRight => step is Redraw,
        Action::SelectPath => step matches Step::Inspect(p) && p@ == m.entry(m.selected),
        _ => step == Step::Queue(action),
    }
}

/// The view that lists directories, games and recently played games to open.
pub struct OpenRomView {
    scale: u32,
    active: bool,
    cursor: Cursor,
    paths: Vec<String>,
    recent_roms: Vec<(String, String)>,
}

/// The shown tab, its highlighted entry and its first shown entry, which
/// change together.
#[derive(Clone, Copy)]
struct Cursor {
    selected: usize,
    scroll: usize,
    mode: OpenMode,
}

impl View for OpenRomView {
    type V = OpenRomModel;

    closed spec fn view(&self) -> OpenRomModel {
        OpenRomModel {
            scale: self.scale,
            active: self.active,
            selected: self.cursor.selected as int,
            scroll: self.cursor.scroll as int,
            paths: views(self.paths@),
            recent_roms: pair_views(self.recent_roms@),
            mode: self.cursor.mode,
        }
    }
}

impl OpenRomView {
    #[verifier::type_invariant]
    spec fn highlight_shown(self) -> bool {
        self@.selection_in_window()
    }

    pub fn new(scale: u32) -> (view: Self)
        ensures
            view@ == (OpenRomModel {
                scale,
                active: false,
                selected: 0,
                scroll: 0,
                paths: Seq::empty(),
                recent_roms: Seq::empty(),
                mode: OpenMode::Recent,
            }),
    {
        let view = OpenRomView {
            scale,
            active: false,
            cursor: Cursor { selected: 0, scroll: 0, mode: OpenMode::Recent },
            paths: Vec::new(),
            recent_roms: Vec::new(),
        };
        assert(view@.paths =~= Seq::empty());
        assert(view@.recent_roms =~= Seq::empty());
        view
    }

    /// The default key bindings of this view.
    pub fn default_keybindings() -> (binds: Vec<Keybind>)
        ensures
            binds@.len() == open_rom_bindings().len(),
            forall|i: int|
                0 <= i < binds@.len() ==> #[trigger] binds@[i].binds(
                    open_rom_bindings()[i].0,
                    ViewType::OpenRom,
                    open_rom_bindings()[i].1,
                    open_rom_bindings()[i].2,
                ),
    {
        let mut binds: Vec<Keybind> = Vec::new();
        let press = true;
        let rpt = true;
        let none: [InputEvent; 0] = [];
        let no_mods = none.as_slice();
        let ctrl_key = [InputEvent::KeyPress(Key::Ctrl, press, !rpt)];
        let ctrl = ctrl_key.as_slice();
        let ghost spec_binds = open_rom_bindings();

        // Keyboard
        binds.push(Keybind::new(InputEvent::KeyPress(Key::Escape, press, !rpt), ViewType::OpenRom, no_mods, Action::CloseView));
        binds.push(Keybind::new(InputEvent::KeyPress(Key::O, press, !rpt), ViewType::OpenRom, ctrl, Action::CloseView));
        binds.push(Keybind::new(InputEvent::KeyPress(Key::Tab, press, !rpt), ViewType::OpenRom, no_mods, Action::Tab));
        binds.push(Keybind::new(InputEvent::KeyPress(Key::Return, press, !rpt), ViewType::OpenRom, no_mods, Action::SelectPath));
        assert(no_mods@ =~= Seq::<InputEvent>::empty());
        assert(ctrl@ =~= seq![InputEvent::KeyPress(Key::Ctrl, true, false)]);
        let repeats = [true, false];
        for r in 0..2
            invariant
                press,
                repeats@ == seq![true, false],
                no_mods@ == Seq::<InputEvent>::empty(),
                spec_binds == open_rom_bindings(),
                binds@.len() == 4 + 4 * r,
                forall|i: int|
                    0 <= i < binds@.len() ==> #[trigger] binds@[i].binds(
                        spec_binds[i].0,
                        ViewType::OpenRom,
                        spec_binds[i].1,
                        spec_binds[i].2,
                    ),
        {
            let repeat = repeats[r];
            let ghost before = binds@;
            binds.push(Keybind::new(InputEvent::KeyPress(Key::Up, press, repeat), ViewType::OpenRom, no_mods, Action::SelectUp));
            binds.push(Keybind::new(InputEvent::KeyPress(Key::Down, press, repeat), ViewType::OpenRom, no_mods, Action::SelectDown));
            binds.push(Keybind::new(InputEvent::KeyPress(Key::Left, press, repeat), ViewType::OpenRom, no_mods, Action::SelectLeft));
            binds.push(Keybind::new(InputEvent::KeyPress(Key::Right, press, repeat), ViewType::OpenRom, no_mods, Action::SelectRight));
            proof {
                let n = 4 + 4 * r;
                assert forall|i: int| 0 <= i < binds@.len() implies #[trigger] binds@[i].binds(
                    spec_binds[i].0,
                    ViewType::OpenRom,
                    spec_binds[i].1,
                    spec_binds[i].2,
                ) by {
                    if i < n {
                        assert(binds@[i] == before[i]);
                    }
                }
            }
        }
        binds
    }

    /// Fills the lists from the outcomes of reading the current directory
    /// `current_path` (its subdirectories `dirs`, its games `roms`) and the
    /// recently played games `recent`; the first failed read ends the load and
    /// its error is returned. With no recent game the "Open File" tab is shown.
    pub fn load_paths(
        &mut self,
        current_path: &str,
        dirs: Result<Vec<String>, NesErr>,
        roms: Result<Vec<String>, NesErr>,
        recent: Result<Vec<(String, String)>, NesErr>,
    ) -> (r: Result<(), NesErr>)
        ensures
            (final(self)@, r) == loaded(old(self)@, path_parent_of(current_path@) is Some, dirs, roms, recent),
            final(self)@ == apply_op(
                old(self)@,
                ViewOp::Load(path_parent_of(current_path@) is Some, dirs, roms, recent),
            ),
            final(self)@.selection_in_window(),
    {
        proof {
            use_type_invariant(&*self);
        }
        let ghost has_parent = path_parent_of(current_path@) is Some;
        let mut paths: Vec<String> = Vec::new();
        if path_parent(current_path).is_some() {
            paths.push("../".to_owned());
        }
        let ghost up = views(paths@);
        assert(up =~= (if has_parent { seq!["../"@] } else { Seq::<Seq<char>>::empty() }));
        let mut dirs = match dirs {
            Err(e) => {
                self.paths = paths;
                return Err(e);
            },
            Ok(d) => d,
        };
        let ghost d0 = dirs@;
        paths.append(&mut dirs);
        assert(views(paths@) =~= up + views(d0));
        let mut roms = match roms {
            Err(e) => {
                self.paths = paths;
                return Err(e);
            },
            Ok(r) => r,
        };
        let ghost r0 = roms@;
        paths.append(&mut roms);
        assert(views(paths@) =~= up + views(d0) + views(r0));
        self.paths = paths;
        let recent = match recent {
            Err(e) => return Err(e),
            Ok(rr) => rr,
        };
        let empty = recent.len() == 0;
        self.recent_roms = recent;
        if empty {
            self.cursor = Cursor { mode: OpenMode::NewFile, ..self.cursor };
        }
        Ok(())
    }

    /// Loads the new current directory `current_path` as [`Self::load_paths`]
    /// does and highlights the first entry, whether or not the load failed.
    pub fn enter_dir(
        &mut self,
        current_path: &str,
        dirs: Result<Vec<String>, NesErr>,
        roms: Result<Vec<String>, NesErr>,
        recent: Result<Vec<(String, String)>, NesErr>,
    ) -> (r: Result<(), NesErr>)
        ensures
            r == loaded(old(self)@, path_parent_of(current_path@) is Some, dirs, roms, recent).1,
            final(self)@ == (OpenRomModel {
                selected: 0,
                scroll: 0,
                ..loaded(old(self)@, path_parent_of(current_path@) is Some, dirs, roms, recent).0
            }),
            final(self)@ == apply_op(
                old(self)@,
                ViewOp::EnterDir(path_parent_of(current_path@) is Some, dirs, roms, recent),
            ),
            final(self)@.selection_in_window(),
    {
        let r = self.load_paths(current_path, dirs, roms, recent);
        self.cursor = Cursor { selected: 0, scroll: 0, ..self.cursor };
        r
    }

    /// Carries out `action`, one that a key bound in this view raised: moving
    /// the highlight, switching tabs, choosing the highlighted entry; any other
    /// action is handed on to the emulator.
    pub fn handle_action(&mut self, action: Action) -> (step: Step)
        requires
            old(self)@.can_take(action),
        ensures
            final(self)@ == apply_op(old(self)@, ViewOp::Act(action)),
            step_for(old(self)@, action, step),
            final(self)@.selection_in_window(),
    {
        proof {
            use_type_invariant(&*self);
        }
        let c = self.cursor;
        match action {
            Action::SelectUp => {
                if c.selected > 0 {
                    let selected = c.selected - 1;
                    let scroll = if c.scroll > 0 && selected <= c.scroll {
                        c.scroll - 1
                    } else {
                        c.scroll
                    };
                    self.cursor = Cursor { selected, scroll, ..c };
                }
                Step::Redraw
            },
            Action::SelectDown => {
                let (scroll_max, total) = match c.mode {
                    OpenMode::NewFile => (MAX_ROWS - 1, self.paths.len() - 1),
                    OpenMode::Recent => (MAX_RECENTS - 2, self.recent_roms.len() - 2),
                };
                if c.selected < total {
                    let selected = c.selected + 1;
                    // Scroll when there is one entry left in view.
                    let scroll = if selected - c.scroll >= scroll_max {
                        c.scroll + 1
                    } else {
                        c.scroll
                    };
                    self.cursor = Cursor { selected, scroll, ..c };
                }
                Step::Redraw
            },
            Action::SelectLeft => {
                self.cursor = Cursor { selected: 0, scroll: 0, mode: OpenMode::NewFile };
                Step::Redraw
            },
            Action::SelectRight => {
                self.cursor = Cursor { selected: 0, scroll: 0, mode: OpenMode::Recent };
                Step::Redraw
            },
            Action::SelectPath => {
                let path = match c.mode {
                    OpenMode::NewFile => self.paths[c.selected].clone(),
                    OpenMode::Recent => self.recent_roms[c.selected].0.clone(),
                };
                Step::Inspect(path)
            },
            _ => Step::Queue(action),
        }
    }

    /// Handles an event of this view, given the action of the binding that the
    /// event matched, if any: with none the event is not handled (`None`) and
    /// nothing changes; otherwise the action is carried out as by
    /// [`Self::handle_action`] and the view is to be drawn again.
    pub fn handle_event(&mut self, bound: Option<Action>) -> (handled: Option<Step>)
        requires
            bound matches Some(action) ==> old(self)@.can_take(action),
        ensures
            handled is Some <==> bound is Some,
            match bound {
                None => final(self)@ == apply_op(old(self)@, ViewOp::Keep),
                Some(action) => final(self)@ == apply_op(old(self)@, ViewOp::Act(action))
                    && (handled matches Some(step) && step_for(old(self)@, action, step)),
            },
            final(self)@.selection_in_window(),
    {
        proof {
            use_type_invariant(&*self);
        }
        match bound {
            Some(action) => Some(self.handle_action(action)),
            None => None,
        }
    }

    /// Opens the chosen entry `entry` given whether it is a directory and the
    /// current directory `current_path`: a directory becomes the current one
    /// (`../` stands for the parent of the current directory, if it has one);
    /// a `.nes` file is queued to be loaded; anything else is left alone.
    pub fn open_entry(entry: &str, is_dir: bool, current_path: &str) -> (step: PathStep)
        ensures
            is_dir ==> (step matches PathStep::EnterDir(dir) && dir@ == (if paths_equal(entry@, "../"@) {
                match path_parent_of(current_path@) {
                    Some(parent) => parent,
                    None => current_path@,
                }
            } else {
                entry@
            })),
            !is_dir && extension_of_name(file_name_of(entry@)) == Some("nes"@) ==> (step matches PathStep::Queue(
                Action::LoadRom(rom),
            ) && rom@ == entry@),
            !is_dir && extension_of_name(file_name_of(entry@)) != Some("nes"@) ==> step is Stay,
    {
        if is_dir {
            if same_path(entry, "../") {
                match path_parent(current_path) {
                    Some(parent) => PathStep::EnterDir(parent),
                    None => PathStep::EnterDir(current_path.to_owned()),
                }
            } else {
                PathStep::EnterDir(entry.to_owned())
            }
        } else {
            let nes = "nes".to_owned();
            match path_extension(entry) {
                Some(ext) => {
                    if ext == nes {
                        PathStep::Queue(Action::LoadRom(entry.to_owned()))
                    } else {
                        PathStep::Stay
                    }
                },
                None => PathStep::Stay,
            }
        }
    }

    /// Whether the view's picture is to be copied to the screen on an update:
    /// only while the view is shown.
    pub fn on_update(&self) -> (copy: bool)
        ensures
            copy == self@.active,
    {
        self.active
    }

    /// Pausing leaves the view as it is.
    pub fn on_pause(&mut self) -> (r: bool)
        ensures
            r,
            final(self)@ == old(self)@,
            final(self)@ == apply_op(old(self)@, ViewOp::Keep),
    {
        true
    }

    /// Resuming shows the view.
    pub fn on_resume(&mut self) -> (r: bool)
        ensures
            r,
            final(self)@ == (OpenRomModel { active: true, ..old(self)@ }),
            final(self)@ == apply_op(old(self)@, ViewOp::Resume),
    {
        proof {
            use_type_invariant(&*self);
        }
        self.active = true;
        true
    }

    /// Stopping hides the view.
    pub fn on_stop(&mut self) -> (r: bool)
        ensures
            r,
            final(self)@ == (OpenRomModel { active: false, ..old(self)@ }),
            final(self)@ == apply_op(old(self)@, ViewOp::Stop),
    {
        proof {
            use_type_invariant(&*self);
        }
        self.active = false;
        true
    }

    pub fn is_active(&self) -> (active: bool)
        ensures
            active == self@.active,
    {
        self.active
    }

    pub fn view_type(&self) -> (t: ViewType)
        ensures
            t == ViewType::OpenRom,
    {
        ViewType::OpenRom
    }

    /// Draws the rows of the "Open File" tab onto `cmds`.
    fn draw_file_rows(&self, cmds: &mut Vec<DrawCmd>, x: u32, y: u32)
        requires
            x == 50,
            y == 100,
            self@.scroll <= self@.paths.len(),
            self@.scroll + MAX_ROWS + 1 <= usize::MAX,
        ensures
            draw_views(final(cmds)@) == draw_views(old(cmds)@) + file_rows(
                self@.shown_paths(),
                self@.selected - self@.scroll,
                100,
            ),
    {
        proof {
            use_type_invariant(self);
        }
        let c = self.cursor;
        let len = self.paths.len();
        let max = if len < c.scroll + MAX_ROWS + 1 { len } else { c.scroll + MAX_ROWS + 1 };
        let ghost shown = self@.shown_paths();
        let ghost start = draw_views(cmds@);
        let ghost highlight = self@.selected - self@.scroll;
        let mut i = c.scroll;
        let mut y = y;
        assert(shown.subrange(0, shown.len() as int) =~= shown);
        while i < max
            invariant
                c == self.cursor,
                c.scroll <= c.selected,
                x == 50,
                c.scroll <= i <= max <= len == self.paths.len(),
                max - c.scroll <= MAX_ROWS + 1,
                shown == self@.shown_paths(),
                shown.len() == max - c.scroll,
                highlight == self@.selected - self@.scroll,
                y <= 100 + 30 * (i - c.scroll),
                draw_views(cmds@) + file_rows(
                    shown.subrange(i - c.scroll, shown.len() as int),
                    highlight - (i - c.scroll),
                    y as int,
                ) == start + file_rows(shown, highlight, 100),
            decreases max - i,
        {
            let ghost k = i - c.scroll;
            let ghost rest = shown.subrange(k, shown.len() as int);
            assert(rest.drop_first() =~= shown.subrange(k + 1, shown.len() as int));
            let rom = &self.paths[i];
            let color = if i - c.scroll == c.selected - c.scroll {
                Color::Blue
            } else {
                Color::White
            };
            if same_path(rom.as_str(), "../") {
                cmds.push(DrawCmd::Text(x, y, "../".to_owned(), color));
                y = y + 30;
            } else {
                match path_file_name(rom.as_str()) {
                    Some(name) => {
                        cmds.push(DrawCmd::Text(x, y, name, color));
                        y = y + 30;
                    },
                    None => {},
                }
            }
            i = i + 1;
        }
    }

    /// Draws the tiles of the "Open Recent" tab onto `cmds`, as far as there
    /// are picture sizes; returns whether all shown games were drawn.
    fn draw_recent_tiles(&self, cmds: &mut Vec<DrawCmd>, images: &Vec<(u32, u32)>, x: u32, y: u32) -> (complete: bool)
        requires
            x == 50,
            y == 100,
            self@.mode == OpenMode::Recent,
            self@.can_draw(images@),
        ensures
            draw_views(final(cmds)@) == draw_views(old(cmds)@) + recent_tiles(
                self@.shown_recent(),
                images@,
                0,
                self@.selected - self@.scroll,
                50,
                100,
            ),
            complete == (images@.len() >= self@.shown_recent().len()),
    {
        proof {
            use_type_invariant(self);
        }
        let c = self.cursor;
        let len = self.recent_roms.len();
        let max = if len < c.scroll + MAX_RECENTS + 2 { len } else { c.scroll + MAX_RECENTS + 2 };
        let ghost shown = self@.shown_recent();
        let ghost start = draw_views(cmds@);
        let ghost highlight = self@.selected - self@.scroll;
        let orig_x = x;
        let mut x = x;
        let mut y = y;
        let mut k: usize = 0;
        while k < max - c.scroll
            invariant
                c == self.cursor,
                c.scroll <= c.selected,
                k <= images@.len(),
                start == draw_views(old(cmds)@),
                orig_x == 50,
                c.scroll <= max <= len == self.recent_roms.len(),
                k <= max - c.scroll,
                shown == self@.shown_recent(),
                shown.len() == max - c.scroll,
                images@.len() <= shown.len(),
                highlight == self@.selected - self@.scroll,
                recent_tiles_fit(shown, images@, k as int, x as int, y as int),
                draw_views(cmds@) + recent_tiles(shown, images@, k as int, highlight, x as int, y as int)
                    == start + recent_tiles(shown, images@, 0, highlight, 50, 100),
            decreases max - c.scroll - k,
        {
            if k >= images.len() {
                // The picture of this game could not be loaded.
                return false;
            }
            let (w, h) = images[k];
            let rom = &self.recent_roms[c.scroll + k].0;
            let color = if k == c.selected - c.scroll {
                Color::Blue
            } else {
                Color::White
            };
            proof {
                reveal_strlit("");
            }
            let stem = path_with_extension(rom.as_str(), "");
            proof {
                let name = last_part(rom@);
                if plain_name(name) && plain_name(file_stem_of_name(name)) {
                    assert(stem@ =~= dir_part(rom@) + file_stem_of_name(name));
                    lemma_last_part_after_dir(rom@, file_stem_of_name(name));
                }
            }
            cmds.push(DrawCmd::SetScale(1));
            cmds.push(DrawCmd::Image(x, y, k));
            match path_file_name(stem.as_str()) {
                Some(name) => {
                    cmds.push(DrawCmd::Text(x, y + h + 10, name, color));
                },
                None => {},
            }
            if k % 2 == 1 {
                x = orig_x;
                y = y + (h + 30);
            } else {
                x = x + (w + 50);
            }
            k = k + 1;
        }
        true
    }

    /// Draws the view: the title bar, the entries of the shown tab and the
    /// frame. `images` holds the sizes of the pictures of the shown recent
    /// games, in order, as far as they could be loaded; drawing stops where a
    /// picture is missing, and the second result tells whether it went through.
    pub fn render(&self, images: &Vec<(u32, u32)>) -> (out: (Vec<DrawCmd>, bool))
        requires
            self@.can_draw(images@),
        ensures
            (draw_views(out.0@), out.1) == self@.drawing(images@),
    {
        let mut cmds: Vec<DrawCmd> = Vec::new();
        let mut x: u32 = 20;
        let mut y: u32 = 20;
        cmds.push(DrawCmd::FillRect(x, y, WIDTH - 2 * x, HEIGHT - 2 * y, Color::DarkGray));
        let border: u32 = 20;
        x = x + border;
        y = y + border;
        cmds.push(DrawCmd::SetScale(3));
        let file_w: u32 = 9 * 8 * 3 - 3;
        let file_color = match self.cursor.mode {
            OpenMode::NewFile => Color::White,
            OpenMode::Recent => Color::Gray,
        };
        cmds.push(DrawCmd::Text(x, y, "Open File".to_owned(), file_color));
        let pad: u32 = 2 * 8 * 3;
        let recent_color = match self.cursor.mode {
            OpenMode::Recent => Color::White,
            OpenMode::NewFile => Color::Gray,
        };
        cmds.push(DrawCmd::Text(x + file_w + pad, y, "Open Recent".to_owned(), recent_color));
        let hr_color = Color::VeryDarkGray;
        let hr_w: u32 = 3;
        let y_pad: u32 = 40;
        // Title separator
        cmds.push(DrawCmd::FillRect(x + file_w + (pad / 2), border + 10, hr_w, y_pad + 10, hr_color));
        y = y + y_pad;
        // Title rule
        cmds.push(DrawCmd::FillRect(border + 10, y, WIDTH - 2 * (border + 10), hr_w, hr_color));
        x = x + 10;
        y = y + 20;
        cmds.push(DrawCmd::SetScale(2));
        assert(draw_views(cmds@) =~= title_cmds(self@.mode));
        match self.cursor.mode {
            OpenMode::NewFile => {
                self.draw_file_rows(&mut cmds, x, y);
            },
            OpenMode::Recent => {
                if !self.draw_recent_tiles(&mut cmds, images, x, y) {
                    return (cmds, false);
                }
            },
        }
        let ghost listed = draw_views(cmds@);

        // Darken edges
        let darken = Color::Shade;
        cmds.push(DrawCmd::FillRect(0, 0, WIDTH, border, darken));
        cmds.push(DrawCmd::FillRect(WIDTH - border, 0, WIDTH, HEIGHT, darken));
        cmds.push(DrawCmd::FillRect(0, HEIGHT - border, WIDTH, HEIGHT, darken));
        cmds.push(DrawCmd::FillRect(0, 0, border, HEIGHT, darken));

        // Window highlight
        let highlight = Color::Gray;
        let shadow = Color::VeryDarkGray;
        let stroke: u32 = 3;
        let width = WIDTH - 2 * border;
        let height = HEIGHT - 2 * border;
        let left = border;
        let right = WIDTH - border;
        let top = border;
        let bottom = HEIGHT - border;
        cmds.push(DrawCmd::FillRect(right - stroke, top, stroke, height, shadow));
        cmds.push(DrawCmd::FillRect(left, top, stroke, height, highlight));
        cmds.push(DrawCmd::FillRect(left, bottom - stroke, width, stroke, shadow));
        cmds.push(DrawCmd::FillRect(left, top, width, stroke, highlight));
        assert(draw_views(cmds@) =~= listed + frame_cmds());
        (cmds, true)
    }

    /// Whether the tiles of the shown recent games, laid out with the picture
    /// sizes `images`, fit in a `u32`.
    fn recent_tiles_fit(&self, images: &Vec<(u32, u32)>) -> (fit: bool)
        requires
            self@.scroll <= self@.recent_roms.len(),
            self@.scroll + MAX_RECENTS + 2 <= usize::MAX,
        ensures
            fit == recent_tiles_fit(self@.shown_recent(), images@, 0, 50, 100),
    {
        let c = self.cursor;
        let len = self.recent_roms.len();
        let max = if len < c.scroll + MAX_RECENTS + 2 { len } else { c.scroll + MAX_RECENTS + 2 };
        let ghost shown = self@.shown_recent();
        let mut k: usize = 0;
        let mut x: u64 = 50;
        let mut y: u64 = 100;
        while k < max - c.scroll
            invariant
                c == self.cursor,
                c.scroll <= max <= len == self.recent_roms.len(),
                k <= max - c.scroll,
                shown == self@.shown_recent(),
                shown.len() == max - c.scroll,
                x <= u32::MAX,
                y <= u32::MAX,
                recent_tiles_fit(shown, images@, k as int, x as int, y as int)
                    == recent_tiles_fit(shown, images@, 0, 50, 100),
            decreases max - c.scroll - k,
        {
            if k >= images.len() {
                return true;
            }
            let (w, h) = images[k];
            let rom = &self.recent_roms[c.scroll + k].0;
            proof {
                reveal_strlit("");
            }
            let stem = path_with_extension(rom.as_str(), "");
            proof {
                let name = last_part(rom@);
                if plain_name(name) && plain_name(file_stem_of_name(name)) {
                    assert(stem@ =~= dir_part(rom@) + file_stem_of_name(name));
                    lemma_last_part_after_dir(rom@, file_stem_of_name(name));
                }
            }
            if path_file_name(stem.as_str()).is_some() && y + h as u64 + 10 > u32::MAX as u64 {
                return false;
            }
            if k % 2 == 1 {
                if y + h as u64 + 30 > u32::MAX as u64 {
                    return false;
                }
                x = 50;
                y = y + h as u64 + 30;
            } else {
                if x + w as u64 + 50 > u32::MAX as u64 {
                    return false;
                }
                x = x + w as u64 + 50;
            }
            k = k + 1;
        }
        true
    }

    /// Draws the view as [`Self::render`] does where its layout fits in a
    /// `u32`; gives `None` where it does not.
    pub fn try_render(&self, images: &Vec<(u32, u32)>) -> (out: Option<(Vec<DrawCmd>, bool)>)
        requires
            self@.scroll <= self@.entry_count(),
            self@.scroll + self@.shown_count() <= usize::MAX,
            self@.mode == OpenMode::Recent ==> images@.len() <= self@.shown_recent().len(),
        ensures
            out is None <==> !self@.can_draw(images@),
            out matches Some(o) ==> (draw_views(o.0@), o.1) == self@.drawing(images@),
    {
        match self.cursor.mode {
            OpenMode::NewFile => Some(self.render(images)),
            OpenMode::Recent => {
                if self.recent_tiles_fit(images) {
                    Some(self.render(images))
                } else {
                    None
                }
            },
        }
    }

    /// The index of the highlighted entry of the shown tab.
    pub fn selected(&self) -> (i: usize)
        ensures
            i == self@.selected,
    {
        self.cursor.selected
    }

    /// The index of the first shown entry.
    pub fn scroll(&self) -> (i: usize)
        ensures
            i == self@.scroll,
    {
        self.cursor.scroll
    }

    /// The shown tab.
    pub fn mode(&self) -> (mode: OpenMode)
        ensures
            mode == self@.mode,
    {
        self.cursor.mode
    }

    /// The entries of the "Open File" tab.
    pub fn paths(&self) -> (paths: &Vec<String>)
        ensures
            views(paths@) == self@.paths,
    {
        &self.paths
    }

    /// The entries of the "Open Recent" tab.
    pub fn recent_roms(&self) -> (recent: &Vec<(String, String)>)
        ensures
            pair_views(recent@) == self@.recent_roms,
    {
        &self.recent_roms
    }

    /// The indices of the recent games that are shown: from the first shown
    /// one, as many as fit, as far as the list goes.
    pub fn shown_recent_range(&self) -> (range: (usize, usize))
        requires
            self@.scroll + MAX_RECENTS + 2 <= usize::MAX,
        ensures
            range.0 == self@.scroll,
            range.1 == min_int(self@.recent_roms.len() as int, self@.scroll + MAX_RECENTS + 2),
    {
        let len = self.recent_roms.len();
        let scroll = self.cursor.scroll;
        let max = if len < scroll + MAX_RECENTS + 2 { len } else { scroll + MAX_RECENTS + 2 };
        (scroll, max)
    }
}

} // verus!
