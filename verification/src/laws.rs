use vstd::prelude::*;
use crate::action::Action;
use crate::draw::{Color, DrawView};
use crate::keybinding::{InputEvent, Key};
use crate::open_rom::{
    arrow_action, file_rows, frame_cmds, loaded, open_rom_bindings, recent_label, recent_tiles,
    title_cmds, views, apply_op, step_for, OpenMode, OpenRomModel, Step, ViewOp,
};
use crate::paths::{
    extension_of_name, file_name_of, file_stem_of_name, last_dot, last_part, paths_equal,
    plain_name,
};
use crate::NesErr;

verus! {

/// Moving the highlight keeps it among the shown entries, whatever the move.
pub proof fn lemma_moves_keep_highlight_shown(m: OpenRomModel, mode: OpenMode)
    requires
        m.selection_in_window(),
    ensures
        m.select_up().selection_in_window(),
        m.select_down().selection_in_window(),
        m.select_tab(mode).selection_in_window(),
{
}

/// Moving the highlight down and back up gives back the highlighted entry.
pub proof fn lemma_up_undoes_down(m: OpenRomModel)
    requires
        m.selection_in_window(),
        m.selected < m.last_selectable(),
    ensures
        m.select_down().select_up().selected == m.selected,
{
}

/// Moving the highlight up and back down gives back the highlighted entry,
/// where there is one above it.
pub proof fn lemma_down_undoes_up(m: OpenRomModel)
    requires
        m.selection_in_window(),
        0 < m.selected <= m.last_selectable(),
    ensures
        m.select_up().select_down().selected == m.selected,
{
}

/// Moving the highlight never takes it past the last entry that moving down
/// may reach, nor above the first.
pub proof fn lemma_moves_stay_in_list(m: OpenRomModel)
    requires
        m.selection_in_window(),
        m.selected <= m.last_selectable(),
    ensures
        0 <= m.select_down().selected <= m.last_selectable(),
        0 <= m.select_up().selected <= m.last_selectable(),
{
}

/// A highlighted entry that exists is among the entries that are drawn.
pub proof fn lemma_highlight_is_drawn(m: OpenRomModel)
    requires
        m.selection_in_window(),
        m.selected < m.entry_count(),
    ensures
        m.mode == OpenMode::NewFile ==> m.selected - m.scroll < m.shown_paths().len(),
        m.mode == OpenMode::Recent ==> m.selected - m.scroll < m.shown_recent().len(),
{
}

/// The number of blue labels among drawing operations.
pub open spec fn blue_labels(cmds: Seq<DrawView>) -> int
    decreases cmds.len(),
{
    if cmds.len() == 0 {
        0
    } else {
        (if cmds[0] matches DrawView::Text(_, _, _, Color::Blue) { 1int } else { 0 })
            + blue_labels(cmds.drop_first())
    }
}

proof fn lemma_blue_labels_concat(a: Seq<DrawView>, b: Seq<DrawView>)
    ensures
        blue_labels(a + b) == blue_labels(a) + blue_labels(b),
    decreases a.len(),
{
    if a.len() > 0 {
        assert((a + b).drop_first() =~= a.drop_first() + b);
        lemma_blue_labels_concat(a.drop_first(), b);
    } else {
        assert(a + b =~= b);
    }
}

/// The file list draws in blue exactly the row of the highlighted entry, and
/// only when that entry is drawn at all.
pub proof fn lemma_file_rows_one_blue(entries: Seq<Seq<char>>, highlight: int, y: int)
    ensures
        blue_labels(file_rows(entries, highlight, y)) == (if 0 <= highlight < entries.len() && (
        paths_equal(entries[highlight], "../"@) || file_name_of(entries[highlight]) is Some) {
            1int
        } else {
            0
        }),
    decreases entries.len(),
{
    if entries.len() > 0 {
        let rest = entries.drop_first();
        let color = if highlight == 0 { Color::Blue } else { Color::White };
        lemma_file_rows_one_blue(rest, highlight - 1, y);
        lemma_file_rows_one_blue(rest, highlight - 1, y + 30);
        if paths_equal(entries[0], "../"@) {
            let row = seq![DrawView::Text(50, y, "../"@, color)];
            assert(blue_labels(row) == (if highlight == 0 { 1int } else { 0 })) by {
                reveal_with_fuel(blue_labels, 2);
            }
            lemma_blue_labels_concat(row, file_rows(rest, highlight - 1, y + 30));
        } else if let Some(name) = file_name_of(entries[0]) {
            let row = seq![DrawView::Text(50, y, name, color)];
            assert(blue_labels(row) == (if highlight == 0 { 1int } else { 0 })) by {
                reveal_with_fuel(blue_labels, 2);
            }
            lemma_blue_labels_concat(row, file_rows(rest, highlight - 1, y + 30));
        }
        if 0 < highlight < entries.len() {
            assert(rest[highlight - 1] == entries[highlight]);
        }
    }
}

/// The recent games draw in blue exactly the label of the highlighted game,
/// and only when that game's tile is drawn and has a label.
pub proof fn lemma_recent_tiles_one_blue(
    roms: Seq<Seq<char>>,
    dims: Seq<(u32, u32)>,
    k: int,
    highlight: int,
    x: int,
    y: int,
)
    requires
        0 <= k,
    ensures
        blue_labels(recent_tiles(roms, dims, k, highlight, x, y)) == (if k <= highlight < dims.len()
            && highlight < roms.len() && recent_label(roms[highlight]) is Some {
            1int
        } else {
            0
        }),
    decreases dims.len() - k,
{
    if k < dims.len() && k < roms.len() {
        let w = dims[k].0 as int;
        let h = dims[k].1 as int;
        let color = if k == highlight { Color::Blue } else { Color::White };
        let label = match recent_label(roms[k]) {
            Some(name) => seq![DrawView::Text(x, y + h + 10, name, color)],
            None => Seq::empty(),
        };
        let tile = seq![DrawView::SetScale(1), DrawView::Image(x, y, k)] + label;
        lemma_blue_labels_concat(seq![DrawView::SetScale(1), DrawView::Image(x, y, k)], label);
        assert(blue_labels(seq![DrawView::SetScale(1), DrawView::Image(x, y, k)]) == 0) by {
            reveal_with_fuel(blue_labels, 3);
        }
        assert(blue_labels(label) == (if k == highlight && recent_label(roms[k]) is Some { 1int } else { 0 })) by {
            reveal_with_fuel(blue_labels, 2);
        }
        if k % 2 == 1 {
            lemma_recent_tiles_one_blue(roms, dims, k + 1, highlight, 50, y + h + 30);
            lemma_blue_labels_concat(tile, recent_tiles(roms, dims, k + 1, highlight, 50, y + h + 30));
        } else {
            lemma_recent_tiles_one_blue(roms, dims, k + 1, highlight, x + w + 50, y);
            lemma_blue_labels_concat(tile, recent_tiles(roms, dims, k + 1, highlight, x + w + 50, y));
        }
    }
}

/// The title bar and the frame hold no blue label.
proof fn lemma_title_and_frame_not_blue(mode: OpenMode)
    ensures
        blue_labels(title_cmds(mode)) == 0,
        blue_labels(frame_cmds()) == 0,
{
    reveal_with_fuel(blue_labels, 9);
}

/// Drawing the view marks in blue exactly one label, that of the highlighted
/// entry, when that entry exists and has a label.
pub proof fn lemma_drawing_marks_highlight(m: OpenRomModel, dims: Seq<(u32, u32)>)
    requires
        m.selection_in_window(),
        m.selected < m.entry_count(),
        m.mode == OpenMode::Recent ==> m.selected - m.scroll < dims.len(),
    ensures
        m.mode == OpenMode::NewFile ==> blue_labels(m.drawing(dims).0) == (if paths_equal(m.paths[m.selected], "../"@)
            || file_name_of(m.paths[m.selected]) is Some { 1int } else { 0 }),
        m.mode == OpenMode::Recent ==> blue_labels(m.drawing(dims).0) == (if recent_label(m.recent_roms[m.selected].0) is Some {
            1int
        } else {
            0
        }),
{
    lemma_title_and_frame_not_blue(m.mode);
    let h = m.selected - m.scroll;
    match m.mode {
        OpenMode::NewFile => {
            let rows = file_rows(m.shown_paths(), h, 100);
            lemma_file_rows_one_blue(m.shown_paths(), h, 100);
            lemma_blue_labels_concat(title_cmds(m.mode), rows);
            lemma_blue_labels_concat(title_cmds(m.mode) + rows, frame_cmds());
            assert(m.shown_paths()[h] == m.paths[m.selected]);
        },
        OpenMode::Recent => {
            let tiles = recent_tiles(m.shown_recent(), dims, 0, h, 50, 100);
            lemma_recent_tiles_one_blue(m.shown_recent(), dims, 0, h, 50, 100);
            lemma_blue_labels_concat(title_cmds(m.mode), tiles);
            lemma_blue_labels_concat(title_cmds(m.mode) + tiles, frame_cmds());
            assert(m.shown_recent()[h] == m.recent_roms[m.selected].0);
        },
    }
}

/// Loading a directory with no recently played game shows the "Open File" tab.
pub proof fn lemma_no_recent_game_shows_files(
    m: OpenRomModel,
    has_parent: bool,
    dirs: Vec<String>,
    roms: Vec<String>,
    recent: Vec<(String, String)>,
)
    requires
        recent@.len() == 0,
    ensures
        loaded(m, has_parent, Ok(dirs), Ok(roms), Ok(recent)).0.mode == OpenMode::NewFile,
        loaded(m, has_parent, Ok(dirs), Ok(roms), Ok(recent)).1 is Ok,
{
}

/// A load lists `../` first exactly when the directory has a parent, then the
/// subdirectories, then the games.
pub proof fn lemma_load_lists_parent_first(
    m: OpenRomModel,
    has_parent: bool,
    dirs: Vec<String>,
    roms: Vec<String>,
    recent: Result<Vec<(String, String)>, NesErr>,
)
    ensures
        has_parent ==> loaded(m, has_parent, Ok(dirs), Ok(roms), recent).0.paths == seq!["../"@]
            + views(dirs@) + views(roms@),
        !has_parent ==> loaded(m, has_parent, Ok(dirs), Ok(roms), recent).0.paths == views(dirs@)
            + views(roms@),
{
    assert(Seq::<Seq<char>>::empty() + views(dirs@) =~= views(dirs@));
}

/// A failed read leaves the recently played games and the shown tab as they
/// were.
pub proof fn lemma_failed_load_keeps_recent(
    m: OpenRomModel,
    has_parent: bool,
    dirs: Result<Vec<String>, NesErr>,
    roms: Result<Vec<String>, NesErr>,
    recent: Result<Vec<(String, String)>, NesErr>,
)
    requires
        dirs is Err || roms is Err || recent is Err,
    ensures
        loaded(m, has_parent, dirs, roms, recent).1 is Err,
        loaded(m, has_parent, dirs, roms, recent).0.recent_roms == m.recent_roms,
        loaded(m, has_parent, dirs, roms, recent).0.mode == m.mode,
{
}

/// Each arrow key is bound, with and without key repeat, to the move of its
/// direction.
pub proof fn lemma_arrows_bound_with_and_without_repeat(key: Key, repeat: bool)
    requires
        key == Key::Up || key == Key::Down || key == Key::Left || key == Key::Right,
    ensures
        exists|i: int|
            0 <= i < open_rom_bindings().len() && #[trigger] open_rom_bindings()[i] == (
                InputEvent::KeyPress(key, true, repeat),
                Seq::<InputEvent>::empty(),
                arrow_action(key),
            ),
{
    let b = open_rom_bindings();
    let first = if repeat { 4int } else { 8int };
    let i = match key {
        Key::Up => first,
        Key::Down => first + 1,
        Key::Left => first + 2,
        _ => first + 3,
    };
    assert(b[i] == (InputEvent::KeyPress(key, true, repeat), Seq::<InputEvent>::empty(), arrow_action(key)));
}

/// The state after the operations `ops`, in order.
pub open spec fn run_ops(m: OpenRomModel, ops: Seq<ViewOp>) -> OpenRomModel
    decreases ops.len(),
{
    if ops.len() == 0 {
        m
    } else {
        apply_op(run_ops(m, ops.drop_last()), ops.last())
    }
}

/// Whether the last of `on_resume` and `on_stop` among `ops` was `on_resume`
/// (`shown` where neither occurs).
pub open spec fn last_shown(ops: Seq<ViewOp>, shown: bool) -> bool
    decreases ops.len(),
{
    if ops.len() == 0 {
        shown
    } else {
        match ops.last() {
            ViewOp::Resume => true,
            ViewOp::Stop => false,
            _ => last_shown(ops.drop_last(), shown),
        }
    }
}

/// The view is shown exactly when the last of `on_resume` and `on_stop` was
/// `on_resume`; every other operation leaves that as it is. A view that `new`
/// made is hidden, so it stays hidden until it is resumed.
pub proof fn lemma_shown_after_last_resume(m: OpenRomModel, ops: Seq<ViewOp>)
    ensures
        run_ops(m, ops).active == last_shown(ops, m.active),
    decreases ops.len(),
{
    if ops.len() > 0 {
        lemma_shown_after_last_resume(m, ops.drop_last());
    }
}

/// Choosing asks to open the highlighted entry itself, whatever the list's
/// scroll: the path at the highlight's index on the "Open File" tab, that
/// game's path on the "Open Recent" tab.
pub proof fn lemma_choose_opens_highlighted_entry(m: OpenRomModel, step: Step)
    requires
        step_for(m, Action::SelectPath, step),
    ensures
        m.mode == OpenMode::NewFile ==> (step matches Step::Inspect(p) && p@ == m.paths[m.selected]),
        m.mode == OpenMode::Recent ==> (step matches Step::Inspect(p) && p@ == m.recent_roms[m.selected].0),
        apply_op(m, ViewOp::Act(Action::SelectPath)) == m,
{
}

/// Moving down never moves the highlight up: it goes one entry down where
/// there is a further entry to reach (on the "Open Recent" tab, one that is
/// not the last), and otherwise leaves the view as it was. The lists, the tab
/// and whether the view is shown stay; the list scrolls by at most one.
pub proof fn lemma_down_never_moves_up(m: OpenRomModel)
    requires
        m.selection_in_window(),
    ensures
        m.selected <= apply_op(m, ViewOp::Act(Action::SelectDown)).selected <= m.selected + 1,
        m.scroll <= apply_op(m, ViewOp::Act(Action::SelectDown)).scroll <= m.scroll + 1,
        apply_op(m, ViewOp::Act(Action::SelectDown)).paths == m.paths,
        apply_op(m, ViewOp::Act(Action::SelectDown)).recent_roms == m.recent_roms,
        apply_op(m, ViewOp::Act(Action::SelectDown)).mode == m.mode,
        apply_op(m, ViewOp::Act(Action::SelectDown)).active == m.active,
        (m.mode == OpenMode::NewFile && m.selected + 1 >= m.paths.len()) || (m.mode == OpenMode::Recent
            && m.selected + 2 >= m.recent_roms.len()) ==> apply_op(m, ViewOp::Act(Action::SelectDown))
            == m,
        (m.mode == OpenMode::NewFile && m.selected + 1 < m.paths.len()) || (m.mode == OpenMode::Recent
            && m.selected + 2 < m.recent_roms.len()) ==> apply_op(m, ViewOp::Act(Action::SelectDown)).selected
            == m.selected + 1,
{
}

/// Loading keeps the highlight where it was, and keeps the shown tab unless
/// the load went through with no recently played game, which shows the
/// "Open File" tab. Entering a directory does the same with the tab and
/// highlights the first entry.
pub proof fn lemma_load_keeps_tab_and_highlight(
    m: OpenRomModel,
    has_parent: bool,
    dirs: Result<Vec<String>, NesErr>,
    roms: Result<Vec<String>, NesErr>,
    recent: Result<Vec<(String, String)>, NesErr>,
)
    ensures
        apply_op(m, ViewOp::Load(has_parent, dirs, roms, recent)).selected == m.selected,
        apply_op(m, ViewOp::Load(has_parent, dirs, roms, recent)).scroll == m.scroll,
        apply_op(m, ViewOp::Load(has_parent, dirs, roms, recent)).active == m.active,
        apply_op(m, ViewOp::Load(has_parent, dirs, roms, recent)).mode == (if dirs is Ok && roms is Ok && (
        recent matches Ok(v) && v@.len() == 0) {
            OpenMode::NewFile
        } else {
            m.mode
        }),
        apply_op(m, ViewOp::EnterDir(has_parent, dirs, roms, recent)).mode == apply_op(
            m,
            ViewOp::Load(has_parent, dirs, roms, recent),
        ).mode,
        apply_op(m, ViewOp::EnterDir(has_parent, dirs, roms, recent)).selected == 0,
        apply_op(m, ViewOp::EnterDir(has_parent, dirs, roms, recent)).scroll == 0,
{
}

/// Escape alone closes the view: the first default binding is Escape pressed
/// (not repeated) with no modifier, mapped to closing. The only binding that
/// needs a modifier is Ctrl+O, which closes the view too.
pub proof fn lemma_escape_closes_and_only_ctrl_o_needs_modifier()
    ensures
        open_rom_bindings()[0] == (
            InputEvent::KeyPress(Key::Escape, true, false),
            Seq::<InputEvent>::empty(),
            Action::CloseView,
        ),
        forall|i: int|
            0 <= i < open_rom_bindings().len() && #[trigger] open_rom_bindings()[i].1.len() > 0
                ==> open_rom_bindings()[i] == (
                InputEvent::KeyPress(Key::O, true, false),
                seq![InputEvent::KeyPress(Key::Ctrl, true, false)],
                Action::CloseView,
            ),
{
    let b = open_rom_bindings();
    assert forall|i: int| 0 <= i < b.len() && #[trigger] b[i].1.len() > 0 implies b[i] == (
        InputEvent::KeyPress(Key::O, true, false),
        seq![InputEvent::KeyPress(Key::Ctrl, true, false)],
        Action::CloseView,
    ) by {
        assert(0 <= i < 12);
        if i != 1 {
            assert(b[i].1.len() == 0);
        }
    }
}

/// The stem of a file name with a non-leading `.`, followed by `.` and its
/// extension, gives back the name: the stem drops exactly one extension.
pub proof fn lemma_stem_drops_one_extension(name: Seq<char>)
    requires
        last_dot(name) > 0,
    ensures
        extension_of_name(Some(name)) matches Some(ext) && file_stem_of_name(name) + "."@ + ext == name,
        file_stem_of_name(name).len() < name.len(),
{
    lemma_last_dot_bounds(name);
    reveal_strlit(".");
    let ext = name.subrange(last_dot(name) + 1, name.len() as int);
    assert(file_stem_of_name(name) + "."@ + ext =~= name);
}

proof fn lemma_last_dot_bounds(name: Seq<char>)
    ensures
        -1 <= last_dot(name) < name.len(),
        last_dot(name) >= 0 ==> name[last_dot(name)] == '.',
    decreases name.len(),
{
    if name.len() > 0 && name.last() != '.' {
        lemma_last_dot_bounds(name.drop_last());
    }
}

/// The label drawn under a recent game's picture is the game's file name with
/// one extension removed (its stem), where the file name and the stem are
/// plain names.
pub proof fn lemma_recent_tile_label_is_stem(
    roms: Seq<Seq<char>>,
    dims: Seq<(u32, u32)>,
    k: int,
    highlight: int,
    x: int,
    y: int,
)
    requires
        0 <= k < dims.len(),
        k < roms.len(),
        plain_name(last_part(roms[k])),
        plain_name(file_stem_of_name(last_part(roms[k]))),
    ensures
        recent_label(roms[k]) == Some(file_stem_of_name(last_part(roms[k]))),
        recent_tiles(roms, dims, k, highlight, x, y)[2] == DrawView::Text(
            x,
            y + dims[k].1 + 10,
            file_stem_of_name(last_part(roms[k])),
            if k == highlight { Color::Blue } else { Color::White },
        ),
{
}

/// A row of the file list shows the entry's file name, which for a last
/// component that is a plain name is that component.
pub proof fn lemma_file_row_shows_file_name(entries: Seq<Seq<char>>, highlight: int, y: int)
    requires
        entries.len() > 0,
        !paths_equal(entries[0], "../"@),
        plain_name(last_part(entries[0])),
    ensures
        file_rows(entries, highlight, y)[0] == DrawView::Text(
            50,
            y,
            last_part(entries[0]),
            if highlight == 0 { Color::Blue } else { Color::White },
        ),
{
}

} // verus!
