use vstd::prelude::*;

verus! {

/// The colors that the views draw with.
#[derive(Clone, Copy, Debug, PartialEq, Eq, Structural)]
pub enum Color {
    White,
    Gray,
    DarkGray,
    VeryDarkGray,
    Blue,
    /// Black at half opacity, which darkens what lies beneath.
    Shade,
}

/// One drawing operation on a view's picture, in pixels.
#[derive(Clone, Debug, PartialEq, Eq)]
pub enum DrawCmd {
    /// A filled rectangle: left, top, width, height, color.
    FillRect(u32, u32, u32, u32, Color),
    /// The scale of the text and pictures drawn after it.
    SetScale(u32),
    /// A line of text: left, top, text, color.
    Text(u32, u32, String, Color),
    /// A picture: left, top, and its position among the pictures handed to
    /// the view.
    Image(u32, u32, usize),
}

/// The meaning of a [`DrawCmd`].
pub enum DrawView {
    FillRect(int, int, int, int, Color),
    SetScale(int),
    Text(int, int, Seq<char>, Color),
    Image(int, int, int),
}

impl View for DrawCmd {
    type V = DrawView;

    open spec fn view(&self) -> DrawView {
        match self {
            DrawCmd::FillRect(x, y, w, h, c) => DrawView::FillRect(
                *x as int,
                *y as int,
                *w as int,
                *h as int,
                *c,
            ),
            DrawCmd::SetScale(s) => DrawView::SetScale(*s as int),
            DrawCmd::Text(x, y, t, c) => DrawView::Text(*x as int, *y as int, t@, *c),
            DrawCmd::Image(x, y, i) => DrawView::Image(*x as int, *y as int, *i as int),
        }
    }
}

/// The meanings of a list of drawing operations.
pub open spec fn draw_views(cmds: Seq<DrawCmd>) -> Seq<DrawView> {
    cmds.map_values(|c: DrawCmd| c@)
}

} // verus!
