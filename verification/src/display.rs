use vstd::prelude::*;

verus! {

/// Number of character rows of the display surface.
pub const BUFFER_HEIGHT: usize = 25;

/// Number of character columns of the display surface.
pub const BUFFER_WIDTH: usize = 80;

/// One of the sixteen colours of a text-mode cell.
#[derive(Debug, Clone, Copy, PartialEq, Eq, Structural)]
pub enum Color {
    Black,
    Blue,
    Green,
    Cyan,
    Red,
    Magenta,
    Brown,
    LightGray,
    DarkGray,
    LightBlue,
    LightGreen,
    LightCyan,
    LightRed,
    Pink,
    Yellow,
    White,
}

/// The attribute of a cell: the colour of the glyph and the colour behind it.
#[derive(Debug, Clone, Copy, PartialEq, Eq, Structural)]
pub struct ColorCode {
    pub foreground: Color,
    pub background: Color,
}

impl ColorCode {
    pub fn new(foreground: Color, background: Color) -> (code: ColorCode)
        ensures
            code == (ColorCode { foreground, background }),
    {
        ColorCode { foreground, background }
    }
}

/// A request to write one cell of the display surface.
///
/// The editor never touches the display itself. Every operation that changes
/// what should be visible hands back the cell writes that make it so, in the
/// order in which they are to be performed.
#[derive(Debug, Clone, Copy, PartialEq, Eq, Structural)]
pub struct Plot {
    pub c: char,
    pub col: usize,
    pub row: usize,
    pub color: ColorCode,
}

/// What a display shows in the cells that were written: column and row to
/// character and attribute.
pub type Picture = Map<(int, int), (char, ColorCode)>;

/// Every write of `plots` addresses a cell of the display surface.
pub open spec fn on_screen(plots: Seq<Plot>) -> bool {
    forall|i: int|
        0 <= i < plots.len() ==> (#[trigger] plots[i]).col < BUFFER_WIDTH && plots[i].row
            < BUFFER_HEIGHT
}

/// The cells that `plots` writes, each with what its last write left there.
pub open spec fn painted(plots: Seq<Plot>) -> Picture
    decreases plots.len(),
{
    if plots.len() == 0 {
        Map::empty()
    } else {
        let last = plots.last();
        painted(plots.drop_last()).insert((last.col as int, last.row as int), (last.c, last.color))
    }
}

/// The write that shows character `i` of a `text` that starts at column
/// `col` of row `row`.
pub open spec fn text_plot(text: Seq<char>, col: int, row: int, color: ColorCode, i: int) -> Plot {
    Plot { c: text[i], col: (col + i) as usize, row: row as usize, color }
}

/// The writes that show `text` from column `col` rightwards in row `row`.
pub open spec fn text_plots(text: Seq<char>, col: int, row: int, color: ColorCode) -> Seq<Plot> {
    Seq::new(text.len(), |i: int| text_plot(text, col, row, color, i))
}

/// A character can be shown when the low byte of its code point, which is all
/// that a display cell keeps of it, is a printable ASCII code.
pub open spec fn drawable(c: char) -> bool {
    0x20 <= (c as u32) % 256 <= 0x7e
}

pub fn is_drawable(c: char) -> (r: bool)
    ensures
        r == drawable(c),
{
    let code: u32 = c as u32;
    let low: u32 = code % 256;
    0x20 <= low && low <= 0x7e
}

/// One more write paints its cell over whatever was painted before.
pub proof fn lemma_painted_push(plots: Seq<Plot>, p: Plot)
    ensures
        painted(plots.push(p)) == painted(plots).insert((p.col as int, p.row as int), (p.c, p.color)),
{
    assert(plots.push(p).drop_last() =~= plots);
}

/// Writes performed one batch after the other paint what the first batch
/// painted, overlaid with what the second painted.
pub proof fn lemma_painted_concat(first: Seq<Plot>, second: Seq<Plot>)
    ensures
        painted(first + second) == painted(first).union_prefer_right(painted(second)),
    decreases second.len(),
{
    if second.len() == 0 {
        assert(first + second =~= first);
        assert(painted(first).union_prefer_right(painted(second)) =~= painted(first));
    } else {
        let last = second.last();
        assert((first + second).drop_last() =~= first + second.drop_last());
        lemma_painted_concat(first, second.drop_last());
        assert(painted(first + second) =~= painted(first).union_prefer_right(painted(second)));
    }
}

/// What a display shows of `text` written from column `col` rightwards in
/// row `row`.
pub open spec fn text_picture(text: Seq<char>, col: int, row: int, color: ColorCode) -> Picture {
    Map::new(
        |at: (int, int)| at.1 == row && col <= at.0 < col + text.len(),
        |at: (int, int)| (text[at.0 - col], color),
    )
}

/// The writes of a text that fits on the display stay on the display and
/// leave the text there, character by character.
pub proof fn lemma_text_painted(text: Seq<char>, col: int, row: int, color: ColorCode)
    requires
        0 <= col,
        col + text.len() <= BUFFER_WIDTH,
        0 <= row < BUFFER_HEIGHT,
    ensures
        on_screen(text_plots(text, col, row, color)),
        painted(text_plots(text, col, row, color)) == text_picture(text, col, row, color),
    decreases text.len(),
{
    if text.len() == 0 {
        assert(painted(text_plots(text, col, row, color)) =~= text_picture(text, col, row, color));
    } else {
        let shorter = text.drop_last();
        lemma_text_painted(shorter, col, row, color);
        assert(text_plots(text, col, row, color).drop_last() =~= text_plots(
            shorter,
            col,
            row,
            color,
        ));
        assert(painted(text_plots(text, col, row, color)) =~= text_picture(text, col, row, color));
    }
}

/// Two batches of writes that stay on the display still do so when one is
/// performed after the other.
pub proof fn lemma_on_screen_concat(first: Seq<Plot>, second: Seq<Plot>)
    requires
        on_screen(first),
        on_screen(second),
    ensures
        on_screen(first + second),
{
    assert forall|i: int| 0 <= i < (first + second).len() implies (#[trigger] (first + second)[i]).col
        < BUFFER_WIDTH && (first + second)[i].row < BUFFER_HEIGHT by {
        if i < first.len() {
            assert((first + second)[i] == first[i]);
        } else {
            assert((first + second)[i] == second[i - first.len()]);
        }
    }
}

} // verus!
