use crate::display::{
    lemma_on_screen_concat, lemma_painted_concat, lemma_painted_push, lemma_text_painted, on_screen,
    painted, text_picture, text_plots, Color, ColorCode, Picture, Plot, BUFFER_HEIGHT, BUFFER_WIDTH,
};
use vstd::prelude::*;
use vstd::string::*;

verus! {

/// Columns of each pane's window.
pub const EDITOR_WIDTH: usize = (BUFFER_WIDTH - 3) / 2;

/// Rows of each pane's window.
pub const EDITOR_HEIGHT: usize = (BUFFER_HEIGHT - 4) / 2;

/// Display column of the left edge of the first pane's window.
pub const DOC1_X: usize = 1;

/// Display row of the top edge of the first pane's window.
pub const DOC1_Y: usize = 2;

/// Display column of the left edge of the second pane's window.
pub const DOC2_X: usize = EDITOR_WIDTH + 2;

/// Display row of the top edge of the second pane's window.
pub const DOC2_Y: usize = 2;

/// Display column of the left edge of the third pane's window.
pub const DOC3_X: usize = 1;

/// Display row of the top edge of the third pane's window.
pub const DOC3_Y: usize = EDITOR_HEIGHT + 3;

/// Display column of the left edge of the fourth pane's window.
pub const DOC4_X: usize = EDITOR_WIDTH + 2;

/// Display row of the top edge of the fourth pane's window.
pub const DOC4_Y: usize = EDITOR_HEIGHT + 3;

/// Display column of the cell whose content tells whether the chrome is
/// still on the display: the first cell of the title.
pub const SENTINEL_COL: usize = BUFFER_WIDTH / 2 - 6;

/// Display row of that cell.
pub const SENTINEL_ROW: usize = 0;

/// Display column of the left edge of pane `pane`'s window. A number that
/// names no pane stands for the first pane.
pub open spec fn pane_x(pane: int) -> int {
    if pane == 2 || pane == 4 {
        DOC2_X as int
    } else {
        DOC1_X as int
    }
}

/// Display row of the top edge of pane `pane`'s window. A number that names
/// no pane stands for the first pane.
pub open spec fn pane_y(pane: int) -> int {
    if pane == 3 || pane == 4 {
        DOC3_Y as int
    } else {
        DOC1_Y as int
    }
}

/// The attribute of the title.
pub open spec fn title_color() -> ColorCode {
    ColorCode { foreground: Color::Blue, background: Color::White }
}

/// The attribute of the frame and of the pane labels.
pub open spec fn frame_color() -> ColorCode {
    ColorCode { foreground: Color::White, background: Color::Blue }
}

/// The attribute of the border of the active pane.
pub open spec fn highlight_color() -> ColorCode {
    ColorCode { foreground: Color::White, background: Color::LightCyan }
}

/// The text of the title.
pub open spec fn title_text() -> Seq<char> {
    " Text Editor "@
}

/// The text of the label of pane `pane`.
pub open spec fn label_text(pane: int) -> Seq<char> {
    if pane == 1 {
        "F1"@
    } else if pane == 2 {
        "F2"@
    } else if pane == 3 {
        "F3"@
    } else {
        "F4"@
    }
}

/// What the sentinel cell holds while the chrome is on the display.
pub open spec fn sentinel() -> (char, ColorCode) {
    (' ', title_color())
}

/// The display cell at column `x` of row `y` belongs to the frame: to one of
/// the three horizontal or three vertical bars that separate and surround the
/// four windows.
pub open spec fn on_frame(x: int, y: int) -> bool {
    &&& 1 <= y < EDITOR_HEIGHT * 2 + 4
    &&& 0 <= x < EDITOR_WIDTH * 2 + 3
    &&& (y == DOC1_Y - 1 || y == DOC3_Y - 1 || y == DOC3_Y + EDITOR_HEIGHT || x == DOC1_X - 1 || x
        == DOC2_X - 1 || x == DOC2_X + EDITOR_WIDTH)
}

/// The write that shows a blank in attribute `color` at column `x` of row `y`.
pub open spec fn blank_plot(x: int, y: int, color: ColorCode) -> Plot {
    Plot { c: ' ', col: x as usize, row: y as usize, color }
}

/// The writes that show the frame cells among the first `rows` cells of
/// display column `x`, from the top down.
pub open spec fn frame_column(x: int, rows: nat) -> Seq<Plot>
    decreases rows,
{
    if rows == 0 {
        Seq::empty()
    } else {
        let above = frame_column(x, (rows - 1) as nat);
        if on_frame(x, rows - 1) {
            above.push(blank_plot(x, rows - 1, frame_color()))
        } else {
            above
        }
    }
}

/// The writes that show the frame cells of the first `columns` columns of
/// the display, column by column from the left.
pub open spec fn frame_plots(columns: nat) -> Seq<Plot>
    decreases columns,
{
    if columns == 0 {
        Seq::empty()
    } else {
        frame_plots((columns - 1) as nat) + frame_column(columns - 1, BUFFER_HEIGHT as nat)
    }
}

/// The writes that highlight the first `n` cells of the bars above and below
/// the window whose top left corner is at (`left`, `top`), from the left, the
/// upper cell of each column before the lower.
pub open spec fn highlight_rows(left: int, top: int, n: nat) -> Seq<Plot> {
    Seq::new(
        2 * n,
        |i: int|
            blank_plot(
                left - 1 + i / 2,
                if i % 2 == 0 {
                    top - 1
                } else {
                    top + EDITOR_HEIGHT
                },
                highlight_color(),
            ),
    )
}

/// The writes that highlight the first `n` cells of the bars left and right
/// of the window whose top left corner is at (`left`, `top`), from the top,
/// the left cell of each row before the right.
pub open spec fn highlight_columns(left: int, top: int, n: nat) -> Seq<Plot> {
    Seq::new(
        2 * n,
        |i: int|
            blank_plot(
                if i % 2 == 0 {
                    left - 1
                } else {
                    left + EDITOR_WIDTH
                },
                top - 1 + i / 2,
                highlight_color(),
            ),
    )
}

/// The writes that highlight the border of pane `active`.
pub open spec fn highlight_plots(active: int) -> Seq<Plot> {
    highlight_rows(pane_x(active), pane_y(active), (EDITOR_WIDTH + 2) as nat) + highlight_columns(
        pane_x(active),
        pane_y(active),
        (EDITOR_HEIGHT + 2) as nat,
    )
}

/// The writes that show the label of pane `pane`, in the middle of the bar
/// above its window.
pub open spec fn label_plots(pane: int) -> Seq<Plot> {
    text_plots(
        label_text(pane),
        pane_x(pane) + EDITOR_WIDTH / 2 - 1,
        pane_y(pane) - 1,
        frame_color(),
    )
}

/// The writes that show the title in the middle of the first row.
pub open spec fn title_plots() -> Seq<Plot> {
    text_plots(title_text(), SENTINEL_COL as int, SENTINEL_ROW as int, title_color())
}

/// The writes that draw the chrome with pane `active` highlighted: the
/// title, the frame, the highlighted border on top of the frame, and the four
/// labels on top of both.
pub open spec fn chrome_plots(active: int) -> Seq<Plot> {
    title_plots() + frame_plots(BUFFER_WIDTH as nat) + highlight_plots(active) + label_plots(1)
        + label_plots(2) + label_plots(3) + label_plots(4)
}

/// The display cell at column `x` of row `y` shows a character of the title.
pub open spec fn on_title(x: int, y: int) -> bool {
    y == SENTINEL_ROW && SENTINEL_COL <= x < SENTINEL_COL + title_text().len()
}

/// The display cell at column `x` of row `y` lies on the border of pane
/// `active`: on the bars right above and below its window, or right beside it.
pub open spec fn on_border(active: int, x: int, y: int) -> bool {
    let left = pane_x(active);
    let top = pane_y(active);
    ||| left - 1 <= x <= left + EDITOR_WIDTH && (y == top - 1 || y == top + EDITOR_HEIGHT)
    ||| top - 1 <= y <= top + EDITOR_HEIGHT && (x == left - 1 || x == left + EDITOR_WIDTH)
}

/// The display cell at column `x` of row `y` shows a character of the label
/// of pane `pane`.
pub open spec fn on_label(pane: int, x: int, y: int) -> bool {
    y == pane_y(pane) - 1 && pane_x(pane) + EDITOR_WIDTH / 2 - 1 <= x < pane_x(pane) + EDITOR_WIDTH
        / 2 + 1
}

/// The pane whose label the display cell at column `x` of row `y` shows, or
/// 0 where it shows none.
pub open spec fn labelled(x: int, y: int) -> int {
    if on_label(1, x, y) {
        1
    } else if on_label(2, x, y) {
        2
    } else if on_label(3, x, y) {
        3
    } else if on_label(4, x, y) {
        4
    } else {
        0
    }
}

/// What the display shows of the chrome with pane `active` highlighted: the
/// title in the first row, and on the frame blanks in the frame's attribute,
/// but on the border of the active pane blanks in the highlight, and the
/// four labels in the frame's attribute on top of either.
pub open spec fn chrome_picture(active: int) -> Picture {
    Map::new(
        |at: (int, int)| on_title(at.0, at.1) || on_frame(at.0, at.1),
        |at: (int, int)|
            if labelled(at.0, at.1) != 0 {
                let pane = labelled(at.0, at.1);
                (label_text(pane)[at.0 - (pane_x(pane) + EDITOR_WIDTH / 2 - 1)], frame_color())
            } else if on_border(active, at.0, at.1) {
                (' ', highlight_color())
            } else if on_frame(at.0, at.1) {
                (' ', frame_color())
            } else {
                (title_text()[at.0 - SENTINEL_COL], title_color())
            },
    )
}

proof fn lemma_frame_column_painted(x: int, rows: nat)
    requires
        0 <= x < BUFFER_WIDTH,
        rows <= BUFFER_HEIGHT,
    ensures
        on_screen(frame_column(x, rows)),
        painted(frame_column(x, rows)) == Map::new(
            |at: (int, int)| at.0 == x && 0 <= at.1 < rows && on_frame(at.0, at.1),
            |at: (int, int)| (' ', frame_color()),
        ),
    decreases rows,
{
    let picture = Map::new(
        |at: (int, int)| at.0 == x && 0 <= at.1 < rows && on_frame(at.0, at.1),
        |at: (int, int)| (' ', frame_color()),
    );
    if rows == 0 {
        assert(painted(frame_column(x, rows)) =~= picture);
    } else {
        let above = (rows - 1) as nat;
        lemma_frame_column_painted(x, above);
        if on_frame(x, rows - 1) {
            lemma_painted_push(frame_column(x, above), blank_plot(x, rows - 1, frame_color()));
        }
        assert(painted(frame_column(x, rows)) =~= picture);
    }
}

proof fn lemma_frame_painted(columns: nat)
    requires
        columns <= BUFFER_WIDTH,
    ensures
        on_screen(frame_plots(columns)),
        painted(frame_plots(columns)) == Map::new(
            |at: (int, int)| 0 <= at.0 < columns && on_frame(at.0, at.1),
            |at: (int, int)| (' ', frame_color()),
        ),
    decreases columns,
{
    let picture = Map::new(
        |at: (int, int)| 0 <= at.0 < columns && on_frame(at.0, at.1),
        |at: (int, int)| (' ', frame_color()),
    );
    if columns == 0 {
        assert(painted(frame_plots(columns)) =~= picture);
    } else {
        let before = (columns - 1) as nat;
        lemma_frame_painted(before);
        lemma_frame_column_painted(before as int, BUFFER_HEIGHT as nat);
        lemma_painted_concat(frame_plots(before), frame_column(before as int, BUFFER_HEIGHT as nat));
        lemma_on_screen_concat(frame_plots(before), frame_column(before as int, BUFFER_HEIGHT as nat));
        assert(painted(frame_plots(columns)) =~= picture);
    }
}

proof fn lemma_highlight_rows_painted(left: int, top: int, n: nat)
    requires
        1 <= left,
        1 <= top,
        left - 1 + n <= BUFFER_WIDTH,
        top + EDITOR_HEIGHT < BUFFER_HEIGHT,
    ensures
        on_screen(highlight_rows(left, top, n)),
        painted(highlight_rows(left, top, n)) == Map::new(
            |at: (int, int)|
                left - 1 <= at.0 < left - 1 + n && (at.1 == top - 1 || at.1 == top + EDITOR_HEIGHT),
            |at: (int, int)| (' ', highlight_color()),
        ),
    decreases n,
{
    let picture = Map::new(
        |at: (int, int)|
            left - 1 <= at.0 < left - 1 + n && (at.1 == top - 1 || at.1 == top + EDITOR_HEIGHT),
        |at: (int, int)| (' ', highlight_color()),
    );
    if n == 0 {
        assert(painted(highlight_rows(left, top, n)) =~= picture);
    } else {
        let before = (n - 1) as nat;
        lemma_highlight_rows_painted(left, top, before);
        let upper = blank_plot(left - 1 + before, top - 1, highlight_color());
        let lower = blank_plot(left - 1 + before, top + EDITOR_HEIGHT, highlight_color());
        assert(highlight_rows(left, top, n) =~= highlight_rows(left, top, before).push(upper).push(
            lower,
        ));
        lemma_painted_push(highlight_rows(left, top, before), upper);
        lemma_painted_push(highlight_rows(left, top, before).push(upper), lower);
        assert(painted(highlight_rows(left, top, n)) =~= picture);
    }
}

proof fn lemma_highlight_columns_painted(left: int, top: int, n: nat)
    requires
        1 <= left,
        1 <= top,
        left + EDITOR_WIDTH < BUFFER_WIDTH,
        top - 1 + n <= BUFFER_HEIGHT,
    ensures
        on_screen(highlight_columns(left, top, n)),
        painted(highlight_columns(left, top, n)) == Map::new(
            |at: (int, int)|
                top - 1 <= at.1 < top - 1 + n && (at.0 == left - 1 || at.0 == left + EDITOR_WIDTH),
            |at: (int, int)| (' ', highlight_color()),
        ),
    decreases n,
{
    let picture = Map::new(
        |at: (int, int)|
            top - 1 <= at.1 < top - 1 + n && (at.0 == left - 1 || at.0 == left + EDITOR_WIDTH),
        |at: (int, int)| (' ', highlight_color()),
    );
    if n == 0 {
        assert(painted(highlight_columns(left, top, n)) =~= picture);
    } else {
        let before = (n - 1) as nat;
        lemma_highlight_columns_painted(left, top, before);
        let left_plot = blank_plot(left - 1, top - 1 + before, highlight_color());
        let right_plot = blank_plot(left + EDITOR_WIDTH, top - 1 + before, highlight_color());
        assert(highlight_columns(left, top, n) =~= highlight_columns(left, top, before).push(
            left_plot,
        ).push(right_plot));
        lemma_painted_push(highlight_columns(left, top, before), left_plot);
        lemma_painted_push(highlight_columns(left, top, before).push(left_plot), right_plot);
        assert(painted(highlight_columns(left, top, n)) =~= picture);
    }
}

/// Drawing the chrome writes only cells of the display, and leaves on it
/// exactly the chrome's picture.
pub proof fn lemma_chrome_paints_picture(active: int)
    ensures
        on_screen(chrome_plots(active)),
        painted(chrome_plots(active)) == chrome_picture(active),
{
    reveal_strlit(" Text Editor ");
    reveal_strlit("F1");
    reveal_strlit("F2");
    reveal_strlit("F3");
    reveal_strlit("F4");
    let left = pane_x(active);
    let top = pane_y(active);
    let title = title_plots();
    let frame = frame_plots(BUFFER_WIDTH as nat);
    let rows = highlight_rows(left, top, (EDITOR_WIDTH + 2) as nat);
    let columns = highlight_columns(left, top, (EDITOR_HEIGHT + 2) as nat);
    lemma_text_painted(title_text(), SENTINEL_COL as int, SENTINEL_ROW as int, title_color());
    lemma_frame_painted(BUFFER_WIDTH as nat);
    lemma_highlight_rows_painted(left, top, (EDITOR_WIDTH + 2) as nat);
    lemma_highlight_columns_painted(left, top, (EDITOR_HEIGHT + 2) as nat);
    lemma_label_painted(1);
    lemma_label_painted(2);
    lemma_label_painted(3);
    lemma_label_painted(4);
    let a = title + frame;
    lemma_painted_concat(title, frame);
    lemma_on_screen_concat(title, frame);
    lemma_painted_concat(rows, columns);
    lemma_on_screen_concat(rows, columns);
    let b = a + highlight_plots(active);
    lemma_painted_concat(a, highlight_plots(active));
    lemma_on_screen_concat(a, highlight_plots(active));
    let c = b + label_plots(1);
    lemma_painted_concat(b, label_plots(1));
    lemma_on_screen_concat(b, label_plots(1));
    let d = c + label_plots(2);
    lemma_painted_concat(c, label_plots(2));
    lemma_on_screen_concat(c, label_plots(2));
    let e = d + label_plots(3);
    lemma_painted_concat(d, label_plots(3));
    lemma_on_screen_concat(d, label_plots(3));
    lemma_painted_concat(e, label_plots(4));
    lemma_on_screen_concat(e, label_plots(4));
    assert(painted(chrome_plots(active)) =~= chrome_picture(active));
}

proof fn lemma_label_painted(pane: int)
    requires
        1 <= pane <= 4,
    ensures
        on_screen(label_plots(pane)),
        painted(label_plots(pane)) == text_picture(
            label_text(pane),
            pane_x(pane) + EDITOR_WIDTH / 2 - 1,
            pane_y(pane) - 1,
            frame_color(),
        ),
        label_text(pane).len() == 2,
{
    reveal_strlit("F1");
    reveal_strlit("F2");
    reveal_strlit("F3");
    reveal_strlit("F4");
    lemma_text_painted(
        label_text(pane),
        pane_x(pane) + EDITOR_WIDTH / 2 - 1,
        pane_y(pane) - 1,
        frame_color(),
    );
}

/// Once the chrome is drawn, the sentinel cell holds what a tick expects to
/// find there, whichever pane is active.
pub proof fn lemma_chrome_restores_sentinel(active: int)
    ensures
        chrome_picture(active).dom().contains((SENTINEL_COL as int, SENTINEL_ROW as int)),
        chrome_picture(active)[(SENTINEL_COL as int, SENTINEL_ROW as int)] == sentinel(),
{
    reveal_strlit(" Text Editor ");
}

/// Appends the writes that show `text` from column `col` rightwards in row
/// `row`.
pub(crate) fn push_text(plots: &mut Vec<Plot>, text: &str, col: usize, row: usize, color: ColorCode)
    requires
        col + text@.len() <= BUFFER_WIDTH,
    ensures
        final(plots)@ == old(plots)@ + text_plots(text@, col as int, row as int, color),
{
    let n: usize = text.unicode_len();
    let mut i: usize = 0;
    while i < n
        invariant
            i <= n,
            n == text@.len(),
            col + n <= BUFFER_WIDTH,
            plots@ == old(plots)@ + text_plots(text@, col as int, row as int, color).take(i as int),
        decreases n - i,
    {
        let plot = Plot { c: text.get_char(i), col: col + i, row, color };
        plots.push(plot);
        assert(text_plots(text@, col as int, row as int, color).take(i + 1) =~= text_plots(
            text@,
            col as int,
            row as int,
            color,
        ).take(i as int).push(plot));
        i += 1;
    }
    assert(text_plots(text@, col as int, row as int, color).take(n as int) =~= text_plots(
        text@,
        col as int,
        row as int,
        color,
    ));
}

/// Appends the writes that show the frame.
pub(crate) fn push_frame(plots: &mut Vec<Plot>)
    ensures
        final(plots)@ == old(plots)@ + frame_plots(BUFFER_WIDTH as nat),
{
    let color = ColorCode::new(Color::White, Color::Blue);
    let mut x: usize = 0;
    while x < BUFFER_WIDTH
        invariant
            x <= BUFFER_WIDTH,
            color == frame_color(),
            plots@ == old(plots)@ + frame_plots(x as nat),
        decreases BUFFER_WIDTH - x,
    {
        let mut y: usize = 0;
        while y < BUFFER_HEIGHT
            invariant
                x < BUFFER_WIDTH,
                y <= BUFFER_HEIGHT,
                color == frame_color(),
                plots@ == old(plots)@ + frame_plots(x as nat) + frame_column(x as int, y as nat),
            decreases BUFFER_HEIGHT - y,
        {
            if y != 0 && (y == DOC1_Y - 1 || y == DOC3_Y - 1 || y == DOC3_Y + EDITOR_HEIGHT || x
                == DOC1_X - 1 || x == DOC2_X - 1 || x == DOC2_X + EDITOR_WIDTH) {
                if y < EDITOR_HEIGHT * 2 + 4 && x < EDITOR_WIDTH * 2 + 3 {
                    plots.push(Plot { c: ' ', col: x, row: y, color });
                }
            }
            assert(on_frame(x as int, y as int) ==> frame_column(x as int, (y + 1) as nat)
                == frame_column(x as int, y as nat).push(
                blank_plot(x as int, y as int, frame_color()),
            ));
            y += 1;
        }
        assert(plots@ == old(plots)@ + frame_plots((x + 1) as nat));
        x += 1;
    }
}

/// Appends the writes that highlight the border of the window whose top left
/// corner is at (`left`, `top`).
pub(crate) fn push_highlight(plots: &mut Vec<Plot>, left: usize, top: usize)
    requires
        1 <= left,
        1 <= top,
        left + EDITOR_WIDTH < BUFFER_WIDTH,
        top + EDITOR_HEIGHT < BUFFER_HEIGHT,
    ensures
        final(plots)@ == old(plots)@ + highlight_rows(
            left as int,
            top as int,
            (EDITOR_WIDTH + 2) as nat,
        ) + highlight_columns(left as int, top as int, (EDITOR_HEIGHT + 2) as nat),
{
    let color = ColorCode::new(Color::White, Color::LightCyan);
    let mut x: usize = left - 1;
    while x < left + EDITOR_WIDTH + 1
        invariant
            left - 1 <= x <= left + EDITOR_WIDTH + 1,
            1 <= left,
            1 <= top,
            left + EDITOR_WIDTH < BUFFER_WIDTH,
            top + EDITOR_HEIGHT < BUFFER_HEIGHT,
            color == highlight_color(),
            plots@ == old(plots)@ + highlight_rows(left as int, top as int, (x - (left - 1)) as nat),
        decreases left + EDITOR_WIDTH + 1 - x,
    {
        let upper = Plot { c: ' ', col: x, row: top - 1, color };
        let lower = Plot { c: ' ', col: x, row: top + EDITOR_HEIGHT, color };
        plots.push(upper);
        plots.push(lower);
        assert(highlight_rows(left as int, top as int, (x + 1 - (left - 1)) as nat)
            =~= highlight_rows(left as int, top as int, (x - (left - 1)) as nat).push(upper).push(
            lower,
        ));
        x += 1;
    }
    let ghost rows = plots@;
    let mut y: usize = top - 1;
    while y < top + EDITOR_HEIGHT + 1
        invariant
            top - 1 <= y <= top + EDITOR_HEIGHT + 1,
            1 <= left,
            1 <= top,
            left + EDITOR_WIDTH < BUFFER_WIDTH,
            top + EDITOR_HEIGHT < BUFFER_HEIGHT,
            color == highlight_color(),
            plots@ == rows + highlight_columns(left as int, top as int, (y - (top - 1)) as nat),
        decreases top + EDITOR_HEIGHT + 1 - y,
    {
        let left_plot = Plot { c: ' ', col: left - 1, row: y, color };
        let right_plot = Plot { c: ' ', col: left + EDITOR_WIDTH, row: y, color };
        plots.push(left_plot);
        plots.push(right_plot);
        assert(highlight_columns(left as int, top as int, (y + 1 - (top - 1)) as nat)
            =~= highlight_columns(left as int, top as int, (y - (top - 1)) as nat).push(
            left_plot,
        ).push(right_plot));
        y += 1;
    }
}

} // verus!
