use crate::command::Command;
use crate::display::{
    lemma_painted_concat, lemma_painted_push, on_screen, painted, Color, ColorCode, Picture, Plot,
    BUFFER_HEIGHT, BUFFER_WIDTH,
};
use vstd::prelude::*;

verus! {

/// One pane of the editor: a page of characters, a cursor on the page, and
/// the window of the page that is visible on the display.
#[derive(Debug, Clone, PartialEq, Eq)]
pub struct Document {
    doc_width: usize,
    doc_height: usize,
    top_x: usize,
    top_y: usize,
    cur_x: usize,
    cur_y: usize,
    content: Vec<Vec<char>>,
    offset: usize,
}

/// The mathematical value of a [`Document`].
pub struct DocumentView {
    /// Columns of the window and of the page.
    pub doc_width: nat,
    /// Rows of the window; the page has four times as many.
    pub doc_height: nat,
    /// Display column of the window's left edge.
    pub top_x: nat,
    /// Display row of the window's top edge.
    pub top_y: nat,
    /// Cursor column on the page.
    pub cur_x: nat,
    /// Cursor row on the page.
    pub cur_y: nat,
    /// The page, row by row.
    pub content: Seq<Seq<char>>,
    /// The page row that the first window row shows.
    pub offset: nat,
}

/// Something that happens to a document: a character is typed into it or a
/// command is applied to it.
pub enum Edit {
    Character(char),
    Command(Command),
}

impl DocumentView {
    /// Rows of the page.
    pub open spec fn page_height(self) -> nat {
        self.doc_height * 4
    }

    /// The document as it is created: a page of blanks, the cursor in its
    /// first cell, the window at the top of the page.
    pub open spec fn blank(doc_width: nat, doc_height: nat, top_x: nat, top_y: nat) -> DocumentView {
        DocumentView {
            doc_width,
            doc_height,
            top_x,
            top_y,
            cur_x: 0,
            cur_y: 0,
            content: Seq::new(doc_height * 4, |y: int| Seq::new(doc_width, |x: int| ' ')),
            offset: 0,
        }
    }

    /// The window has at least one cell and lies on the display, the page has
    /// the size that the window calls for, the cursor is on the page, and the
    /// window does not reach below the page.
    pub open spec fn well_sized(self) -> bool {
        &&& 1 <= self.doc_width
        &&& 1 <= self.doc_height
        &&& self.top_x + self.doc_width <= BUFFER_WIDTH
        &&& self.top_y + self.doc_height <= BUFFER_HEIGHT
        &&& self.content.len() == self.page_height()
        &&& forall|y: int| 0 <= y < self.content.len() ==> (#[trigger] self.content[y]).len() == self.doc_width
        &&& self.cur_x < self.doc_width
        &&& self.cur_y < self.page_height()
        &&& self.offset + self.doc_height <= self.page_height()
    }

    /// The cursor's row is one of the rows that the window shows.
    pub open spec fn cursor_visible(self) -> bool {
        self.offset <= self.cur_y <= self.offset + self.doc_height - 1
    }

    /// The cursor's row is in the window or right above or below it.
    pub open spec fn cursor_near(self) -> bool {
        self.offset <= self.cur_y + 1 && self.cur_y <= self.offset + self.doc_height
    }

    /// The state of a document between two operations.
    pub open spec fn wf(self) -> bool {
        self.well_sized() && self.cursor_visible()
    }

    /// The document with `c` in the page cell at column `x` of row `y`.
    pub open spec fn write(self, x: int, y: int, c: char) -> DocumentView {
        DocumentView { content: self.content.update(y, self.content[y].update(x, c)), ..self }
    }

    /// The document with the cursor at column `x` of row `y`.
    pub open spec fn cursor_at(self, x: nat, y: nat) -> DocumentView {
        DocumentView { cur_x: x, cur_y: y, ..self }
    }

    /// What `command` does to page and cursor, before the window follows.
    pub open spec fn edited(self, command: Command) -> DocumentView {
        match command {
            Command::NewLine => if self.cur_y + 1 < self.page_height() {
                self.cursor_at(0, self.cur_y + 1)
            } else {
                self
            },
            Command::BackSpace => if self.cur_x >= 1 {
                self.write(self.cur_x - 1, self.cur_y as int, ' ').cursor_at(
                    (self.cur_x - 1) as nat,
                    self.cur_y,
                )
            } else if self.cur_y >= 1 {
                self.write(self.doc_width - 1, self.cur_y - 1, ' ').cursor_at(
                    (self.doc_width - 1) as nat,
                    (self.cur_y - 1) as nat,
                )
            } else {
                self
            },
            Command::Left => if self.cur_x != 0 {
                self.cursor_at((self.cur_x - 1) as nat, self.cur_y)
            } else {
                self.cursor_at((self.doc_width - 1) as nat, self.cur_y)
            },
            Command::Right => if self.cur_x != self.doc_width - 1 {
                self.cursor_at(self.cur_x + 1, self.cur_y)
            } else {
                self.cursor_at(0, self.cur_y)
            },
            Command::Up => if self.cur_y != 0 {
                self.cursor_at(self.cur_x, (self.cur_y - 1) as nat)
            } else {
                self
            },
            Command::Down => if self.cur_y != self.page_height() - 1 {
                self.cursor_at(self.cur_x, self.cur_y + 1)
            } else {
                self
            },
        }
    }

    /// What typing `c` does to page and cursor, before the window follows:
    /// `c` lands under the cursor, and the cursor moves on to the next cell
    /// of the page, if there is one.
    pub open spec fn typed(self, c: char) -> DocumentView {
        let written = self.write(self.cur_x as int, self.cur_y as int, c);
        if self.cur_x + 1 < self.doc_width {
            written.cursor_at(self.cur_x + 1, self.cur_y)
        } else if self.cur_y + 1 < self.page_height() {
            written.cursor_at(0, self.cur_y + 1)
        } else {
            written
        }
    }

    /// The window moves one row towards a cursor that has left it.
    pub open spec fn follow(self) -> DocumentView {
        if self.cur_y > self.offset + self.doc_height - 1 {
            DocumentView { offset: self.offset + 1, ..self }
        } else if self.cur_y < self.offset {
            DocumentView { offset: (self.offset - 1) as nat, ..self }
        } else {
            self
        }
    }

    /// The document after `command`.
    pub open spec fn apply_command(self, command: Command) -> DocumentView {
        self.edited(command).follow()
    }

    /// The document after `c` was typed.
    pub open spec fn insert_character(self, c: char) -> DocumentView {
        self.typed(c).follow()
    }

    /// The document after `edit`.
    pub open spec fn apply(self, edit: Edit) -> DocumentView {
        match edit {
            Edit::Character(c) => self.insert_character(c),
            Edit::Command(command) => self.apply_command(command),
        }
    }

    /// The document after `edits`, the first of them first.
    pub open spec fn apply_all(self, edits: Seq<Edit>) -> DocumentView
        decreases edits.len(),
    {
        if edits.len() == 0 {
            self
        } else {
            self.apply_all(edits.drop_last()).apply(edits.last())
        }
    }

    /// The attribute of the text in the window.
    pub open spec fn text_color() -> ColorCode {
        ColorCode { foreground: Color::White, background: Color::Black }
    }

    /// The attribute of the caret.
    pub open spec fn caret_color() -> ColorCode {
        ColorCode { foreground: Color::White, background: Color::White }
    }

    /// The write that shows window cell (`x`, `y`): the page cell `offset`
    /// rows further down, at the window's place on the display.
    pub open spec fn cell_plot(self, x: int, y: int) -> Plot {
        Plot {
            c: self.content[y + self.offset][x],
            col: (x + self.top_x) as usize,
            row: (y + self.top_y) as usize,
            color: Self::text_color(),
        }
    }

    /// The write that shows the caret: a blank in the caret's attribute at
    /// the cursor's place on the display.
    pub open spec fn caret(self) -> Plot {
        Plot {
            c: ' ',
            col: (self.cur_x + self.top_x) as usize,
            row: (self.cur_y + self.top_y - self.offset) as usize,
            color: Self::caret_color(),
        }
    }

    /// The writes that show the first `rows` cells of window column `x`, from
    /// the top down.
    pub open spec fn column_plots(self, x: int, rows: nat) -> Seq<Plot> {
        Seq::new(rows, |y: int| self.cell_plot(x, y))
    }

    /// The writes that show the first `columns` columns of the window, from
    /// the left, each of them whole.
    pub open spec fn window_plots(self, columns: nat) -> Seq<Plot>
        decreases columns,
    {
        if columns == 0 {
            Seq::empty()
        } else {
            self.window_plots((columns - 1) as nat) + self.column_plots(
                columns - 1,
                self.doc_height,
            )
        }
    }

    /// The writes that redraw the pane: the whole window, then the caret on
    /// top of it.
    pub open spec fn redraw(self) -> Seq<Plot> {
        self.window_plots(self.doc_width).push(self.caret())
    }
}

impl DocumentView {
    /// The display cell at column `col` of row `row` belongs to the window.
    pub open spec fn in_window(self, col: int, row: int) -> bool {
        self.top_x <= col < self.top_x + self.doc_width && self.top_y <= row < self.top_y
            + self.doc_height
    }

    /// What the display shows of the document: in every cell of the window
    /// the page cell that lies `offset` rows further down, in the text
    /// attribute, but for the cursor's cell, which shows the caret.
    pub open spec fn picture(self) -> Picture {
        Map::new(
            |at: (int, int)| self.in_window(at.0, at.1),
            |at: (int, int)|
                if at.0 == self.cur_x + self.top_x && at.1 == self.cur_y + self.top_y - self.offset {
                    (' ', Self::caret_color())
                } else {
                    (self.content[at.1 - self.top_y + self.offset][at.0 - self.top_x], Self::text_color())
                },
        )
    }

    /// What the first `rows` cells of window column `x` show.
    spec fn column_picture(self, x: int, rows: nat) -> Picture {
        Map::new(
            |at: (int, int)| at.0 == self.top_x + x && self.top_y <= at.1 < self.top_y + rows,
            |at: (int, int)|
                (self.content[at.1 - self.top_y + self.offset][at.0 - self.top_x], Self::text_color()),
        )
    }

    /// What the first `columns` columns of the window show.
    spec fn columns_picture(self, columns: nat) -> Picture {
        Map::new(
            |at: (int, int)|
                self.top_x <= at.0 < self.top_x + columns && self.top_y <= at.1 < self.top_y
                    + self.doc_height,
            |at: (int, int)|
                (self.content[at.1 - self.top_y + self.offset][at.0 - self.top_x], Self::text_color()),
        )
    }

    proof fn lemma_column_painted(self, x: int, rows: nat)
        requires
            self.well_sized(),
            0 <= x < self.doc_width,
            rows <= self.doc_height,
        ensures
            painted(self.column_plots(x, rows)) == self.column_picture(x, rows),
            on_screen(self.column_plots(x, rows)),
        decreases rows,
    {
        if rows == 0 {
            assert(painted(self.column_plots(x, rows)) =~= self.column_picture(x, rows));
        } else {
            let before = (rows - 1) as nat;
            self.lemma_column_painted(x, before);
            assert(self.column_plots(x, rows) =~= self.column_plots(x, before).push(
                self.cell_plot(x, before as int),
            ));
            lemma_painted_push(self.column_plots(x, before), self.cell_plot(x, before as int));
            assert(painted(self.column_plots(x, rows)) =~= self.column_picture(x, rows));
        }
    }

    proof fn lemma_window_painted(self, columns: nat)
        requires
            self.well_sized(),
            columns <= self.doc_width,
        ensures
            painted(self.window_plots(columns)) == self.columns_picture(columns),
            on_screen(self.window_plots(columns)),
        decreases columns,
    {
        if columns == 0 {
            assert(painted(self.window_plots(columns)) =~= self.columns_picture(columns));
        } else {
            let before = (columns - 1) as nat;
            self.lemma_window_painted(before);
            self.lemma_column_painted(before as int, self.doc_height);
            lemma_painted_concat(
                self.window_plots(before),
                self.column_plots(before as int, self.doc_height),
            );
            assert(painted(self.window_plots(columns)) =~= self.columns_picture(columns));
        }
    }

    /// Redrawing a pane writes only cells of the display, and leaves on it
    /// exactly the document's picture.
    pub proof fn lemma_redraw_paints_picture(self)
        requires
            self.wf(),
        ensures
            on_screen(self.redraw()),
            painted(self.redraw()) == self.picture(),
    {
        self.lemma_window_painted(self.doc_width);
        lemma_painted_push(self.window_plots(self.doc_width), self.caret());
        assert(painted(self.redraw()) =~= self.picture());
    }

    /// An edit takes a document in order to a document in order, of the same
    /// size and at the same place.
    pub proof fn lemma_apply_keeps_wf(self, edit: Edit)
        requires
            self.wf(),
        ensures
            self.apply(edit).wf(),
            self.apply(edit).doc_width == self.doc_width,
            self.apply(edit).doc_height == self.doc_height,
            self.apply(edit).top_x == self.top_x,
            self.apply(edit).top_y == self.top_y,
    {
    }

    /// Whatever is typed and whatever commands are applied, in whatever
    /// order, the cursor stays on the page and in the window, and the window
    /// stays on the page.
    pub proof fn lemma_cursor_stays_in_range(self, edits: Seq<Edit>)
        requires
            self.wf(),
        ensures
            self.apply_all(edits).wf(),
            self.apply_all(edits).doc_width == self.doc_width,
            self.apply_all(edits).doc_height == self.doc_height,
            self.apply_all(edits).top_x == self.top_x,
            self.apply_all(edits).top_y == self.top_y,
            0 <= self.apply_all(edits).cur_x < self.doc_width,
            0 <= self.apply_all(edits).cur_y < self.doc_height * 4,
            self.apply_all(edits).offset <= self.apply_all(edits).cur_y <= self.apply_all(
                edits,
            ).offset + self.doc_height - 1,
            0 <= self.apply_all(edits).offset <= self.doc_height * 4 - self.doc_height,
        decreases edits.len(),
    {
        if edits.len() > 0 {
            self.lemma_cursor_stays_in_range(edits.drop_last());
            self.apply_all(edits.drop_last()).lemma_apply_keeps_wf(edits.last());
        }
    }

    /// `n` times the command `command`.
    pub open spec fn repeated(command: Command, n: nat) -> Seq<Edit> {
        Seq::new(n, |i: int| Edit::Command(command))
    }

    /// From the first row of the page, with the window at the top, `NewLine`
    /// after `NewLine` takes the cursor down row by row to the last row of
    /// the page, where it stays; the window stands still until the cursor
    /// leaves it and from then on moves down with it, a row at a time.
    pub proof fn lemma_new_lines_stop_at_last_row(self, n: nat)
        requires
            self.wf(),
            self.cur_y == 0,
            self.offset == 0,
        ensures
            self.apply_all(Self::repeated(Command::NewLine, n)).cur_y == if n < self.page_height() {
                n
            } else {
                (self.page_height() - 1) as nat
            },
            self.apply_all(Self::repeated(Command::NewLine, n)).offset == if n < self.doc_height {
                0
            } else if n < self.page_height() {
                n - (self.doc_height - 1)
            } else {
                self.page_height() - self.doc_height
            },
            1 <= n < self.page_height() ==> self.apply_all(
                Self::repeated(Command::NewLine, n),
            ).cur_x == 0,
        decreases n,
    {
        if n > 0 {
            let before = (n - 1) as nat;
            self.lemma_new_lines_stop_at_last_row(before);
            self.lemma_cursor_stays_in_range(Self::repeated(Command::NewLine, before));
            assert(Self::repeated(Command::NewLine, n).drop_last() =~= Self::repeated(
                Command::NewLine,
                before,
            ));
        }
    }

    /// `Left` and then `Right` bring a document back to where it was, from
    /// every column: from the first one the cursor wraps to the last and
    /// back.
    pub proof fn lemma_left_then_right(self)
        requires
            self.wf(),
        ensures
            self.apply_command(Command::Left).apply_command(Command::Right) == self,
            self.cur_x == 0 ==> self.apply_command(Command::Left).cur_x == self.doc_width - 1,
            self.cur_x > 0 ==> self.apply_command(Command::Left).cur_x == self.cur_x - 1,
    {
    }

    /// `BackSpace` in the first column of a row but the first takes the
    /// cursor to the last column of the row above and blanks that cell, and
    /// changes nothing else; in the first cell of the page it changes nothing
    /// at all.
    pub proof fn lemma_backspace_in_first_column(self)
        requires
            self.wf(),
            self.cur_x == 0,
        ensures
            self.cur_y == 0 ==> self.apply_command(Command::BackSpace) == self,
            self.cur_y > 0 ==> {
                let after = self.apply_command(Command::BackSpace);
                &&& after.cur_x == self.doc_width - 1
                &&& after.cur_y == self.cur_y - 1
                &&& after.content[after.cur_y as int][after.cur_x as int] == ' '
                &&& after.content == self.write(self.doc_width - 1, self.cur_y - 1, ' ').content
                &&& after == self.write(self.doc_width - 1, self.cur_y - 1, ' ').cursor_at(
                    after.cur_x,
                    after.cur_y,
                ).follow()
            },
    {
    }
}

impl View for Document {
    type V = DocumentView;

    closed spec fn view(&self) -> DocumentView {
        DocumentView {
            doc_width: self.doc_width as nat,
            doc_height: self.doc_height as nat,
            top_x: self.top_x as nat,
            top_y: self.top_y as nat,
            cur_x: self.cur_x as nat,
            cur_y: self.cur_y as nat,
            content: Seq::new(self.content@.len(), |y: int| self.content@[y]@),
            offset: self.offset as nat,
        }
    }
}

impl Document {
    /// Row `y` of the page as the vector holds it.
    proof fn lemma_row(&self, y: int)
        requires
            self@.well_sized(),
            0 <= y < self@.page_height(),
        ensures
            self.content@.len() == self@.page_height(),
            self.content@[y]@ == self@.content[y],
            self.content@[y]@.len() == self@.doc_width,
    {
        assert(self@.content[y].len() == self@.doc_width);
    }

    /// A blank document whose window is `doc_width` columns wide and
    /// `doc_height` rows tall and has its top left corner at column `top_x`
    /// of row `top_y` of the display.
    ///
    /// The window must have at least one cell and lie on the display.
    pub fn new(doc_width: usize, doc_height: usize, top_x: usize, top_y: usize) -> (doc: Document)
        requires
            1 <= doc_width,
            1 <= doc_height,
            top_x + doc_width <= BUFFER_WIDTH,
            top_y + doc_height <= BUFFER_HEIGHT,
        ensures
            doc@ == DocumentView::blank(doc_width as nat, doc_height as nat, top_x as nat, top_y as nat),
            doc@.wf(),
    {
        let page_height: usize = doc_height * 4;
        let mut content: Vec<Vec<char>> = Vec::new();
        let mut y: usize = 0;
        while y < page_height
            invariant
                y <= page_height,
                content@.len() == y,
                forall|j: int|
                    0 <= j < y ==> (#[trigger] content@[j])@ == Seq::new(doc_width as nat, |x: int| ' '),
            decreases page_height - y,
        {
            let mut row: Vec<char> = Vec::new();
            let mut x: usize = 0;
            while x < doc_width
                invariant
                    x <= doc_width,
                    row@ == Seq::new(x as nat, |i: int| ' '),
                decreases doc_width - x,
            {
                row.push(' ');
                x += 1;
            }
            content.push(row);
            y += 1;
        }
        let doc = Document {
            doc_width,
            doc_height,
            top_x,
            top_y,
            cur_x: 0,
            cur_y: 0,
            content,
            offset: 0,
        };
        assert(doc@.content =~= DocumentView::blank(
            doc_width as nat,
            doc_height as nat,
            top_x as nat,
            top_y as nat,
        ).content);
        doc
    }

    /// Columns of the window.
    pub fn doc_width(&self) -> (n: usize)
        ensures
            n == self@.doc_width,
    {
        self.doc_width
    }

    /// Rows of the window.
    pub fn doc_height(&self) -> (n: usize)
        ensures
            n == self@.doc_height,
    {
        self.doc_height
    }

    /// Display column of the window's left edge.
    pub fn top_x(&self) -> (n: usize)
        ensures
            n == self@.top_x,
    {
        self.top_x
    }

    /// Display row of the window's top edge.
    pub fn top_y(&self) -> (n: usize)
        ensures
            n == self@.top_y,
    {
        self.top_y
    }

    /// Cursor column on the page.
    pub fn cur_x(&self) -> (n: usize)
        ensures
            n == self@.cur_x,
    {
        self.cur_x
    }

    /// Cursor row on the page.
    pub fn cur_y(&self) -> (n: usize)
        ensures
            n == self@.cur_y,
    {
        self.cur_y
    }

    /// The page row that the first window row shows.
    pub fn offset(&self) -> (n: usize)
        ensures
            n == self@.offset,
    {
        self.offset
    }

    /// The character in column `x` of page row `y`, if the page has such a
    /// cell.
    pub fn char_at(&self, x: usize, y: usize) -> (c: Option<char>)
        ensures
            c == if y < self@.content.len() && x < self@.content[y as int].len() {
                Some(self@.content[y as int][x as int])
            } else {
                None
            },
    {
        if y < self.content.len() {
            let row = &self.content[y];
            if x < row.len() {
                return Some(row[x]);
            }
        }
        None
    }

    /// The write that shows the caret where the cursor is.
    pub fn caret(&self) -> (plot: Plot)
        requires
            self@.wf(),
        ensures
            plot == self@.caret(),
    {
        Plot {
            c: ' ',
            col: self.cur_x + self.top_x,
            row: self.cur_y + self.top_y - self.offset,
            color: ColorCode::new(Color::White, Color::White),
        }
    }

    /// Scrolls the window one row towards the cursor, if the cursor has left
    /// it, and returns the writes that redraw the pane: every cell of the
    /// window, column by column, and then the caret.
    ///
    /// The cursor may stand at most one row outside the window, which is how
    /// far a single edit can take it.
    pub fn show_document(&mut self) -> (plots: Vec<Plot>)
        requires
            old(self)@.well_sized(),
            old(self)@.cursor_near(),
        ensures
            final(self)@ == old(self)@.follow(),
            final(self)@.wf(),
            plots@ == final(self)@.redraw(),
            on_screen(plots@),
    {
        if self.cur_y > self.doc_height + self.offset - 1 {
            self.offset += 1;
        }
        if self.cur_y < self.offset {
            self.offset -= 1;
        }
        assert(self@ == old(self)@.follow());
        let mut plots: Vec<Plot> = Vec::new();
        let mut x: usize = 0;
        while x < self.doc_width
            invariant
                x <= self.doc_width,
                self@.wf(),
                plots@ == self@.window_plots(x as nat),
            decreases self.doc_width - x,
        {
            let mut y: usize = 0;
            while y < self.doc_height
                invariant
                    x < self.doc_width,
                    y <= self.doc_height,
                    self@.wf(),
                    plots@ == self@.window_plots(x as nat) + self@.column_plots(x as int, y as nat),
                decreases self.doc_height - y,
            {
                proof {
                    self.lemma_row(y + self.offset);
                }
                let plot = Plot {
                    c: self.content[y + self.offset][x],
                    col: x + self.top_x,
                    row: y + self.top_y,
                    color: ColorCode::new(Color::White, Color::Black),
                };
                plots.push(plot);
                assert(plot == self@.cell_plot(x as int, y as int));
                assert(self@.column_plots(x as int, (y + 1) as nat) =~= self@.column_plots(
                    x as int,
                    y as nat,
                ).push(plot));
                y += 1;
            }
            x += 1;
        }
        plots.push(self.caret());
        proof {
            self@.lemma_redraw_paints_picture();
        }
        plots
    }

    /// Applies `c` to the document and returns the writes that redraw the
    /// pane.
    pub fn update_cursor(&mut self, c: Command) -> (plots: Vec<Plot>)
        requires
            old(self)@.wf(),
        ensures
            final(self)@ == old(self)@.apply_command(c),
            final(self)@.wf(),
            plots@ == final(self)@.redraw(),
            on_screen(plots@),
    {
        match c {
            Command::NewLine => {
                if self.cur_y + 1 < self.doc_height * 4 {
                    self.cur_x = 0;
                    self.cur_y += 1;
                }
            },
            Command::BackSpace => {
                proof {
                    self.lemma_row(self.cur_y as int);
                    if self.cur_y >= 1 {
                        self.lemma_row(self.cur_y - 1);
                    }
                }
                if self.cur_x >= 1 {
                    self.content[self.cur_y][self.cur_x - 1] = ' ';
                    self.cur_x -= 1;
                } else if self.cur_y >= 1 {
                    self.content[self.cur_y - 1][self.doc_width - 1] = ' ';
                    self.cur_y -= 1;
                    self.cur_x = self.doc_width - 1;
                }
            },
            Command::Left => {
                if self.cur_x != 0 {
                    self.cur_x -= 1;
                } else {
                    self.cur_x = self.doc_width - 1;
                }
            },
            Command::Right => {
                if self.cur_x != self.doc_width - 1 {
                    self.cur_x += 1;
                } else {
                    self.cur_x = 0;
                }
            },
            Command::Up => {
                if self.cur_y != 0 {
                    self.cur_y -= 1;
                }
            },
            Command::Down => {
                if self.cur_y != self.doc_height * 4 - 1 {
                    self.cur_y += 1;
                }
            },
        }
        assert(self@.content =~= old(self)@.edited(c).content);
        self.show_document()
    }

    /// Types `c` into the document and returns the writes that redraw the
    /// pane.
    pub fn update_document(&mut self, c: char) -> (plots: Vec<Plot>)
        requires
            old(self)@.wf(),
        ensures
            final(self)@ == old(self)@.insert_character(c),
            final(self)@.wf(),
            plots@ == final(self)@.redraw(),
            on_screen(plots@),
    {
        proof {
            self.lemma_row(self.cur_y as int);
        }
        self.content[self.cur_y][self.cur_x] = c;
        if self.cur_x + 1 < self.doc_width {
            self.cur_x += 1;
        } else if self.cur_y + 1 < self.doc_height * 4 {
            self.cur_x = 0;
            self.cur_y += 1;
        }
        assert(self@.content =~= old(self)@.typed(c).content);
        self.show_document()
    }
}

} // verus!
