use crate::chrome::{
    chrome_picture, chrome_plots, lemma_chrome_paints_picture, lemma_chrome_restores_sentinel,
    pane_x, pane_y, push_frame, push_highlight, push_text, sentinel, DOC1_X, DOC1_Y, DOC2_X,
    DOC2_Y, DOC3_X, DOC3_Y, DOC4_X, DOC4_Y, EDITOR_HEIGHT, EDITOR_WIDTH, SENTINEL_COL,
    SENTINEL_ROW,
};
use crate::command::Command;
use crate::display::{
    drawable, is_drawable, lemma_on_screen_concat, lemma_painted_concat, on_screen, painted, Color,
    ColorCode, Plot,
};
use crate::document::{Document, DocumentView, Edit};
use crate::keys::{DecodedKey, KeyCode};
use vstd::prelude::*;

verus! {

/// The editor: four panes, one of them active, and one pending character
/// and one pending command waiting for the next tick.
#[derive(Debug, Clone, PartialEq, Eq)]
pub struct UserInterface {
    docs: [Document; 4],
    current: usize,
    letter_input: Option<char>,
    other_input: Option<Command>,
}

/// The mathematical value of a [`UserInterface`].
pub struct UserInterfaceView {
    /// The documents of panes 1 to 4, at indices 0 to 3.
    pub docs: Seq<DocumentView>,
    /// The number of the active pane, from 1 to 4.
    pub current: nat,
    /// The character that the next tick will type, if any.
    pub letter_input: Option<char>,
    /// The command that the next tick will apply, if any.
    pub other_input: Option<Command>,
}

impl UserInterfaceView {
    /// The document that pane `pane` starts with.
    pub open spec fn fresh_doc(pane: int) -> DocumentView {
        DocumentView::blank(
            EDITOR_WIDTH as nat,
            EDITOR_HEIGHT as nat,
            pane_x(pane) as nat,
            pane_y(pane) as nat,
        )
    }

    /// The editor as it starts: four blank documents, the first pane active,
    /// nothing pending.
    pub open spec fn fresh() -> UserInterfaceView {
        UserInterfaceView {
            docs: Seq::new(4, |i: int| Self::fresh_doc(i + 1)),
            current: 1,
            letter_input: None,
            other_input: None,
        }
    }

    /// There are four documents, each in order, each with the window of its
    /// pane, and one of the four panes is active.
    pub open spec fn wf(self) -> bool {
        &&& self.docs.len() == 4
        &&& forall|i: int|
            0 <= i < 4 ==> {
                &&& (#[trigger] self.docs[i]).wf()
                &&& self.docs[i].doc_width == EDITOR_WIDTH
                &&& self.docs[i].doc_height == EDITOR_HEIGHT
                &&& self.docs[i].top_x == pane_x(i + 1)
                &&& self.docs[i].top_y == pane_y(i + 1)
            }
        &&& 1 <= self.current <= 4
    }

    /// The document of the active pane.
    pub open spec fn active(self) -> DocumentView {
        self.docs[self.current - 1]
    }

    /// The editor with `doc` in the active pane.
    pub open spec fn with_active(self, doc: DocumentView) -> UserInterfaceView {
        UserInterfaceView { docs: self.docs.update(self.current - 1, doc), ..self }
    }

    /// The editor after the pending command, if there is one, was applied to
    /// the active document and taken out of its slot.
    pub open spec fn command_drained(self) -> UserInterfaceView {
        match self.other_input {
            Some(command) => UserInterfaceView {
                other_input: None,
                ..self.with_active(self.active().apply_command(command))
            },
            None => self,
        }
    }

    /// The editor after the pending character, if there is one, was typed
    /// into the active document and taken out of its slot.
    pub open spec fn letter_drained(self) -> UserInterfaceView {
        match self.letter_input {
            Some(c) => UserInterfaceView {
                letter_input: None,
                ..self.with_active(self.active().insert_character(c))
            },
            None => self,
        }
    }

    /// The editor after one update: first the pending command, then the
    /// pending character.
    pub open spec fn updated(self) -> UserInterfaceView {
        self.command_drained().letter_drained()
    }

    /// The writes of one update: a redraw of the active pane for the pending
    /// command, if there is one, and another for the pending character, if
    /// there is one.
    pub open spec fn update_plots(self) -> Seq<Plot> {
        let for_command = if self.other_input is Some {
            self.command_drained().active().redraw()
        } else {
            Seq::empty()
        };
        let for_letter = if self.letter_input is Some {
            self.updated().active().redraw()
        } else {
            Seq::empty()
        };
        for_command + for_letter
    }

    /// The writes of one tick that found `seen` in the sentinel cell: the
    /// chrome, if `seen` is not what the chrome leaves there, and then the
    /// writes of the update.
    pub open spec fn tick_plots(self, seen: (char, ColorCode)) -> Seq<Plot> {
        let for_chrome = if seen != sentinel() {
            chrome_plots(self.current as int)
        } else {
            Seq::empty()
        };
        for_chrome + self.update_plots()
    }

    /// The editor with `command` pending, in place of any command that was.
    pub open spec fn with_command(self, command: Command) -> UserInterfaceView {
        UserInterfaceView { other_input: Some(command), ..self }
    }

    /// The editor with pane `pane` active.
    pub open spec fn with_current(self, pane: nat) -> UserInterfaceView {
        UserInterfaceView { current: pane, ..self }
    }

    /// The editor after the undecoded key `key`.
    pub open spec fn raw_pressed(self, key: KeyCode) -> UserInterfaceView {
        match key {
            KeyCode::Return => self.with_command(Command::NewLine),
            KeyCode::ArrowLeft => self.with_command(Command::Left),
            KeyCode::ArrowRight => self.with_command(Command::Right),
            KeyCode::ArrowUp => self.with_command(Command::Up),
            KeyCode::ArrowDown => self.with_command(Command::Down),
            KeyCode::F1 => self.with_current(1),
            KeyCode::F2 => self.with_current(2),
            KeyCode::F3 => self.with_current(3),
            KeyCode::F4 => self.with_current(4),
            KeyCode::Other => self,
        }
    }

    /// The writes that the undecoded key `key` calls for: the chrome with the
    /// newly active pane highlighted for a pane key, none for any other.
    pub open spec fn raw_plots(key: KeyCode) -> Seq<Plot> {
        match key {
            KeyCode::F1 => chrome_plots(1),
            KeyCode::F2 => chrome_plots(2),
            KeyCode::F3 => chrome_plots(3),
            KeyCode::F4 => chrome_plots(4),
            _ => Seq::empty(),
        }
    }

    /// The editor after the character `c` arrived from the keyboard.
    pub open spec fn unicode_pressed(self, c: char) -> UserInterfaceView {
        if drawable(c) {
            UserInterfaceView { letter_input: Some(c), ..self }
        } else if c == '\n' {
            self.with_command(Command::NewLine)
        } else if c == '\x08' {
            self.with_command(Command::BackSpace)
        } else {
            self
        }
    }

    /// The editor after the keyboard event `key`.
    pub open spec fn pressed(self, key: DecodedKey) -> UserInterfaceView {
        match key {
            DecodedKey::RawKey(code) => self.raw_pressed(code),
            DecodedKey::Unicode(c) => self.unicode_pressed(c),
        }
    }

    /// The writes that the keyboard event `key` calls for.
    pub open spec fn press_plots(key: DecodedKey) -> Seq<Plot> {
        match key {
            DecodedKey::RawKey(code) => Self::raw_plots(code),
            DecodedKey::Unicode(_) => Seq::empty(),
        }
    }
}

/// The key that makes pane `pane` the active one.
pub open spec fn pane_key(pane: int) -> KeyCode {
    if pane == 1 {
        KeyCode::F1
    } else if pane == 2 {
        KeyCode::F2
    } else if pane == 3 {
        KeyCode::F3
    } else {
        KeyCode::F4
    }
}

/// The command that the keyboard event `key` stands for, if it stands for
/// one.
pub open spec fn command_of(key: DecodedKey) -> Option<Command> {
    match key {
        DecodedKey::RawKey(KeyCode::Return) => Some(Command::NewLine),
        DecodedKey::RawKey(KeyCode::ArrowLeft) => Some(Command::Left),
        DecodedKey::RawKey(KeyCode::ArrowRight) => Some(Command::Right),
        DecodedKey::RawKey(KeyCode::ArrowUp) => Some(Command::Up),
        DecodedKey::RawKey(KeyCode::ArrowDown) => Some(Command::Down),
        DecodedKey::RawKey(_) => None,
        DecodedKey::Unicode(c) => if drawable(c) {
            None
        } else if c == '\n' {
            Some(Command::NewLine)
        } else if c == '\x08' {
            Some(Command::BackSpace)
        } else {
            None
        },
    }
}

/// The character that the keyboard event `key` types, if it types one.
pub open spec fn letter_of(key: DecodedKey) -> Option<char> {
    match key {
        DecodedKey::Unicode(c) => if drawable(c) {
            Some(c)
        } else {
            None
        },
        DecodedKey::RawKey(_) => None,
    }
}

/// The edit that applies `command`.
pub open spec fn command_edit(command: Command) -> Edit {
    Edit::Command(command)
}

/// The edit that types `c`.
pub open spec fn letter_edit(c: char) -> Edit {
    Edit::Character(c)
}

impl UserInterfaceView {
    /// The edits that wait for the next update, in the order in which it
    /// makes them.
    pub open spec fn pending(self) -> Seq<Edit> {
        let command = match self.other_input {
            Some(command) => seq![command_edit(command)],
            None => Seq::empty(),
        };
        let letter = match self.letter_input {
            Some(c) => seq![letter_edit(c)],
            None => Seq::empty(),
        };
        command + letter
    }

    /// A keyboard event takes an editor in order to an editor in order, and
    /// changes no document. An event that stands for a command puts it into
    /// the command slot, one that types a character puts it into the letter
    /// slot, each in place of what was there, and changes nothing else.
    pub proof fn lemma_key_fills_one_slot(self, key: DecodedKey)
        requires
            self.wf(),
        ensures
            self.pressed(key).wf(),
            self.pressed(key).docs == self.docs,
            command_of(key) is Some ==> self.pressed(key) == (UserInterfaceView {
                other_input: command_of(key),
                ..self
            }),
            letter_of(key) is Some ==> self.pressed(key) == (UserInterfaceView {
                letter_input: letter_of(key),
                ..self
            }),
    {
    }

    /// Of two events of one kind that arrive between two ticks, the later
    /// one alone counts.
    pub proof fn lemma_later_event_replaces_earlier(self, first: DecodedKey, second: DecodedKey)
        requires
            (command_of(first) is Some && command_of(second) is Some) || (letter_of(first) is Some
                && letter_of(second) is Some),
        ensures
            self.pressed(first).pressed(second) == self.pressed(second),
    {
    }

    /// An update makes the pending edits in the active document, command
    /// before character, empties both slots, and leaves the other documents
    /// and the selection as they were.
    pub proof fn lemma_update_drains_into_active(self)
        requires
            self.wf(),
        ensures
            self.updated().wf(),
            self.updated() == (UserInterfaceView {
                docs: self.docs.update(self.current - 1, self.active().apply_all(self.pending())),
                current: self.current,
                letter_input: None,
                other_input: None,
            }),
    {
        let doc = self.active();
        let edits = self.pending();
        doc.lemma_cursor_stays_in_range(edits);
        assert(doc.apply_all(Seq::empty()) == doc);
        if self.other_input is Some && self.letter_input is Some {
            let first = command_edit(self.other_input->0);
            let second = letter_edit(self.letter_input->0);
            assert(edits =~= seq![first, second]);
            assert(edits.drop_last() =~= seq![first]);
            assert(edits.drop_last().drop_last() =~= Seq::<Edit>::empty());
            assert(doc.apply_all(edits.drop_last()) == doc.apply(first));
        } else if self.other_input is Some {
            let first = command_edit(self.other_input->0);
            assert(edits =~= seq![first]);
            assert(edits.drop_last() =~= Seq::<Edit>::empty());
        } else if self.letter_input is Some {
            let second = letter_edit(self.letter_input->0);
            assert(edits =~= seq![second]);
            assert(edits.drop_last() =~= Seq::<Edit>::empty());
        } else {
            assert(edits =~= Seq::<Edit>::empty());
        }
        assert(self.updated().docs =~= self.docs.update(
            self.current - 1,
            doc.apply_all(edits),
        ));
    }

    /// A pane key makes its pane the active one at once, whatever waits in
    /// the slots, and what waits there stays; the next update then makes the
    /// pending edits in the document of that pane and in no other.
    pub proof fn lemma_pane_key_redirects_input(self, pane: int)
        requires
            self.wf(),
            1 <= pane <= 4,
        ensures
            self.pressed(DecodedKey::RawKey(pane_key(pane))) == self.with_current(pane as nat),
            self.pressed(DecodedKey::RawKey(pane_key(pane))).wf(),
            Self::press_plots(DecodedKey::RawKey(pane_key(pane))) == chrome_plots(pane),
            self.pressed(DecodedKey::RawKey(pane_key(pane))).updated().docs == self.docs.update(
                pane - 1,
                self.docs[pane - 1].apply_all(self.pending()),
            ),
    {
        self.with_current(pane as nat).lemma_update_drains_into_active();
    }

    /// The four windows lie inside the frame: no cell of a window is a cell
    /// of the chrome or of another window, so that a pane can be redrawn
    /// without harm to the chrome or to its neighbours.
    pub proof fn lemma_windows_lie_apart(self, active: int)
        requires
            self.wf(),
        ensures
            forall|i: int, at: (int, int)|
                0 <= i < 4 && #[trigger] self.docs[i].in_window(at.0, at.1)
                    ==> !chrome_picture(active).dom().contains(at),
            forall|i: int, j: int, at: (int, int)|
                0 <= i < 4 && 0 <= j < 4 && i != j && #[trigger] self.docs[i].in_window(at.0, at.1)
                    ==> !#[trigger] self.docs[j].in_window(at.0, at.1),
    {
        reveal_strlit(" Text Editor ");
    }

    /// A tick that finds the sentinel gone leaves it restored: whatever else
    /// the tick draws, it draws the chrome first and nothing over the
    /// sentinel cell after it.
    pub proof fn lemma_tick_restores_sentinel(self, seen: (char, ColorCode))
        requires
            self.wf(),
            seen != sentinel(),
        ensures
            painted(self.tick_plots(seen)).dom().contains((SENTINEL_COL as int, SENTINEL_ROW as int)),
            painted(self.tick_plots(seen))[(SENTINEL_COL as int, SENTINEL_ROW as int)] == sentinel(),
    {
        let at = (SENTINEL_COL as int, SENTINEL_ROW as int);
        lemma_chrome_paints_picture(self.current as int);
        lemma_chrome_restores_sentinel(self.current as int);
        self.lemma_update_stays_in_active_window();
        lemma_painted_concat(chrome_plots(self.current as int), self.update_plots());
    }

    /// An update draws nowhere but in the window of the active pane.
    pub proof fn lemma_update_stays_in_active_window(self)
        requires
            self.wf(),
        ensures
            forall|at: (int, int)| #[trigger]
                painted(self.update_plots()).dom().contains(at) ==> self.active().in_window(
                    at.0,
                    at.1,
                ),
    {
        let first = self.command_drained();
        let second = self.updated();
        if let Some(command) = self.other_input {
            self.active().lemma_apply_keeps_wf(Edit::Command(command));
        }
        assert(first.wf());
        if let Some(c) = first.letter_input {
            first.active().lemma_apply_keeps_wf(Edit::Character(c));
        }
        assert(second.wf());
        let for_command = if self.other_input is Some {
            first.active().redraw()
        } else {
            Seq::empty()
        };
        let for_letter = if self.letter_input is Some {
            second.active().redraw()
        } else {
            Seq::empty()
        };
        if self.other_input is Some {
            first.active().lemma_redraw_paints_picture();
        }
        if self.letter_input is Some {
            second.active().lemma_redraw_paints_picture();
        }
        lemma_painted_concat(for_command, for_letter);
    }
}

impl View for UserInterface {
    type V = UserInterfaceView;

    closed spec fn view(&self) -> UserInterfaceView {
        UserInterfaceView {
            docs: Seq::new(4, |i: int| self.docs[i]@),
            current: self.current as nat,
            letter_input: self.letter_input,
            other_input: self.other_input,
        }
    }
}

impl Default for UserInterface {
    fn default() -> (ui: UserInterface)
        ensures
            ui@ == UserInterfaceView::fresh(),
            ui@.wf(),
    {
        let ui = UserInterface {
            docs: [
                Document::new(EDITOR_WIDTH, EDITOR_HEIGHT, DOC1_X, DOC1_Y),
                Document::new(EDITOR_WIDTH, EDITOR_HEIGHT, DOC2_X, DOC2_Y),
                Document::new(EDITOR_WIDTH, EDITOR_HEIGHT, DOC3_X, DOC3_Y),
                Document::new(EDITOR_WIDTH, EDITOR_HEIGHT, DOC4_X, DOC4_Y),
            ],
            current: 1,
            letter_input: None,
            other_input: None,
        };
        assert(ui@.docs =~= UserInterfaceView::fresh().docs);
        ui
    }
}

impl UserInterface {
    /// The number of the active pane.
    pub fn current(&self) -> (pane: usize)
        ensures
            pane == self@.current,
    {
        self.current
    }

    /// The character that the next tick will type, if any.
    pub fn letter_input(&self) -> (pending: Option<char>)
        ensures
            pending == self@.letter_input,
    {
        self.letter_input
    }

    /// The command that the next tick will apply, if any.
    pub fn other_input(&self) -> (pending: Option<Command>)
        ensures
            pending == self@.other_input,
    {
        self.other_input
    }

    /// The document of pane `pane`, if `pane` is one of 1 to 4.
    pub fn doc(&self, pane: usize) -> (doc: Option<&Document>)
        ensures
            1 <= pane <= 4 ==> doc is Some && doc->0@ == self@.docs[pane - 1],
            !(1 <= pane <= 4) ==> doc is None,
    {
        if 1 <= pane && pane <= 4 {
            Some(&self.docs[pane - 1])
        } else {
            None
        }
    }

    /// One tick of the clock. `seen` is what the display holds in the
    /// sentinel cell, at column [`SENTINEL_COL`] of row [`SENTINEL_ROW`], as
    /// the tick begins: if it is not what the chrome leaves there, the
    /// display was wiped, and the chrome is drawn again. Then the pending
    /// input is applied. Returns the writes that bring the display up to
    /// date.
    pub fn tick(&mut self, seen: (char, ColorCode)) -> (plots: Vec<Plot>)
        requires
            old(self)@.wf(),
        ensures
            final(self)@ == old(self)@.updated(),
            final(self)@.wf(),
            plots@ == old(self)@.tick_plots(seen),
            on_screen(plots@),
    {
        let mut plots: Vec<Plot> = Vec::new();
        if seen.0 != ' ' || seen.1 != ColorCode::new(Color::Blue, Color::White) {
            plots = self.create_screen(self.current);
        }
        let mut drawn = self.update();
        proof {
            lemma_on_screen_concat(plots@, drawn@);
        }
        plots.append(&mut drawn);
        plots
    }

    /// Applies the pending command, if there is one, and then types the
    /// pending character, if there is one, both into the active document,
    /// and empties both slots. Returns the writes that redraw the active
    /// pane, once for each of the two that was there.
    pub fn update(&mut self) -> (plots: Vec<Plot>)
        requires
            old(self)@.wf(),
        ensures
            final(self)@ == old(self)@.updated(),
            final(self)@.wf(),
            plots@ == old(self)@.update_plots(),
            on_screen(plots@),
    {
        let mut plots = self.drain_command();
        let mut drawn = self.drain_letter();
        proof {
            lemma_on_screen_concat(plots@, drawn@);
        }
        plots.append(&mut drawn);
        plots
    }

    fn drain_command(&mut self) -> (plots: Vec<Plot>)
        requires
            old(self)@.wf(),
        ensures
            final(self)@ == old(self)@.command_drained(),
            final(self)@.wf(),
            plots@ == if old(self)@.other_input is Some {
                final(self)@.active().redraw()
            } else {
                Seq::empty()
            },
            on_screen(plots@),
    {
        if self.other_input.is_some() {
            let com = self.other_input.unwrap();
            let ghost before = self@.active();
            let plots = self.docs[self.current - 1].update_cursor(com);
            self.other_input = None;
            proof {
                before.lemma_apply_keeps_wf(Edit::Command(com));
                assert(self@.docs =~= old(self)@.command_drained().docs);
            }
            plots
        } else {
            Vec::new()
        }
    }

    fn drain_letter(&mut self) -> (plots: Vec<Plot>)
        requires
            old(self)@.wf(),
        ensures
            final(self)@ == old(self)@.letter_drained(),
            final(self)@.wf(),
            plots@ == if old(self)@.letter_input is Some {
                final(self)@.active().redraw()
            } else {
                Seq::empty()
            },
            on_screen(plots@),
    {
        if self.letter_input.is_some() {
            let c = self.letter_input.unwrap();
            let ghost before = self@.active();
            let plots = self.docs[self.current - 1].update_document(c);
            self.letter_input = None;
            proof {
                before.lemma_apply_keeps_wf(Edit::Character(c));
                assert(self@.docs =~= old(self)@.letter_drained().docs);
            }
            plots
        } else {
            Vec::new()
        }
    }

    /// The writes that draw the chrome with pane `active` highlighted. A
    /// number that names no pane highlights the first.
    pub fn create_screen(&self, active: usize) -> (plots: Vec<Plot>)
        ensures
            plots@ == chrome_plots(active as int),
            on_screen(plots@),
    {
        proof {
            lemma_chrome_paints_picture(active as int);
            reveal_strlit(" Text Editor ");
            reveal_strlit("F1");
            reveal_strlit("F2");
            reveal_strlit("F3");
            reveal_strlit("F4");
        }
        let mut plots: Vec<Plot> = Vec::new();
        push_text(
            &mut plots,
            " Text Editor ",
            SENTINEL_COL,
            SENTINEL_ROW,
            ColorCode::new(Color::Blue, Color::White),
        );
        push_frame(&mut plots);
        let mut x_doc: usize = DOC1_X;
        let mut y_doc: usize = DOC1_Y;
        if active == 2 {
            x_doc = DOC2_X;
            y_doc = DOC2_Y;
        } else if active == 3 {
            x_doc = DOC3_X;
            y_doc = DOC3_Y;
        } else if active == 4 {
            x_doc = DOC4_X;
            y_doc = DOC4_Y;
        }
        push_highlight(&mut plots, x_doc, y_doc);
        let label = ColorCode::new(Color::White, Color::Blue);
        push_text(&mut plots, "F1", DOC1_X + (EDITOR_WIDTH / 2) - 1, DOC1_Y - 1, label);
        push_text(&mut plots, "F2", DOC2_X + (EDITOR_WIDTH / 2) - 1, DOC2_Y - 1, label);
        push_text(&mut plots, "F3", DOC3_X + (EDITOR_WIDTH / 2) - 1, DOC3_Y - 1, label);
        push_text(&mut plots, "F4", DOC4_X + (EDITOR_WIDTH / 2) - 1, DOC4_Y - 1, label);
        assert(plots@ =~= chrome_plots(active as int));
        plots
    }

    /// Takes in one keyboard event. A pane key makes its pane the active one
    /// at once; a key that stands for a command, or a character, waits in
    /// its slot for the next tick, in place of what waited there; any other
    /// event is ignored. Returns the writes that draw the chrome again when
    /// the event was a pane key, and none otherwise.
    pub fn key(&mut self, key: DecodedKey) -> (plots: Vec<Plot>)
        requires
            old(self)@.wf(),
        ensures
            final(self)@ == old(self)@.pressed(key),
            final(self)@.wf(),
            plots@ == UserInterfaceView::press_plots(key),
            on_screen(plots@),
    {
        match key {
            DecodedKey::RawKey(code) => self.handle_raw(code),
            DecodedKey::Unicode(c) => {
                self.handle_unicode(c);
                Vec::new()
            },
        }
    }

    fn handle_raw(&mut self, key: KeyCode) -> (plots: Vec<Plot>)
        requires
            old(self)@.wf(),
        ensures
            final(self)@ == old(self)@.raw_pressed(key),
            final(self)@.wf(),
            plots@ == UserInterfaceView::raw_plots(key),
            on_screen(plots@),
    {
        match key {
            KeyCode::Return => {
                self.other_input = Some(Command::NewLine);
                Vec::new()
            },
            KeyCode::ArrowLeft => {
                self.other_input = Some(Command::Left);
                Vec::new()
            },
            KeyCode::ArrowRight => {
                self.other_input = Some(Command::Right);
                Vec::new()
            },
            KeyCode::ArrowUp => {
                self.other_input = Some(Command::Up);
                Vec::new()
            },
            KeyCode::ArrowDown => {
                self.other_input = Some(Command::Down);
                Vec::new()
            },
            KeyCode::F1 => {
                self.current = 1;
                self.create_screen(1)
            },
            KeyCode::F2 => {
                self.current = 2;
                self.create_screen(2)
            },
            KeyCode::F3 => {
                self.current = 3;
                self.create_screen(3)
            },
            KeyCode::F4 => {
                self.current = 4;
                self.create_screen(4)
            },
            KeyCode::Other => Vec::new(),
        }
    }

    fn handle_unicode(&mut self, key: char)
        requires
            old(self)@.wf(),
        ensures
            final(self)@ == old(self)@.unicode_pressed(key),
            final(self)@.wf(),
    {
        if is_drawable(key) {
            self.letter_input = Some(key);
        } else if key == '\n' {
            self.other_input = Some(Command::NewLine);
        } else if key == '\x08' {
            self.other_input = Some(Command::BackSpace);
        }
    }
}

} // verus!
