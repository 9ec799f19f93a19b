use text_editor::chrome::{EDITOR_HEIGHT, EDITOR_WIDTH, SENTINEL_COL, SENTINEL_ROW};
use text_editor::{
    is_drawable, Color, ColorCode, Command, DecodedKey, KeyCode, Plot, UserInterface,
};

const TITLE: ColorCode = ColorCode { foreground: Color::Blue, background: Color::White };
const FRAME: ColorCode = ColorCode { foreground: Color::White, background: Color::Blue };
const HIGHLIGHT: ColorCode = ColorCode { foreground: Color::White, background: Color::LightCyan };
const TEXT: ColorCode = ColorCode { foreground: Color::White, background: Color::Black };
const CARET: ColorCode = ColorCode { foreground: Color::White, background: Color::White };

const INTACT: (char, ColorCode) = (' ', TITLE);

/// What a display that starts out with `'.'` in every cell shows after `plots`.
fn screen_after(plots: &[Plot]) -> Vec<Vec<(char, Option<ColorCode>)>> {
    let mut cells = vec![vec![('.', None); 80]; 25];
    for plot in plots {
        cells[plot.row][plot.col] = (plot.c, Some(plot.color));
    }
    cells
}

fn cursor(ui: &UserInterface, pane: usize) -> (usize, usize) {
    let doc = ui.doc(pane).unwrap();
    (doc.cur_x(), doc.cur_y())
}

#[test]
fn editor_dimensions_split_the_display_in_four() {
    assert_eq!(EDITOR_WIDTH, 38);
    assert_eq!(EDITOR_HEIGHT, 10);
    assert_eq!((SENTINEL_COL, SENTINEL_ROW), (34, 0));
}

#[test]
fn default_interface_has_four_blank_panes_and_empty_slots() {
    let ui = UserInterface::default();
    assert_eq!(ui.current(), 1);
    assert_eq!(ui.letter_input(), None);
    assert_eq!(ui.other_input(), None);
    let origins = [(1, 2), (40, 2), (1, 13), (40, 13)];
    for pane in 1..=4 {
        let doc = ui.doc(pane).unwrap();
        assert_eq!((doc.doc_width(), doc.doc_height()), (38, 10));
        assert_eq!((doc.top_x(), doc.top_y()), origins[pane - 1]);
        assert_eq!((doc.cur_x(), doc.cur_y(), doc.offset()), (0, 0, 0));
        assert_eq!(doc.char_at(0, 0), Some(' '));
        assert_eq!(doc.char_at(37, 39), Some(' '));
        assert_eq!(doc.char_at(38, 0), None);
        assert_eq!(doc.char_at(0, 40), None);
    }
    assert!(ui.doc(0).is_none());
    assert!(ui.doc(5).is_none());
}

#[test]
fn drawable_characters_are_printable_ascii() {
    assert!(is_drawable(' '));
    assert!(is_drawable('a'));
    assert!(is_drawable('~'));
    assert!(!is_drawable('\x1f'));
    assert!(!is_drawable('\x7f'));
    assert!(!is_drawable('\n'));
    assert!(!is_drawable('\x08'));
    assert!(!is_drawable('\u{e9}'));
}

#[test]
fn drawable_goes_by_the_low_byte_of_the_code_point() {
    assert!(is_drawable('\u{141}'));
    assert!(!is_drawable('\u{110}'));
    assert!(!is_drawable('\u{17f}'));
}

#[test]
fn printable_character_waits_in_the_letter_slot() {
    let mut ui = UserInterface::default();
    let plots = ui.key(DecodedKey::Unicode('a'));
    assert!(plots.is_empty());
    assert_eq!(ui.letter_input(), Some('a'));
    assert_eq!(ui.other_input(), None);
    assert_eq!(cursor(&ui, 1), (0, 0));
}

#[test]
fn newline_and_backspace_characters_become_commands() {
    let mut ui = UserInterface::default();
    ui.key(DecodedKey::Unicode('\n'));
    assert_eq!(ui.other_input(), Some(Command::NewLine));
    ui.key(DecodedKey::Unicode('\x08'));
    assert_eq!(ui.other_input(), Some(Command::BackSpace));
    assert_eq!(ui.letter_input(), None);
}

#[test]
fn other_characters_are_ignored() {
    let mut ui = UserInterface::default();
    ui.key(DecodedKey::Unicode('a'));
    ui.key(DecodedKey::RawKey(KeyCode::ArrowUp));
    let before = ui.clone();
    assert!(ui.key(DecodedKey::Unicode('\t')).is_empty());
    assert!(ui.key(DecodedKey::Unicode('\x1b')).is_empty());
    assert!(ui.key(DecodedKey::Unicode('\u{7f}')).is_empty());
    assert_eq!(ui, before);
}

#[test]
fn raw_keys_map_to_commands() {
    let cases = [
        (KeyCode::Return, Command::NewLine),
        (KeyCode::ArrowLeft, Command::Left),
        (KeyCode::ArrowRight, Command::Right),
        (KeyCode::ArrowUp, Command::Up),
        (KeyCode::ArrowDown, Command::Down),
    ];
    for (code, command) in cases {
        let mut ui = UserInterface::default();
        let plots = ui.key(DecodedKey::RawKey(code));
        assert!(plots.is_empty());
        assert_eq!(ui.other_input(), Some(command));
        assert_eq!(ui.letter_input(), None);
        assert_eq!(ui.current(), 1);
    }
}

#[test]
fn unknown_raw_key_is_ignored() {
    let mut ui = UserInterface::default();
    ui.key(DecodedKey::Unicode('a'));
    let before = ui.clone();
    let plots = ui.key(DecodedKey::RawKey(KeyCode::Other));
    assert!(plots.is_empty());
    assert_eq!(ui, before);
}

#[test]
fn second_event_of_a_kind_replaces_the_first() {
    let mut ui = UserInterface::default();
    ui.key(DecodedKey::Unicode('a'));
    ui.key(DecodedKey::Unicode('b'));
    ui.key(DecodedKey::RawKey(KeyCode::ArrowDown));
    ui.key(DecodedKey::RawKey(KeyCode::ArrowRight));
    assert_eq!(ui.letter_input(), Some('b'));
    assert_eq!(ui.other_input(), Some(Command::Right));
    ui.tick(INTACT);
    let doc = ui.doc(1).unwrap();
    assert_eq!((doc.cur_x(), doc.cur_y()), (2, 0));
    assert_eq!(doc.char_at(0, 0), Some(' '));
    assert_eq!(doc.char_at(1, 0), Some('b'));
}

#[test]
fn tick_applies_the_command_before_the_character() {
    let mut ui = UserInterface::default();
    ui.key(DecodedKey::Unicode('z'));
    ui.key(DecodedKey::RawKey(KeyCode::Return));
    let plots = ui.tick(INTACT);
    assert_eq!(ui.letter_input(), None);
    assert_eq!(ui.other_input(), None);
    let doc = ui.doc(1).unwrap();
    assert_eq!(doc.char_at(0, 1), Some('z'));
    assert_eq!(doc.char_at(0, 0), Some(' '));
    assert_eq!((doc.cur_x(), doc.cur_y()), (1, 1));
    assert_eq!(plots.len(), 2 * (38 * 10 + 1));
    assert_eq!(plots[380], Plot { c: ' ', col: 1, row: 3, color: CARET });
    assert_eq!(plots[761], Plot { c: ' ', col: 2, row: 3, color: CARET });
    let cells = screen_after(&plots);
    assert_eq!(cells[3][1], ('z', Some(TEXT)));
    assert_eq!(cells[3][2], (' ', Some(CARET)));
    assert_eq!(cells[2][1], (' ', Some(TEXT)));
}

#[test]
fn tick_with_nothing_pending_and_chrome_intact_writes_nothing() {
    let mut ui = UserInterface::default();
    let before = ui.clone();
    let plots = ui.tick(INTACT);
    assert!(plots.is_empty());
    assert_eq!(ui, before);
}

#[test]
fn update_drains_both_slots() {
    let mut ui = UserInterface::default();
    ui.key(DecodedKey::Unicode('k'));
    let plots = ui.update();
    assert_eq!(plots.len(), 381);
    assert_eq!(plots[0], Plot { c: 'k', col: 1, row: 2, color: TEXT });
    assert_eq!(ui.letter_input(), None);
    assert_eq!(cursor(&ui, 1), (1, 0));
    let again = ui.update();
    assert!(again.is_empty());
    assert_eq!(cursor(&ui, 1), (1, 0));
}

#[test]
fn pane_key_switches_at_once_and_input_goes_to_the_new_pane() {
    let mut ui = UserInterface::default();
    ui.key(DecodedKey::Unicode('x'));
    ui.key(DecodedKey::RawKey(KeyCode::ArrowDown));
    let plots = ui.key(DecodedKey::RawKey(KeyCode::F3));
    assert_eq!(ui.current(), 3);
    assert_eq!(ui.letter_input(), Some('x'));
    assert_eq!(ui.other_input(), Some(Command::Down));
    assert_eq!(plots, ui.create_screen(3));
    ui.tick(INTACT);
    assert_eq!(cursor(&ui, 3), (1, 1));
    assert_eq!(ui.doc(3).unwrap().char_at(0, 1), Some('x'));
    assert_eq!(cursor(&ui, 1), (0, 0));
    assert_eq!(ui.doc(1).unwrap().char_at(0, 0), Some(' '));
    assert_eq!(ui.doc(1).unwrap().char_at(0, 1), Some(' '));
    assert_eq!(cursor(&ui, 2), (0, 0));
    assert_eq!(cursor(&ui, 4), (0, 0));
}

#[test]
fn pane_keys_jump_in_any_order() {
    let mut ui = UserInterface::default();
    let order = [
        (KeyCode::F4, 4),
        (KeyCode::F2, 2),
        (KeyCode::F2, 2),
        (KeyCode::F1, 1),
        (KeyCode::F3, 3),
    ];
    for (code, pane) in order {
        let plots = ui.key(DecodedKey::RawKey(code));
        assert_eq!(ui.current(), pane);
        assert_eq!(plots, ui.create_screen(pane));
    }
    ui.key(DecodedKey::RawKey(KeyCode::ArrowLeft));
    ui.key(DecodedKey::Unicode('a'));
    assert_eq!(ui.current(), 3);
}

#[test]
fn tick_redraws_the_chrome_when_the_sentinel_is_gone() {
    let mut ui = UserInterface::default();
    ui.key(DecodedKey::RawKey(KeyCode::F2));
    let wiped = (' ', ColorCode { foreground: Color::Yellow, background: Color::Black });
    let plots = ui.tick(wiped);
    assert_eq!(plots, ui.create_screen(2));
    let other_char = ('x', TITLE);
    assert_eq!(ui.tick(other_char), ui.create_screen(2));
    ui.key(DecodedKey::Unicode('a'));
    let plots = ui.tick(wiped);
    let chrome = ui.create_screen(2);
    assert_eq!(plots.len(), chrome.len() + 381);
    assert_eq!(plots[..chrome.len()], chrome[..]);
    assert_eq!(plots[chrome.len()], Plot { c: 'a', col: 40, row: 2, color: TEXT });
}

#[test]
fn chrome_restores_the_sentinel() {
    let ui = UserInterface::default();
    for pane in 1..=4 {
        let cells = screen_after(&ui.create_screen(pane));
        assert_eq!(cells[SENTINEL_ROW][SENTINEL_COL], (INTACT.0, Some(INTACT.1)));
    }
}

#[test]
fn chrome_shows_title_frame_highlight_and_labels() {
    let ui = UserInterface::default();
    let plots = ui.create_screen(1);
    let cells = screen_after(&plots);
    let title: String = cells[0][34..47].iter().map(|cell| cell.0).collect();
    assert_eq!(title, " Text Editor ");
    for col in 0..80 {
        let expected = if (34..47).contains(&col) { Some(TITLE) } else { None };
        assert_eq!(cells[0][col].1, expected);
    }
    for row in 1..25 {
        for col in 0..80 {
            let on_frame = row < 24
                && col < 79
                && (row == 1 || row == 12 || row == 23 || col == 0 || col == 39 || col == 78);
            let label = (row == 1 || row == 12) && [19, 20, 58, 59].contains(&col);
            let on_border = (row == 1 || row == 12) && col <= 39
                || (col == 0 || col == 39) && (1..=12).contains(&row);
            let cell = cells[row][col];
            if label {
                assert_eq!(cell.1, Some(FRAME));
            } else if on_border {
                assert_eq!(cell, (' ', Some(HIGHLIGHT)));
            } else if on_frame {
                assert_eq!(cell, (' ', Some(FRAME)));
            } else {
                assert_eq!(cell, ('.', None));
            }
        }
    }
    assert_eq!((cells[1][19].0, cells[1][20].0), ('F', '1'));
    assert_eq!((cells[1][58].0, cells[1][59].0), ('F', '2'));
    assert_eq!((cells[12][19].0, cells[12][20].0), ('F', '3'));
    assert_eq!((cells[12][58].0, cells[12][59].0), ('F', '4'));
}

#[test]
fn chrome_highlights_only_the_active_pane() {
    let ui = UserInterface::default();
    let origins = [(1, 2), (40, 2), (1, 13), (40, 13)];
    for pane in 1..=4 {
        let cells = screen_after(&ui.create_screen(pane));
        let (left, top) = origins[pane - 1];
        let mut highlighted = 0;
        for row in 0..25 {
            for col in 0..80 {
                if cells[row][col].1 == Some(HIGHLIGHT) {
                    highlighted += 1;
                    let in_box = (left - 1..=left + 38).contains(&col)
                        && (top - 1..=top + 10).contains(&row);
                    let inside = (left..left + 38).contains(&col) && (top..top + 10).contains(&row);
                    assert!(in_box && !inside);
                }
            }
        }
        let label_cells = if pane <= 2 { 4 } else { 2 };
        assert_eq!(highlighted, 2 * 40 + 2 * 10 - label_cells);
    }
}

#[test]
fn chrome_writes_start_with_the_title_and_end_with_the_labels() {
    let ui = UserInterface::default();
    let plots = ui.create_screen(4);
    assert_eq!(plots[0], Plot { c: ' ', col: 34, row: 0, color: TITLE });
    assert_eq!(plots[1], Plot { c: 'T', col: 35, row: 0, color: TITLE });
    assert_eq!(plots[12], Plot { c: ' ', col: 46, row: 0, color: TITLE });
    assert_eq!(plots[13], Plot { c: ' ', col: 0, row: 1, color: FRAME });
    let frame_cells = 3 * 23 + 76 * 3;
    assert_eq!(plots.len(), 13 + frame_cells + 2 * 40 + 2 * 12 + 8);
    let highlight = 13 + frame_cells;
    assert_eq!(plots[highlight], Plot { c: ' ', col: 39, row: 12, color: HIGHLIGHT });
    assert_eq!(plots[highlight + 1], Plot { c: ' ', col: 39, row: 23, color: HIGHLIGHT });
    assert_eq!(plots[highlight + 80], Plot { c: ' ', col: 39, row: 12, color: HIGHLIGHT });
    assert_eq!(plots[highlight + 81], Plot { c: ' ', col: 78, row: 12, color: HIGHLIGHT });
    let labels = plots.len() - 8;
    assert_eq!(plots[labels], Plot { c: 'F', col: 19, row: 1, color: FRAME });
    assert_eq!(plots[labels + 1], Plot { c: '1', col: 20, row: 1, color: FRAME });
    assert_eq!(plots[labels + 7], Plot { c: '4', col: 59, row: 12, color: FRAME });
}

#[test]
fn chrome_for_an_unknown_pane_highlights_the_first() {
    let ui = UserInterface::default();
    assert_eq!(ui.create_screen(0), ui.create_screen(1));
    assert_eq!(ui.create_screen(9), ui.create_screen(1));
    assert_ne!(ui.create_screen(2), ui.create_screen(1));
}

#[test]
fn all_writes_stay_on_the_display() {
    let mut ui = UserInterface::default();
    let mut plots = Vec::new();
    for code in [KeyCode::F1, KeyCode::F2, KeyCode::F3, KeyCode::F4] {
        plots.extend(ui.key(DecodedKey::RawKey(code)));
        for _ in 0..45 {
            ui.key(DecodedKey::RawKey(KeyCode::Return));
            ui.key(DecodedKey::Unicode('w'));
            plots.extend(ui.tick(('?', TEXT)));
        }
    }
    assert!(plots.iter().all(|plot| plot.col < 80 && plot.row < 25));
    assert_eq!(cursor(&ui, 4), (7, 39));
    assert_eq!(ui.doc(4).unwrap().offset(), 30);
}
