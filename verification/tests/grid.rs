use tuitty::buffer::ScreenBuffer;
use tuitty::cell::Cell;
use tuitty::grid::Platform;
use tuitty::paint::Paint;
use tuitty::style::{Clear, Color, Effect, Style, Styles, FX_RESET};

fn glyph_at(buffer: &ScreenBuffer, index: usize) -> Option<String> {
    buffer.cells()[index].as_ref().map(|c: &Cell| c.glyph.iter().collect())
}

#[test]
fn new_buffer_is_empty() {
    let buffer = ScreenBuffer::new(4, 3);
    assert_eq!(buffer.size(), (4, 3));
    assert_eq!(buffer.width(), 4);
    assert_eq!(buffer.height(), 3);
    assert_eq!(buffer.coord(), (0, 0));
    assert_eq!(buffer.cells().len(), 12);
    assert!(buffer.cells().iter().all(|c| c.is_none()));
    assert_eq!(buffer.check_contents(), " ".repeat(12));
}

#[test]
fn content_keeps_the_number_of_cells() {
    let mut buffer = ScreenBuffer::new(3, 2);
    buffer.sync_content("a long line that runs far past the end of the grid \u{3493}\u{3493}\n\r\n\t");
    assert_eq!(buffer.cells().len(), 6);
    assert_eq!(buffer.size(), (3, 2));
}

#[test]
fn moves_stay_in_the_window() {
    let mut buffer = ScreenBuffer::new(5, 3);
    buffer.sync_right(100);
    assert_eq!(buffer.coord(), (4, 0));
    buffer.sync_down(100);
    assert_eq!(buffer.coord(), (4, 2));
    buffer.sync_left(100);
    assert_eq!(buffer.coord(), (0, 2));
    buffer.sync_up(100);
    assert_eq!(buffer.coord(), (0, 0));
    buffer.sync_right(-2);
    assert_eq!(buffer.coord(), (2, 0));
    buffer.sync_down(i16::MIN);
    assert_eq!(buffer.coord(), (2, 2));
    buffer.sync_left(-1);
    assert_eq!(buffer.coord(), (1, 2));
    buffer.sync_up(-1);
    assert_eq!(buffer.coord(), (1, 1));
}

#[test]
fn right_crosses_a_wide_glyph() {
    let mut buffer = ScreenBuffer::new(6, 1);
    buffer.sync_content("\u{3493}ab");
    buffer.sync_coord(0, 0);
    buffer.sync_right(1);
    assert_eq!(buffer.coord(), (2, 0));
    assert_eq!(buffer.getch(), "a");
}

#[test]
fn coordinates_count_by_absolute_value() {
    let mut a = ScreenBuffer::new(5, 4);
    let mut b = ScreenBuffer::new(5, 4);
    a.sync_coord(-3, -2);
    b.sync_coord(3, 2);
    assert_eq!(a.coord(), (3, 2));
    assert_eq!(a.coord(), b.coord());
}

#[test]
fn coordinates_past_the_grid_go_to_the_last_cell() {
    let mut buffer = ScreenBuffer::new(5, 2);
    buffer.sync_coord(5 + 3, 1);
    assert_eq!(buffer.coord(), (4, 1));
    buffer.sync_coord(0, 7);
    assert_eq!(buffer.coord(), (4, 1));
    buffer.sync_coord(i16::MIN, i16::MIN);
    assert_eq!(buffer.coord(), (4, 1));
    // Inside the grid a column past the width runs on into the next row.
    buffer.sync_coord(5 + 1, 0);
    assert_eq!(buffer.coord(), (1, 1));
}

#[test]
fn cursor_rests_left_of_a_trailing_half() {
    let mut buffer = ScreenBuffer::new(5, 2);
    buffer.sync_content("ab\u{3493}");
    buffer.sync_coord(3, 0);
    assert_eq!(buffer.coord(), (2, 0));
    // The last cell holds a trailing half.
    buffer.sync_coord(3, 1);
    buffer.sync_content("\u{3493}");
    buffer.sync_coord(9, 9);
    assert_eq!(buffer.coord(), (3, 1));
    assert_eq!(buffer.cursor(), 8);
}

#[test]
fn wide_cell_has_two_halves() {
    let mut buffer = ScreenBuffer::new(5, 2);
    buffer.sync_coord(1, 0);
    buffer.set_cell(vec!['\u{3493}'], true);
    let lead = buffer.cells()[1].as_ref().unwrap();
    assert!(lead.is_wide && !lead.is_part);
    assert_eq!(lead.glyph, vec!['\u{3493}']);
    let tail = buffer.cells()[2].as_ref().unwrap();
    assert!(tail.is_wide && tail.is_part);
    assert!(tail.glyph.is_empty());
    assert_eq!(buffer.coord(), (3, 0));
}

#[test]
fn narrow_over_wide_blanks_the_other_half() {
    let mut buffer = ScreenBuffer::new(5, 1);
    buffer.sync_content("\u{3493}z");
    buffer.sync_coord(0, 0);
    buffer.set_cell(vec!['x'], false);
    assert_eq!(glyph_at(&buffer, 0), Some("x".to_string()));
    assert!(buffer.cells()[1].is_none());
    assert_eq!(buffer.coord(), (2, 0));
    assert_eq!(buffer.check_contents(), "x z  ");
}

#[test]
fn glyph_that_does_not_fit_is_dropped() {
    let mut buffer = ScreenBuffer::new(3, 1);
    buffer.sync_content("ab\u{3493}");
    assert_eq!(buffer.check_contents(), "ab ");
    assert!(buffer.cells()[2].is_none());
    assert_eq!(buffer.coord(), (2, 0));
    // A narrow glyph over a trailing half in the last cell would need a
    // cell past the grid too.
    let mut buffer = ScreenBuffer::new(2, 1);
    buffer.sync_content("\u{3493}z");
    assert_eq!(buffer.check_contents(), "\u{3493}");
    assert_eq!(glyph_at(&buffer, 0), Some("\u{3493}".to_string()));
}

#[test]
fn writing_past_the_end_overwrites_the_last_cell() {
    let mut buffer = ScreenBuffer::new(3, 1);
    buffer.sync_content("abcde");
    assert_eq!(buffer.check_contents(), "abe");
    assert_eq!(buffer.coord(), (0, 1));
}

#[test]
fn ascii_control_characters() {
    let mut buffer = ScreenBuffer::new(10, 3);
    buffer.sync_content("ab\x00c");
    assert_eq!(buffer.coord(), (3, 0));
    buffer.sync_content("\r");
    assert_eq!(buffer.coord(), (0, 0));
    buffer.sync_content("xy\n");
    assert_eq!(buffer.coord(), (2, 1));
    buffer.sync_content("\r\n");
    assert_eq!(buffer.coord(), (0, 2));
    buffer.sync_content("\r\n");
    assert_eq!(buffer.coord(), (0, 2));
    buffer.sync_content("\x1B");
    assert_eq!(glyph_at(&buffer, 20), Some("^".to_string()));
    buffer.sync_content("\t");
    assert_eq!(buffer.coord(), (8, 2));
    buffer.sync_content("\t");
    assert_eq!(buffer.coord(), (9, 2));
}

#[test]
fn tab_stops_follow_the_tab_size() {
    let mut buffer = ScreenBuffer::new(20, 1);
    buffer.sync_tab_size(3);
    buffer.sync_content("\t");
    assert_eq!(buffer.coord(), (3, 0));
    buffer.sync_content("a\t");
    assert_eq!(buffer.coord(), (6, 0));
    buffer.sync_tab_size(usize::MAX);
    buffer.sync_content("\t");
    assert_eq!(buffer.coord(), (19, 0));
}

#[test]
fn console_line_feed_returns_to_the_first_column() {
    let mut buffer = ScreenBuffer::with_platform(5, 2, Platform::Console);
    buffer.sync_content("a\n\u{3493}z");
    assert_eq!(buffer.check_contents(), format!("a{}\u{3493}z{}", " ".repeat(4), " ".repeat(2)));
    let mut other = ScreenBuffer::with_platform(5, 2, Platform::Console);
    other.sync_content("a\r\n\u{3493}z");
    assert_eq!(buffer.check_contents(), other.check_contents());
    buffer.sync_coord(0, 0);
    buffer.sync_content("a\n$z");
    assert_eq!(buffer.check_contents(), format!("a{}$ z{}", " ".repeat(4), " ".repeat(2)));
    buffer.sync_coord(1, 1);
    buffer.sync_clear(Clear::NewLn);
    assert_eq!(buffer.check_contents(), format!("a{}${}", " ".repeat(4), " ".repeat(4)));
}

#[test]
fn width_classes_of_clusters() {
    let mut buffer = ScreenBuffer::new(8, 1);
    // Width 1, width 1 with a variation selector, width 2, width 6.
    buffer.sync_segment(&vec!['\u{e9}'], 1);
    buffer.sync_segment(&vec!['\u{2764}', '\u{fe0f}'], 1);
    buffer.sync_segment(&vec!['\u{3493}'], 2);
    buffer.sync_segment(&vec!['\u{1F468}', '\u{200d}', '\u{1F469}'], 6);
    let cells = buffer.cells();
    assert!(!cells[0].as_ref().unwrap().is_wide);
    assert!(cells[1].as_ref().unwrap().is_wide);
    assert_eq!(cells[1].as_ref().unwrap().glyph, vec!['\u{2764}', '\u{fe0f}']);
    assert!(cells[2].as_ref().unwrap().is_part);
    assert!(cells[3].as_ref().unwrap().is_wide);
    assert!(cells[4].as_ref().unwrap().is_part);
    assert_eq!(cells[5].as_ref().unwrap().glyph, vec!['\u{1F6A7}']);
    assert!(cells[6].as_ref().unwrap().is_part);
    assert!(cells[7].is_none());
}

#[test]
fn placeholder_can_be_changed() {
    let mut buffer = ScreenBuffer::new(4, 1);
    buffer.sync_placeholder('?');
    buffer.sync_content("\u{1F468}\u{200d}\u{1F469}\u{200d}\u{1F467}");
    assert_eq!(glyph_at(&buffer, 0), Some("?".to_string()));
    assert!(buffer.cells()[0].as_ref().unwrap().is_wide);
}

#[test]
fn clear_all_empties_the_grid() {
    let mut buffer = ScreenBuffer::new(4, 2);
    buffer.sync_content("abcdef");
    buffer.sync_clear(Clear::All);
    assert!(buffer.cells().iter().all(|c| c.is_none()));
    assert_eq!(buffer.cursor(), 0);
    assert_eq!(buffer.coord(), (0, 0));
}

#[test]
fn clear_regions() {
    let mut buffer = ScreenBuffer::new(4, 3);
    buffer.sync_content("abcdefghijkl");
    buffer.sync_coord(1, 1);
    buffer.sync_clear(Clear::CursorUp);
    assert_eq!(buffer.check_contents(), "     fghijkl");
    assert_eq!(buffer.coord(), (1, 1));
    buffer.sync_coord(2, 1);
    buffer.sync_clear(Clear::CursorDn);
    assert_eq!(buffer.check_contents(), "     f      ");
    assert_eq!(buffer.coord(), (2, 1));
    buffer.sync_coord(0, 0);
    buffer.sync_content("abcdefghijkl");
    buffer.sync_coord(2, 1);
    buffer.sync_clear(Clear::NewLn);
    assert_eq!(buffer.check_contents(), "abcdef  ijkl");
    assert_eq!(buffer.coord(), (2, 1));
    buffer.sync_coord(3, 2);
    buffer.sync_clear(Clear::CurrentLn);
    assert_eq!(buffer.check_contents(), "abcdef      ");
    assert_eq!(buffer.coord(), (0, 2));
}

#[test]
fn jump_swaps_cursor_and_marker() {
    let mut buffer = ScreenBuffer::new(5, 2);
    buffer.sync_coord(1, 0);
    buffer.sync_marker(3, 1);
    buffer.jump();
    assert_eq!(buffer.coord(), (3, 1));
    buffer.jump();
    assert_eq!(buffer.coord(), (1, 0));
    buffer.jump();
    assert_eq!(buffer.coord(), (3, 1));
}

#[test]
fn jump_to_a_marker_past_the_grid_rests_on_the_last_cell() {
    let mut buffer = ScreenBuffer::new(5, 2);
    buffer.sync_coord(1, 0);
    buffer.sync_marker(0, 5);
    buffer.jump();
    assert_eq!(buffer.coord(), (4, 1));
    buffer.jump();
    assert_eq!(buffer.coord(), (1, 0));
    buffer.jump();
    assert_eq!(buffer.coord(), (4, 1));
}

#[test]
fn getch_reads_the_glyph_under_the_cursor() {
    let mut buffer = ScreenBuffer::new(4, 1);
    assert_eq!(buffer.getch(), " ");
    buffer.sync_content("a\u{3493}");
    buffer.sync_coord(0, 0);
    assert_eq!(buffer.getch(), "a");
    buffer.sync_index(2);
    assert_eq!(buffer.getch(), "\u{3493}");
    buffer.sync_index(3);
    assert_eq!(buffer.getch(), " ");
    buffer.sync_index(4);
    assert_eq!(buffer.getch(), " ");
}

#[test]
fn delch_shifts_the_rest_left() {
    let mut buffer = ScreenBuffer::new(5, 1);
    buffer.sync_content("a\u{3493}bc");
    buffer.sync_coord(0, 0);
    buffer.delch();
    assert_eq!(buffer.check_contents(), "\u{3493}bc ");
    buffer.delch();
    assert_eq!(buffer.check_contents(), "bc   ");
    assert_eq!(buffer.cells().len(), 5);
    buffer.sync_coord(4, 0);
    buffer.delch();
    assert_eq!(buffer.check_contents(), "bc   ");
    buffer.sync_index(5);
    buffer.delch();
    assert_eq!(buffer.check_contents(), "bc   ");
}

#[test]
fn resize_keeps_cells_by_index() {
    let mut buffer = ScreenBuffer::new(3, 2);
    buffer.sync_content("abcdef");
    buffer.sync_size(2, 2);
    assert_eq!(buffer.cells().len(), 4);
    assert_eq!(buffer.check_contents(), "abcd");
    assert_eq!(buffer.coord(), (1, 1));
    buffer.sync_size(3, 3);
    assert_eq!(buffer.cells().len(), 9);
    assert_eq!(buffer.check_contents(), "abcd     ");
    assert_eq!(buffer.size(), (3, 3));
}

#[test]
fn styles_apply_to_new_cells() {
    let mut buffer = ScreenBuffer::new(4, 1);
    buffer.sync_content("a");
    buffer.sync_style(Style::Fg(Color::Red));
    buffer.sync_content("b");
    buffer.sync_style(Style::Bg(Color::AnsiValue(7)));
    buffer.sync_style(Style::Fx(Effect::Bold.bits()));
    buffer.sync_content("c");
    buffer.sync_styles(Color::Reset, Color::Rgb { r: 1, g: 2, b: 3 }, FX_RESET);
    buffer.sync_content("d");
    let cells = buffer.cells();
    assert_eq!(cells[0].as_ref().unwrap().style, Styles::plain());
    assert_eq!(cells[1].as_ref().unwrap().style, Styles { fg: Color::Red, bg: Color::Reset, fx: 0x200 });
    assert_eq!(
        cells[2].as_ref().unwrap().style,
        Styles { fg: Color::Red, bg: Color::AnsiValue(7), fx: 0x400 }
    );
    assert_eq!(
        cells[3].as_ref().unwrap().style,
        Styles { fg: Color::Reset, bg: Color::Rgb { r: 1, g: 2, b: 3 }, fx: 0x200 }
    );
}

#[test]
fn effect_bits() {
    assert_eq!(Effect::Reset.bits(), 1 << 9);
    assert_eq!(Effect::Bold.bits(), 1 << 10);
    assert_eq!(Effect::Dim.bits(), 1 << 11);
    assert_eq!(Effect::Underline.bits(), 1 << 13);
    assert_eq!(Effect::Reverse.bits(), 1 << 16);
    assert_eq!(Effect::Hide.bits(), 1 << 17);
    assert_eq!(FX_RESET, Effect::Reset.bits());
    assert!(Styles::plain().is_plain());
    assert!(!Styles::plain().with(Style::Fg(Color::Blue)).is_plain());
}

#[test]
fn render_paints_every_cell() {
    let mut buffer = ScreenBuffer::new(4, 1);
    buffer.sync_content("a");
    buffer.sync_style(Style::Fg(Color::Red));
    buffer.sync_content("\u{3493}");
    let paint = buffer.render();
    assert_eq!(
        paint,
        vec![
            Paint::Put('a'),
            Paint::Fg(Color::Red),
            Paint::Put('\u{3493}'),
            Paint::Reset,
            Paint::Put(' '),
        ]
    );
}

#[test]
fn render_changes_only_what_differs_in_the_style() {
    let mut buffer = ScreenBuffer::new(4, 1);
    buffer.sync_styles(Color::Red, Color::Blue, Effect::Bold.bits());
    buffer.sync_content("a");
    buffer.sync_style(Style::Bg(Color::Green));
    buffer.sync_content("b");
    buffer.sync_styles(Color::Reset, Color::Reset, FX_RESET);
    buffer.sync_content("cd");
    let paint = buffer.render();
    assert_eq!(
        paint,
        vec![
            Paint::Fg(Color::Red),
            Paint::Bg(Color::Blue),
            Paint::Fx(0x400),
            Paint::Put('a'),
            Paint::Bg(Color::Green),
            Paint::Put('b'),
            Paint::Reset,
            Paint::Put('c'),
            Paint::Put('d'),
        ]
    );
}

#[test]
fn refresh_after_render_writes_nothing() {
    let mut buffer = ScreenBuffer::new(5, 2);
    buffer.sync_style(Style::Fg(Color::Cyan));
    buffer.sync_content("He\u{3493}o, \u{915}\u{94d}\u{200d}\u{937}");
    let first = buffer.render();
    assert!(!first.is_empty());
    assert_eq!(buffer.refresh(), vec![]);
    assert_eq!(buffer.refresh(), vec![]);
}

#[test]
fn refresh_writes_one_changed_cell() {
    let mut buffer = ScreenBuffer::new(5, 2);
    buffer.sync_content("abcdefghij");
    buffer.render();
    buffer.sync_coord(1, 0);
    buffer.sync_content("X");
    assert_eq!(buffer.refresh(), vec![Paint::Goto(1, 0), Paint::Put('X'), Paint::Reset]);
    buffer.sync_coord(2, 1);
    buffer.sync_content("Y");
    assert_eq!(buffer.refresh(), vec![Paint::Goto(2, 1), Paint::Put('Y'), Paint::Reset]);
    assert_eq!(buffer.refresh(), vec![]);
}

#[test]
fn refresh_moves_once_for_a_run_of_changes() {
    let mut buffer = ScreenBuffer::new(5, 2);
    buffer.render();
    buffer.sync_coord(3, 0);
    buffer.sync_content("abc");
    assert_eq!(
        buffer.refresh(),
        vec![Paint::Goto(3, 0), Paint::Put('a'), Paint::Put('b'), Paint::Put('c')]
    );
    buffer.sync_coord(3, 0);
    buffer.sync_clear(Clear::NewLn);
    buffer.sync_style(Style::Fg(Color::Red));
    buffer.sync_coord(0, 1);
    buffer.sync_content("z");
    assert_eq!(
        buffer.refresh(),
        vec![
            Paint::Goto(3, 0),
            Paint::Reset,
            Paint::Put(' '),
            Paint::Reset,
            Paint::Put(' '),
            Paint::Fg(Color::Red),
            Paint::Put('z'),
            Paint::Reset,
        ]
    );
}

#[test]
fn refresh_restyles_a_cell_that_changed_color() {
    let mut buffer = ScreenBuffer::new(3, 1);
    buffer.sync_styles(Color::Red, Color::Blue, FX_RESET);
    buffer.sync_content("ab");
    buffer.render();
    buffer.sync_coord(0, 0);
    buffer.sync_styles(Color::Red, Color::Green, FX_RESET);
    buffer.sync_content("a");
    buffer.sync_styles(Color::Reset, Color::Reset, FX_RESET);
    buffer.sync_content("b");
    buffer.sync_styles(Color::Yellow, Color::Reset, FX_RESET);
    buffer.sync_content("c");
    assert_eq!(
        buffer.refresh(),
        vec![
            Paint::Goto(0, 0),
            Paint::Bg(Color::Green),
            Paint::Put('a'),
            Paint::Reset,
            Paint::Reset,
            Paint::Put('b'),
            Paint::Reset,
            Paint::Fg(Color::Yellow),
            Paint::Bg(Color::Reset),
            Paint::Put('c'),
            Paint::Reset,
        ]
    );
}

#[test]
fn resize_brings_the_cursor_into_the_window() {
    let mut buffer = ScreenBuffer::new(5, 2);
    buffer.sync_coord(4, 1);
    buffer.sync_size(3, 2);
    assert_eq!(buffer.cursor(), 5);
    assert_eq!(buffer.coord(), (2, 1));
    // The last cell of the new window holds a trailing half.
    let mut buffer = ScreenBuffer::new(4, 2);
    buffer.sync_coord(2, 0);
    buffer.sync_content("\u{3493}");
    buffer.sync_coord(3, 1);
    buffer.sync_size(4, 1);
    assert_eq!(buffer.coord(), (2, 0));
    // A cursor inside the new window stays.
    let mut buffer = ScreenBuffer::new(4, 2);
    buffer.sync_coord(1, 1);
    buffer.sync_size(6, 2);
    assert_eq!(buffer.cursor(), 5);
    assert_eq!(buffer.coord(), (5, 0));
}

#[test]
fn refresh_writes_changed_effects() {
    let mut buffer = ScreenBuffer::new(3, 1);
    buffer.sync_styles(Color::Red, Color::Reset, FX_RESET);
    buffer.sync_content("a");
    buffer.render();
    buffer.sync_coord(0, 0);
    buffer.sync_styles(Color::Red, Color::Reset, Effect::Bold.bits());
    buffer.sync_content("ab");
    assert_eq!(
        buffer.refresh(),
        vec![
            Paint::Goto(0, 0),
            Paint::Fx(0x400),
            Paint::Put('a'),
            Paint::Reset,
            Paint::Fg(Color::Red),
            Paint::Bg(Color::Reset),
            Paint::Fx(0x400),
            Paint::Put('b'),
            Paint::Reset,
        ]
    );
    buffer.sync_coord(1, 0);
    buffer.sync_styles(Color::Blue, Color::Green, Effect::Underline.bits());
    buffer.sync_content("b");
    assert_eq!(
        buffer.refresh(),
        vec![
            Paint::Goto(1, 0),
            Paint::Fg(Color::Blue),
            Paint::Bg(Color::Green),
            Paint::Fx(0x2000),
            Paint::Put('b'),
            Paint::Reset,
        ]
    );
}

#[test]
fn paint_and_diff_leave_the_front() {
    let mut buffer = ScreenBuffer::new(2, 1);
    buffer.sync_content("a");
    assert_eq!(buffer.paint(), vec![Paint::Put('a'), Paint::Put(' ')]);
    assert_eq!(buffer.diff(), vec![Paint::Goto(0, 0), Paint::Put('a')]);
    assert_eq!(buffer.diff(), vec![Paint::Goto(0, 0), Paint::Put('a')]);
    buffer.sync_front();
    assert_eq!(buffer.diff(), vec![]);
}
