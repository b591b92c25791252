use vm::console::{Console, ConsoleEvent, Key};

fn open_console() -> Console {
    let mut c = Console::new(1280, 400);
    c.toggle(1);
    c
}

fn type_text(c: &mut Console, s: &str, timestamp: u32) {
    for ch in s.chars() {
        c.process(&ConsoleEvent::TextInput { text: ch.to_string(), timestamp });
    }
}

fn key_down(c: &mut Console, key: Key) {
    c.process(&ConsoleEvent::KeyDown { key, toggle_key: false, modified: false, timestamp: 500 });
}

fn key_up(c: &mut Console, key: Key) {
    c.process(&ConsoleEvent::KeyUp { key, timestamp: 500 });
}

fn lines(c: &Console) -> Vec<String> {
    c.scroll_back().clone()
}

#[test]
fn new_console_is_hidden_and_empty() {
    let c = Console::new(1280, 400);
    assert!(!c.is_visible());
    assert_eq!(c.input(), "");
    assert_eq!(c.cursor_position(), 0);
    assert!(c.scroll_back().is_empty());
    assert!(c.history().is_empty());
    assert_eq!(c.size(), (640, 400));
    assert_eq!(c.scroll_offset(), 0);
}

#[test]
fn typing_and_backspace_scenario() {
    let mut c = open_console();
    type_text(&mut c, "mem", 100);
    assert_eq!(c.input(), "mem");
    assert_eq!(c.cursor_position(), 3);
    key_down(&mut c, Key::Backspace);
    key_down(&mut c, Key::Backspace);
    assert_eq!(c.input(), "m");
    assert_eq!(c.cursor_position(), 1);
}

#[test]
fn text_inside_debounce_window_is_ignored() {
    let mut c = Console::new(1280, 400);
    c.toggle(1000);
    type_text(&mut c, "x", 1050);
    assert_eq!(c.input(), "");
    type_text(&mut c, "y", 1051);
    assert_eq!(c.input(), "y");
}

#[test]
fn hidden_console_ignores_events() {
    let mut c = Console::new(1280, 400);
    type_text(&mut c, "abc", 5000);
    key_up(&mut c, Key::Return);
    assert_eq!(c.input(), "");
    assert!(c.scroll_back().is_empty());
}

#[test]
fn toggle_key_closes_console() {
    let mut c = open_console();
    c.process(&ConsoleEvent::KeyDown { key: Key::Other, toggle_key: true, modified: false, timestamp: 9 });
    assert!(!c.is_visible());
    let mut d = open_console();
    d.process(&ConsoleEvent::KeyDown { key: Key::Other, toggle_key: true, modified: true, timestamp: 9 });
    assert!(d.is_visible());
}

#[test]
fn print_continues_open_line() {
    let mut c = Console::new(1280, 400);
    c.println("line1");
    c.print("line2");
    c.print("-cont");
    assert_eq!(lines(&c), vec!["line1".to_string(), "line2-cont".to_string()]);
}

#[test]
fn print_after_clear_starts_a_line() {
    let mut c = Console::new(1280, 400);
    c.print("a");
    c.clear();
    assert!(c.scroll_back().is_empty());
    c.print("b");
    c.print("c");
    assert_eq!(lines(&c), vec!["bc".to_string()]);
}

#[test]
fn wrap_line_opens_empty_line() {
    let mut c = Console::new(1280, 400);
    c.println("x");
    c.wrap_line();
    c.print("y");
    assert_eq!(lines(&c), vec!["x".to_string(), "y".to_string()]);
}

#[test]
fn print_lines_splits_lines() {
    let mut c = Console::new(1280, 400);
    c.print_lines("one\r\ntwo\n\nthree\n");
    assert_eq!(
        lines(&c),
        vec!["one".to_string(), "two".to_string(), "".to_string(), "three".to_string()]
    );
    c.print("x");
    assert_eq!(c.scroll_back().len(), 5);
    c.print_lines("");
    assert_eq!(c.scroll_back().len(), 5);
}

#[test]
fn commit_echoes_and_records() {
    let mut c = open_console();
    type_text(&mut c, "help", 100);
    key_up(&mut c, Key::Return);
    assert_eq!(lines(&c), vec!["hakka> help".to_string()]);
    assert_eq!(c.history().clone(), vec!["help".to_string()]);
    assert_eq!(c.input(), "");
    assert_eq!(c.cursor_position(), 0);
    assert_eq!(c.history_position(), 1);
}

#[test]
fn empty_commit_is_dropped() {
    let mut c = open_console();
    c.commit();
    assert!(c.history().is_empty());
    assert_eq!(c.try_process_command(), None);
    assert_eq!(lines(&c), vec!["hakka> ".to_string()]);
}

#[test]
fn command_is_taken_once() {
    let mut c = open_console();
    type_text(&mut c, "list", 100);
    c.commit();
    assert_eq!(c.pending_command().as_str(), "list");
    assert_eq!(c.try_process_command(), Some("list".to_string()));
    assert_eq!(c.try_process_command(), None);
}

#[test]
fn history_back_then_forward() {
    let mut c = open_console();
    type_text(&mut c, "help", 100);
    c.commit();
    key_up(&mut c, Key::Up);
    assert_eq!(c.input(), "help");
    assert_eq!(c.cursor_position(), 4);
    key_up(&mut c, Key::Down);
    assert_eq!(c.input(), "");
    assert_eq!(c.cursor_position(), 0);
}

#[test]
fn history_navigation_is_clamped() {
    let mut c = open_console();
    type_text(&mut c, "a", 100);
    c.commit();
    type_text(&mut c, "bb", 100);
    c.commit();
    c.history_navigate_back();
    assert_eq!(c.input(), "bb");
    c.history_navigate_back();
    assert_eq!(c.input(), "a");
    c.history_navigate_back();
    assert_eq!(c.input(), "a");
    assert_eq!(c.history_position(), 0);
    c.history_navigate_forward();
    assert_eq!(c.input(), "bb");
    c.history_navigate_forward();
    assert_eq!(c.input(), "");
    c.history_navigate_forward();
    assert_eq!(c.input(), "");
    assert_eq!(c.history_position(), 2);
}

#[test]
fn arrow_release_before_start_time_only_records_it() {
    let mut c = Console::new(1280, 400);
    c.toggle(0);
    c.commit();
    type_text(&mut c, "q", 100);
    c.commit();
    c.process(&ConsoleEvent::KeyUp { key: Key::Up, timestamp: 77 });
    assert_eq!(c.input(), "");
    c.process(&ConsoleEvent::KeyUp { key: Key::Up, timestamp: 78 });
    assert_eq!(c.input(), "q");
}

#[test]
fn cursor_moves_over_multibyte_text() {
    let mut c = open_console();
    type_text(&mut c, "aé😀", 100);
    assert_eq!(c.cursor_position(), 3);
    c.cursor_right();
    assert_eq!(c.cursor_position(), 3);
    c.cursor_left();
    assert_eq!(c.input_before_cursor(), "aé");
    c.cursor_left();
    c.cursor_left();
    c.cursor_left();
    assert_eq!(c.cursor_position(), 0);
    assert_eq!(c.input_before_cursor(), "");
    c.cursor_right();
    assert_eq!(c.input_before_cursor(), "a");
    assert_eq!(c.input(), "aé😀");
}

#[test]
fn insert_in_the_middle() {
    let mut c = open_console();
    type_text(&mut c, "ac", 100);
    key_down(&mut c, Key::Left);
    type_text(&mut c, "b", 100);
    assert_eq!(c.input(), "abc");
    assert_eq!(c.cursor_position(), 2);
    c.add_text("");
    assert_eq!(c.input(), "abc");
}

#[test]
fn backspace_then_reinsert_restores() {
    let mut c = open_console();
    type_text(&mut c, "xé😀z", 100);
    key_down(&mut c, Key::Left);
    key_down(&mut c, Key::Backspace);
    assert_eq!(c.input(), "xéz");
    c.add_text("😀");
    assert_eq!(c.input(), "xé😀z");
    assert_eq!(c.cursor_position(), 3);
}

#[test]
fn backspace_at_start_is_noop() {
    let mut c = open_console();
    type_text(&mut c, "ab", 100);
    key_up(&mut c, Key::Home);
    key_down(&mut c, Key::Backspace);
    assert_eq!(c.input(), "ab");
    key_up(&mut c, Key::End);
    assert_eq!(c.cursor_position(), 2);
}

#[test]
fn delete_removes_after_cursor() {
    let mut c = open_console();
    type_text(&mut c, "abc", 100);
    key_up(&mut c, Key::Home);
    key_down(&mut c, Key::Delete);
    assert_eq!(c.input(), "bc");
    assert_eq!(c.cursor_position(), 0);
    key_up(&mut c, Key::End);
    c.delete_forward();
    assert_eq!(c.input(), "bc");
}

#[test]
fn ctrl_c_commits_interrupted_line() {
    let mut c = open_console();
    type_text(&mut c, "ls", 100);
    key_down(&mut c, Key::C);
    assert_eq!(c.input(), "ls");
    key_down(&mut c, Key::LCtrl);
    key_down(&mut c, Key::C);
    assert_eq!(c.input(), "");
    assert_eq!(lines(&c), vec!["hakka> ls^C".to_string()]);
    assert_eq!(c.try_process_command(), Some("ls^C".to_string()));
    key_up(&mut c, Key::LCtrl);
    key_down(&mut c, Key::C);
    assert!(c.history().len() == 1);
}

#[test]
fn scroll_needs_a_full_log() {
    let mut c = open_console();
    c.process(&ConsoleEvent::MouseWheel { y: 3 });
    assert_eq!(c.scroll_offset(), 0);
    for _ in 0..25 {
        c.println("x");
    }
    // 25 lines of 18 pixels exceed the 364 pixels of the log area.
    c.process(&ConsoleEvent::MouseWheel { y: 3 });
    assert_eq!(c.scroll_offset(), 18);
    c.process(&ConsoleEvent::MouseWheel { y: -1 });
    assert_eq!(c.scroll_offset(), 12);
}

#[test]
fn scroll_never_goes_negative() {
    let mut c = open_console();
    for _ in 0..30 {
        c.println("x");
    }
    c.scroll(2);
    c.scroll(-1000);
    assert_eq!(c.scroll_offset(), 0);
    c.scroll(i32::MIN);
    c.scroll(-5);
    assert_eq!(c.scroll_offset(), 0);
    c.scroll(i32::MAX);
    assert_eq!(c.scroll_offset(), i32::MAX);
}

#[test]
fn layout_caps_rendered_lines() {
    let mut c = open_console();
    for i in 0..250 {
        c.println(&format!("line {}", i));
    }
    let placed = c.backbuffer_layout();
    assert_eq!(placed.len(), 200);
    assert_eq!(placed[0].index, 249);
    assert_eq!(placed[199].index, 50);
    // 400 - 18 * 2 - 10
    assert_eq!(placed[0].y, 354);
    assert_eq!(placed[1].y, 336);
}

#[test]
fn layout_skips_blank_lines() {
    let mut c = open_console();
    c.println("first");
    c.println(" \t\u{3000}");
    c.println("");
    c.println("last");
    c.scroll(0);
    let placed = c.backbuffer_layout();
    assert_eq!(placed.len(), 2);
    assert_eq!(placed[0].index, 3);
    assert_eq!(placed[0].y, 354);
    assert_eq!(placed[1].index, 0);
    assert_eq!(placed[1].y, 400 - 18 * 5 - 10);
}

#[test]
fn layout_follows_scroll_offset() {
    let mut c = open_console();
    for _ in 0..30 {
        c.println("x");
    }
    c.scroll(1);
    let placed = c.backbuffer_layout();
    assert_eq!(placed.len(), 30);
    assert_eq!(placed[0].y, 354 + 6);
}
