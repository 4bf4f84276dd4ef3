use termsession::draw::{encode_with, DrawOp};
use termsession::screen::{Key, Next, Screen};

fn type_text(screen: &mut Screen, text: &str) {
    for c in text.chars() {
        assert_eq!(screen.handle_key(Key::Char(c)), Next::Redraw);
    }
}

fn enter(screen: &mut Screen) {
    assert_eq!(screen.handle_key(Key::Char('\n')), Next::Redraw);
}

fn with_lines(count: usize) -> Screen {
    let mut screen = Screen::new();
    for i in 0..count {
        type_text(&mut screen, &format!("line {}", i));
        enter(&mut screen);
    }
    screen
}

fn entry(text: &str) -> DrawOp {
    DrawOp::Text(format!("<user>{}\n", text))
}

fn shown_texts(ops: &[DrawOp]) -> Vec<String> {
    ops.iter()
        .filter_map(|op| match op {
            DrawOp::Text(text) => Some(text.clone()),
            _ => None,
        })
        .collect()
}

#[test]
fn a_new_session_is_empty() {
    let screen = Screen::new();
    assert_eq!(screen.title(), "Title Bar");
    assert_eq!(screen.status(), "Status Bar");
    assert_eq!(screen.prompt(), "<user>");
    assert_eq!(screen.current_line(), "");
    assert_eq!(screen.input().len(), 0);
    assert_eq!(screen.input().offset(), 0);
    assert!(screen.records().is_empty());
    assert!(!screen.command_mode());
}

#[test]
fn set_status_replaces_the_status_text() {
    let mut screen = Screen::new();
    screen.set_status("ready");
    assert_eq!(screen.status(), "ready");
    screen.set_status("");
    assert_eq!(screen.status(), "");
    assert_eq!(screen.title(), "Title Bar");
}

#[test]
fn typing_a_line_and_pressing_enter_appends_a_record() {
    let mut screen = Screen::new();
    type_text(&mut screen, "hello world");
    assert_eq!(screen.current_line(), "hello world");
    assert_eq!(screen.input().offset(), 11);
    enter(&mut screen);
    assert_eq!(screen.records().len(), 1);
    assert_eq!(screen.records()[0].data, "hello world");
    assert_eq!(screen.records()[0].y_size, 1);
    assert_eq!(screen.records()[0].username, "user");
    assert_eq!(screen.current_line(), "");
    assert_eq!(screen.input().len(), 0);
    assert_eq!(screen.input().offset(), 0);
    assert_eq!(screen.status(), "Status Bar");

    let ops = screen.redraw(40, 10);
    let status_bar = ops
        .iter()
        .position(|op| *op == DrawOp::MoveTo { x: 0, y: 9 })
        .expect("the status bar is drawn on the last row but one");
    assert_eq!(ops[status_bar - 2], DrawOp::MoveTo { x: 0, y: 8 });
    assert_eq!(ops[status_bar - 1], entry("hello world"));
}

#[test]
fn typing_slash_h_and_pressing_enter_shows_help() {
    let mut screen = Screen::new();
    type_text(&mut screen, "/h");
    enter(&mut screen);
    assert_eq!(screen.status(), "HELP");
    assert_eq!(screen.current_line(), "");
    assert!(screen.records().is_empty());
    assert!(!screen.command_mode());
}

#[test]
fn the_terminator_key_ends_a_fresh_session() {
    let mut screen = Screen::new();
    assert_eq!(screen.handle_key(Key::Ctrl('d')), Next::Quit);
    assert_eq!(screen.status(), "Status Bar");
    assert_eq!(screen.current_line(), "");
    assert!(screen.records().is_empty());
}

#[test]
fn the_terminator_key_ends_the_session_in_any_mode() {
    let mut screen = with_lines(2);
    type_text(&mut screen, "half a line");
    assert_eq!(screen.handle_key(Key::Ctrl('d')), Next::Quit);
    assert_eq!(screen.current_line(), "half a line");
    assert_eq!(screen.records().len(), 2);

    let mut screen = Screen::new();
    type_text(&mut screen, "/he");
    let status = screen.status().to_string();
    assert_eq!(screen.handle_key(Key::Ctrl('d')), Next::Quit);
    assert_eq!(screen.current_line(), "/he");
    assert_eq!(screen.status(), status);
}

#[test]
fn other_keys_change_nothing() {
    let mut screen = with_lines(1);
    type_text(&mut screen, "abc");
    for key in [Key::Other, Key::Ctrl('c'), Key::Ctrl('D'), Key::Ctrl('\n')] {
        assert_eq!(screen.handle_key(key), Next::Redraw);
        assert_eq!(screen.current_line(), "abc");
        assert_eq!(screen.input().offset(), 3);
        assert_eq!(screen.records().len(), 1);
        assert_eq!(screen.status(), "Status Bar");
    }
}

#[test]
fn backspace_on_an_empty_line_changes_nothing() {
    let mut screen = Screen::new();
    assert_eq!(screen.handle_key(Key::Backspace), Next::Redraw);
    assert_eq!(screen.input().len(), 0);
    assert_eq!(screen.input().offset(), 0);
    assert_eq!(screen.current_line(), "");
    assert_eq!(screen.status(), "Status Bar");
    assert!(screen.records().is_empty());
}

#[test]
fn backspace_erases_the_last_character() {
    let mut screen = Screen::new();
    type_text(&mut screen, "helo");
    assert_eq!(screen.handle_key(Key::Backspace), Next::Redraw);
    assert_eq!(screen.current_line(), "hel");
    assert_eq!(screen.input().offset(), 3);
    assert_eq!(screen.status(), "Status Bar");
}

#[test]
fn a_leading_slash_enters_command_mode() {
    let mut screen = Screen::new();
    type_text(&mut screen, "/");
    assert!(screen.command_mode());
    assert_eq!(screen.status(), "/");
    type_text(&mut screen, "cl");
    assert!(screen.command_mode());
    assert_eq!(screen.status(), "/clear");
    type_text(&mut screen, "ear");
    assert_eq!(screen.status(), "clear");
}

#[test]
fn a_slash_inside_a_line_is_an_ordinary_character() {
    let mut screen = Screen::new();
    type_text(&mut screen, "a/b");
    assert!(!screen.command_mode());
    assert_eq!(screen.status(), "Status Bar");
    enter(&mut screen);
    assert_eq!(screen.records().len(), 1);
    assert_eq!(screen.records()[0].data, "a/b");
}

#[test]
fn backspace_in_command_mode_suggests_again() {
    let mut screen = Screen::new();
    type_text(&mut screen, "/menu");
    assert_eq!(screen.status(), "menu");
    screen.handle_key(Key::Backspace);
    assert_eq!(screen.current_line(), "/men");
    assert_eq!(screen.status(), "/menu");
    screen.handle_key(Key::Backspace);
    screen.handle_key(Key::Backspace);
    screen.handle_key(Key::Backspace);
    assert_eq!(screen.current_line(), "/");
    assert_eq!(screen.status(), "/");
}

#[test]
fn backspace_out_of_command_mode_empties_the_status_bar() {
    let mut screen = Screen::new();
    type_text(&mut screen, "/");
    assert_eq!(screen.status(), "/");
    screen.handle_key(Key::Backspace);
    assert!(!screen.command_mode());
    assert_eq!(screen.current_line(), "");
    assert_eq!(screen.status(), "");
}

#[test]
fn committing_a_command_leaves_command_mode_and_the_log_alone() {
    let mut screen = with_lines(1);
    type_text(&mut screen, "/quit");
    enter(&mut screen);
    assert_eq!(screen.status(), "QUIT");
    assert!(!screen.command_mode());
    assert_eq!(screen.current_line(), "");
    assert_eq!(screen.records().len(), 1);
}

#[test]
fn committing_an_unknown_command_reports_it_and_goes_on() {
    let mut screen = Screen::new();
    type_text(&mut screen, "/xyz");
    enter(&mut screen);
    assert_eq!(screen.status(), "Unmatched command /xyz");
    assert_eq!(screen.current_line(), "");
    assert!(screen.records().is_empty());
    type_text(&mut screen, "still here");
    enter(&mut screen);
    assert_eq!(screen.records().len(), 1);
    assert_eq!(screen.status(), "Unmatched command /xyz");
}

#[test]
fn committing_a_lone_slash_keeps_the_slash_in_the_status_bar() {
    let mut screen = Screen::new();
    type_text(&mut screen, "/");
    enter(&mut screen);
    assert_eq!(screen.status(), "/");
    assert_eq!(screen.current_line(), "");
    assert!(screen.records().is_empty());
}

#[test]
fn committing_an_empty_line_appends_an_empty_record() {
    let mut screen = Screen::new();
    enter(&mut screen);
    assert_eq!(screen.records().len(), 1);
    assert_eq!(screen.records()[0].data, "");
    assert_eq!(screen.records()[0].y_size, 1);
}

#[test]
fn records_are_kept_in_the_order_of_their_commits() {
    let screen = with_lines(3);
    let texts: Vec<&str> = screen.records().iter().map(|r| r.data.as_str()).collect();
    assert_eq!(texts, vec!["line 0", "line 1", "line 2"]);
}

#[test]
fn the_frame_of_a_new_session() {
    let screen = Screen::new();
    assert_eq!(
        screen.redraw(12, 5),
        vec![
            DrawOp::Clear,
            DrawOp::MoveTo { x: 0, y: 1 },
            DrawOp::Highlight,
            DrawOp::Text("Title Bar   ".to_string()),
            DrawOp::Reset,
            DrawOp::MoveTo { x: 0, y: 4 },
            DrawOp::Highlight,
            DrawOp::Text("Status Bar  ".to_string()),
            DrawOp::MoveTo { x: 0, y: 5 },
            DrawOp::Reset,
            DrawOp::Text("<user>".to_string()),
        ]
    );
}

#[test]
fn the_frame_holds_the_scrollback_and_the_line_being_typed() {
    let mut screen = with_lines(2);
    type_text(&mut screen, "dra");
    assert_eq!(
        screen.redraw(8, 6),
        vec![
            DrawOp::Clear,
            DrawOp::MoveTo { x: 0, y: 1 },
            DrawOp::Highlight,
            DrawOp::Text("Title Ba".to_string()),
            DrawOp::Reset,
            DrawOp::MoveTo { x: 0, y: 4 },
            entry("line 1"),
            DrawOp::MoveTo { x: 0, y: 3 },
            entry("line 0"),
            DrawOp::MoveTo { x: 0, y: 5 },
            DrawOp::Highlight,
            DrawOp::Text("Status B".to_string()),
            DrawOp::MoveTo { x: 0, y: 6 },
            DrawOp::Reset,
            DrawOp::Text("<user>dra".to_string()),
        ]
    );
}

#[test]
fn the_frame_as_the_terminal_gets_it() {
    let screen = with_lines(1);
    let frame = encode_with(&screen.redraw(10, 4), "\x1b[48;5;4m");
    assert_eq!(
        frame,
        Some(
            "\x1b[2J\x1b[1;0H\x1b[48;5;4mTitle Bar \x1b[m\x1b[2;0H<user>line 0\n\x1b[3;0H\x1b[48;5;4mStatus Bar\x1b[4;0H\x1b[m<user>"
                .to_string()
        )
    );
}

#[test]
fn the_scrollback_shows_the_newest_records_that_fit() {
    for height in 2..12u16 {
        for count in 0..14usize {
            let screen = with_lines(count);
            let ops = screen.records_view(height);
            let room = (height - 2) as usize;
            let shown = count.min(room);
            assert_eq!(ops.len(), 2 * shown);
            for k in 0..shown {
                assert_eq!(ops[2 * k], DrawOp::MoveTo { x: 0, y: height - 2 - k as u16 });
                assert_eq!(ops[2 * k + 1], entry(&format!("line {}", count - 1 - k)));
            }
        }
    }
}

#[test]
fn the_scrollback_of_a_full_log_in_a_frame() {
    let screen = with_lines(30);
    let texts = shown_texts(&screen.redraw(20, 7));
    assert_eq!(
        texts,
        vec![
            "Title Bar           ".to_string(),
            "<user>line 29\n".to_string(),
            "<user>line 28\n".to_string(),
            "<user>line 27\n".to_string(),
            "<user>line 26\n".to_string(),
            "<user>line 25\n".to_string(),
            "Status Bar          ".to_string(),
            "<user>".to_string(),
        ]
    );
}

#[test]
fn a_tiny_terminal_shows_no_records() {
    let screen = with_lines(3);
    assert!(screen.records_view(0).is_empty());
    assert!(screen.records_view(1).is_empty());
    assert!(screen.records_view(2).is_empty());
    assert_eq!(screen.records_view(3), vec![DrawOp::MoveTo { x: 0, y: 1 }, entry("line 2")]);
}

#[test]
fn a_tiny_terminal_still_gets_its_bars() {
    let screen = Screen::new();
    let ops = screen.redraw(3, 1);
    assert_eq!(
        ops,
        vec![
            DrawOp::Clear,
            DrawOp::MoveTo { x: 0, y: 1 },
            DrawOp::Highlight,
            DrawOp::Text("Tit".to_string()),
            DrawOp::Reset,
            DrawOp::MoveTo { x: 0, y: 0 },
            DrawOp::Highlight,
            DrawOp::Text("Sta".to_string()),
            DrawOp::MoveTo { x: 0, y: 1 },
            DrawOp::Reset,
            DrawOp::Text("<user>".to_string()),
        ]
    );
    assert_eq!(encode_with(&ops, ""), None);
    let ops = screen.redraw(0, 0);
    assert_eq!(ops[5], DrawOp::MoveTo { x: 0, y: 0 });
    assert_eq!(ops[8], DrawOp::MoveTo { x: 0, y: 0 });
    assert_eq!(ops[3], DrawOp::Text(String::new()));
}

#[test]
fn the_widest_and_highest_terminal() {
    let screen = with_lines(2);
    let ops = screen.redraw(u16::MAX, u16::MAX);
    assert_eq!(ops.len(), 15);
    assert_eq!(ops[5], DrawOp::MoveTo { x: 0, y: u16::MAX - 2 });
    assert_eq!(ops[7], DrawOp::MoveTo { x: 0, y: u16::MAX - 3 });
    assert_eq!(ops[9], DrawOp::MoveTo { x: 0, y: u16::MAX - 1 });
    assert_eq!(ops[12], DrawOp::MoveTo { x: 0, y: u16::MAX });
    match &ops[3] {
        DrawOp::Text(text) => assert_eq!(text.chars().count(), 65535),
        _ => panic!("the title bar is a text"),
    }
}
