use chat_tui::{
    decimal, message_label, scroll_offset, App, Key, KeyKind, Pane, CHAT_PERCENT, SIDE_PERCENT,
};

fn drive(app: &mut App, keys: &[Key]) -> usize {
    let mut read = 0;
    for key in keys {
        if !app.is_running() {
            break;
        }
        app.handle_key_event(*key, KeyKind::Press);
        read += 1;
    }
    read
}

#[test]
fn starts_empty() {
    let app = App::new();
    assert_eq!(app.counter(), 0);
    assert!(!app.exit());
    assert!(app.is_running());
    assert!(app.messages().is_empty());
    let d = App::default();
    assert_eq!(d.counter(), 0);
    assert!(d.messages().is_empty());
}

#[test]
fn scripted_session() {
    let mut app = App::new();
    let keys = [Key::Right, Key::Right, Key::Left, Key::Enter, Key::Enter, Key::Char('q')];
    let read = drive(&mut app, &keys);
    assert_eq!(read, 6);
    assert_eq!(app.counter(), 1);
    assert_eq!(
        app.messages(),
        &vec!["User: Message 1".to_string(), "User: Message 2".to_string()]
    );
    assert!(!app.is_running());
}

#[test]
fn left_at_zero_stays_zero() {
    let mut app = App::new();
    app.handle_key(Key::Left);
    assert_eq!(app.counter(), 0);
    app.handle_key(Key::Left);
    assert_eq!(app.counter(), 0);
}

#[test]
fn right_saturates_at_max() {
    let mut app = App::new();
    for _ in 0..300 {
        app.handle_key(Key::Right);
    }
    assert_eq!(app.counter(), u8::MAX);
    app.handle_key(Key::Left);
    assert_eq!(app.counter(), u8::MAX - 1);
}

#[test]
fn arrows_step_by_one() {
    let mut app = App::new();
    let mut expected: i32 = 0;
    let keys = [Key::Right, Key::Right, Key::Right, Key::Left, Key::Right, Key::Left, Key::Left];
    for key in keys {
        app.handle_key(key);
        expected = match key {
            Key::Left => (expected - 1).max(0),
            _ => (expected + 1).min(255),
        };
        assert_eq!(app.counter() as i32, expected);
        assert!(app.messages().is_empty());
        assert!(app.is_running());
    }
}

#[test]
fn enter_n_times_labels_in_order() {
    let mut app = App::new();
    for _ in 0..12 {
        app.handle_key(Key::Enter);
    }
    let msgs = app.messages();
    assert_eq!(msgs.len(), 12);
    for (i, m) in msgs.iter().enumerate() {
        assert_eq!(m, &format!("User: Message {}", i + 1));
    }
    assert_eq!(msgs[11], "User: Message 12");
}

#[test]
fn newline_char_counts_as_enter() {
    let mut app = App::new();
    app.handle_key(Key::Char('\n'));
    assert_eq!(app.messages(), &vec!["User: Message 1".to_string()]);
}

#[test]
fn existing_messages_kept() {
    let mut app = App::new();
    app.handle_key(Key::Enter);
    app.handle_key(Key::Right);
    app.handle_key(Key::Char('x'));
    app.handle_key(Key::Enter);
    assert_eq!(app.messages()[0], "User: Message 1");
    assert_eq!(app.messages()[1], "User: Message 2");
}

#[test]
fn quit_ignores_pending_keys() {
    let mut app = App::new();
    let keys = [Key::Right, Key::Char('Q'), Key::Enter, Key::Right, Key::Char('q')];
    let read = drive(&mut app, &keys);
    assert_eq!(read, 2);
    assert_eq!(app.counter(), 1);
    assert!(app.messages().is_empty());
    assert!(app.exit());
}

#[test]
fn lower_q_quits() {
    let mut app = App::new();
    app.handle_key(Key::Char('q'));
    assert!(!app.is_running());
    app.handle_key(Key::Left);
    assert!(app.exit());
}

#[test]
fn other_keys_do_nothing() {
    let mut app = App::new();
    app.handle_key(Key::Right);
    app.handle_key(Key::Enter);
    for key in [Key::Other, Key::Char('a'), Key::Char(' '), Key::Char('1')] {
        app.handle_key(key);
        assert_eq!(app.counter(), 1);
        assert!(app.is_running());
        assert_eq!(app.messages(), &vec!["User: Message 1".to_string()]);
    }
}

#[test]
fn only_presses_count() {
    let mut app = App::new();
    app.handle_key_event(Key::Right, KeyKind::Release);
    app.handle_key_event(Key::Enter, KeyKind::Repeat);
    app.handle_key_event(Key::Char('q'), KeyKind::Release);
    assert_eq!(app.counter(), 0);
    assert!(app.messages().is_empty());
    assert!(app.is_running());
    app.handle_key_event(Key::Right, KeyKind::Press);
    assert_eq!(app.counter(), 1);
}

#[test]
fn decimal_text() {
    assert_eq!(decimal(0), "0");
    assert_eq!(decimal(7), "7");
    assert_eq!(decimal(10), "10");
    assert_eq!(decimal(1203), "1203");
    assert_eq!(decimal(usize::MAX), usize::MAX.to_string());
    assert_eq!(message_label(42), "User: Message 42");
}

#[test]
fn scroll_offsets() {
    assert_eq!(scroll_offset(0, 10), 0);
    assert_eq!(scroll_offset(10, 10), 0);
    assert_eq!(scroll_offset(15, 10), 5);
    assert_eq!(scroll_offset(3, 0), 3);
}

#[test]
fn autoscroll_shows_newest() {
    let mut app = App::new();
    let area = Pane { x: 0, y: 0, width: 100, height: 10 };
    for n in 1..=25usize {
        app.handle_key(Key::Enter);
        let screen = app.screen(area);
        assert_eq!(screen.rows, 8);
        assert!(screen.lines.len() <= 8);
        assert_eq!(screen.lines.last().unwrap(), &format!("User: Message {}", n));
        assert_eq!(screen.scroll, n.saturating_sub(8));
    }
    let lines = app.visible_messages(8);
    assert_eq!(lines.len(), 8);
    assert_eq!(lines[0], "User: Message 18");
}

#[test]
fn few_messages_all_shown() {
    let mut app = App::new();
    app.handle_key(Key::Enter);
    app.handle_key(Key::Enter);
    let screen = app.screen(Pane { x: 0, y: 0, width: 80, height: 24 });
    assert_eq!(screen.scroll, 0);
    assert_eq!(screen.lines, vec!["User: Message 1".to_string(), "User: Message 2".to_string()]);
}

#[test]
fn columns_split_seventy_thirty() {
    assert_eq!(CHAT_PERCENT + SIDE_PERCENT, 100);
    let app = App::new();
    let screen = app.screen(Pane { x: 0, y: 0, width: 100, height: 20 });
    assert_eq!(screen.chat, Pane { x: 0, y: 0, width: 70, height: 20 });
    assert_eq!(screen.side, Pane { x: 70, y: 0, width: 30, height: 20 });
    assert_eq!(screen.rows, 18);
    assert!(screen.lines.is_empty());
}

#[test]
fn tiny_pane_has_no_rows() {
    let mut app = App::new();
    app.handle_key(Key::Enter);
    let screen = app.screen(Pane { x: 0, y: 0, width: 10, height: 1 });
    assert_eq!(screen.rows, 0);
    assert!(screen.lines.is_empty());
    assert_eq!(screen.scroll, 1);
}

#[test]
fn panes_span_frame_height() {
    let app = App::new();
    let screen = app.screen(Pane { x: 0, y: 0, width: 100, height: 10 });
    assert_eq!(screen.chat, Pane { x: 0, y: 0, width: 70, height: 10 });
    assert_eq!(screen.side, Pane { x: 70, y: 0, width: 30, height: 10 });
    let screen = app.screen(Pane { x: 3, y: 5, width: 41, height: 7 });
    assert_eq!((screen.chat.y, screen.chat.height), (5, 7));
    assert_eq!((screen.side.y, screen.side.height), (5, 7));
}

#[test]
fn enters_among_other_keys_are_numbered() {
    let mut app = App::new();
    let keys = [
        Key::Right, Key::Enter, Key::Char('x'), Key::Left, Key::Enter, Key::Other, Key::Enter,
        Key::Right,
    ];
    for key in keys {
        app.handle_key(key);
    }
    assert_eq!(
        app.messages(),
        &vec![
            "User: Message 1".to_string(),
            "User: Message 2".to_string(),
            "User: Message 3".to_string()
        ]
    );
}

#[test]
fn full_pane_slides_up_by_one() {
    let mut app = App::new();
    let area = Pane { x: 0, y: 0, width: 50, height: 6 };
    for _ in 0..4 {
        app.handle_key(Key::Enter);
    }
    let before = app.screen(area).lines;
    assert_eq!(before.len(), 4);
    app.handle_key(Key::Enter);
    let after = app.screen(area).lines;
    assert_eq!(after.len(), 4);
    assert_eq!(after[..3], before[1..]);
    assert_eq!(after[3], "User: Message 5");
}
