use afri_mesh::app::{App, KeyInput, KeyKind};
use afri_mesh::ui::{cursor_at, cursor_position, screen, Colour};
use tokio::sync::mpsc::unbounded_channel;

fn header_of(app: &App) -> Vec<(String, bool)> {
    screen(app).header.iter().map(|h| (h.text.clone(), h.bold)).collect()
}

#[test]
fn header_in_command_mode() {
    let (tx, _rx) = unbounded_channel::<String>();
    let app = App::new("abc".to_string(), tx);
    let s = screen(&app);
    assert_eq!(
        header_of(&app),
        vec![
            ("Press ".to_string(), false),
            ("q".to_string(), true),
            (" to exit, ".to_string(), false),
            ("i".to_string(), true),
            (" to start typing.".to_string(), false),
        ]
    );
    assert!(s.header_blink);
    assert_eq!(s.header_colour, Colour::Cyan);
    assert_eq!(s.input_colour, Colour::Plain);
    assert_eq!(s.history_title, " Class Chat ");
    assert_eq!(s.peers_title, " Connected Students ");
    assert_eq!(s.input_title, " Input ");
    assert_eq!(
        (s.layout.header_rows, s.layout.body_min_rows, s.layout.input_rows),
        (3, 1, 3)
    );
    assert_eq!((s.layout.history_percent, s.layout.peers_percent), (70, 30));
    assert!(!s.cursor_visible);
    assert_eq!(s.title, " Rust Africa Mesh - Node: abc ");
}

#[test]
fn header_while_editing() {
    let (tx, _rx) = unbounded_channel::<String>();
    let mut app = App::new("abc".to_string(), tx);
    app.handle_key(KeyKind::Press, KeyInput::Char('i'));
    app.handle_key(KeyKind::Press, KeyInput::Char('z'));
    let s = screen(&app);
    assert_eq!(
        header_of(&app),
        vec![
            ("Press ".to_string(), false),
            ("Esc".to_string(), true),
            (" to stop editing, ".to_string(), false),
            ("Enter".to_string(), true),
            (" to send message.".to_string(), false),
        ]
    );
    assert!(!s.header_blink);
    assert_eq!(s.header_colour, Colour::Cyan);
    assert_eq!(s.input_colour, Colour::Yellow);
    assert!(s.cursor_visible);
    assert_eq!(s.input, "z");
}

#[test]
fn history_is_numbered() {
    let (tx, _rx) = unbounded_channel::<String>();
    let mut app = App::new("abc".to_string(), tx);
    for i in 0..12 {
        app.receive_message("p".to_string(), format!("m{}", i).as_bytes());
    }
    app.add_peer("p1".to_string());
    app.add_peer("p2".to_string());
    let s = screen(&app);
    assert_eq!(s.message_lines.len(), 12);
    assert_eq!(s.message_lines[0], "0: p: m0");
    assert_eq!(s.message_lines[11], "11: p: m11");
    assert_eq!(s.peer_lines, vec!["p1".to_string(), "p2".to_string()]);
}

#[test]
fn cursor_after_input() {
    assert_eq!(cursor_position(0, 0, ""), (1, 1));
    assert_eq!(cursor_position(0, 0, "é"), (2, 1));
    assert_eq!(cursor_position(4, 10, "héllo"), (10, 11));
    assert_eq!(cursor_position(0, 0, "日本"), (5, 1));
    let long = "a".repeat(65536 + 3);
    assert_eq!(cursor_position(2, 0, &long), (6, 1));
}

#[test]
fn cursor_that_does_not_fit() {
    assert_eq!(cursor_at(3, 4, "ab"), Some((6, 5)));
    assert_eq!(cursor_at(0, 7, "abc"), Some((4, 8)));
    assert_eq!(cursor_at(65535, 0, ""), None);
    assert_eq!(cursor_at(65534, 0, ""), Some((65535, 1)));
    assert_eq!(cursor_at(0, 65535, ""), None);
    assert_eq!(cursor_at(65533, 0, ""), Some((65534, 1)));
}
