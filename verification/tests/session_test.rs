use afri_mesh::app::{App, InputMode, KeyInput, KeyKind};
use afri_mesh::error::AfriMeshError;
use tokio::sync::mpsc::{unbounded_channel, UnboundedReceiver};

fn session() -> (App, UnboundedReceiver<String>) {
    let (tx, rx) = unbounded_channel::<String>();
    (App::new("node-1".to_string(), tx), rx)
}

fn press(app: &mut App, code: KeyInput) -> Option<String> {
    app.handle_key(KeyKind::Press, code)
}

/// Hands a line given back by the session to its channel, as the node does.
fn deliver(app: &mut App, outgoing: Option<String>) {
    if let Some(msg) = outgoing {
        if app.tx.send(msg).is_err() {
            app.note_undelivered();
        }
    }
}

#[test]
fn new_session_is_empty() {
    let (app, _rx) = session();
    assert!(!app.should_quit);
    assert_eq!(app.input_mode, InputMode::Normal);
    assert_eq!(app.input_buffer, "");
    assert!(app.messages.is_empty());
    assert!(app.peers.is_empty());
    assert_eq!(app.my_id, "node-1");
}

#[test]
fn q_quits_in_command_mode() {
    let (mut app, _rx) = session();
    press(&mut app, KeyInput::Char('x'));
    assert!(!app.should_quit);
    press(&mut app, KeyInput::Char('q'));
    assert!(app.should_quit);
}

#[test]
fn q_is_typed_while_editing() {
    let (mut app, _rx) = session();
    press(&mut app, KeyInput::Char('i'));
    press(&mut app, KeyInput::Char('q'));
    assert!(!app.should_quit);
    assert_eq!(app.input_buffer, "q");
}

#[test]
fn typing_and_erasing() {
    let (mut app, _rx) = session();
    press(&mut app, KeyInput::Char('i'));
    assert_eq!(app.input_mode, InputMode::Editing);
    for c in "héllo".chars() {
        press(&mut app, KeyInput::Char(c));
    }
    assert_eq!(app.input_buffer, "héllo");
    press(&mut app, KeyInput::Backspace);
    assert_eq!(app.input_buffer, "héll");
    press(&mut app, KeyInput::Char('p'));
    press(&mut app, KeyInput::Backspace);
    assert_eq!(app.input_buffer, "héll");
}

#[test]
fn backspace_on_empty_input_does_nothing() {
    let (mut app, _rx) = session();
    press(&mut app, KeyInput::Char('i'));
    press(&mut app, KeyInput::Backspace);
    assert_eq!(app.input_buffer, "");
    assert_eq!(app.input_mode, InputMode::Editing);
}

#[test]
fn escape_keeps_the_input() {
    let (mut app, _rx) = session();
    press(&mut app, KeyInput::Char('i'));
    press(&mut app, KeyInput::Char('a'));
    press(&mut app, KeyInput::Esc);
    assert_eq!(app.input_mode, InputMode::Normal);
    assert_eq!(app.input_buffer, "a");
    press(&mut app, KeyInput::Char('i'));
    press(&mut app, KeyInput::Esc);
    assert_eq!(app.input_mode, InputMode::Normal);
    assert_eq!(app.input_buffer, "a");
}

#[test]
fn enter_sends_and_records() {
    let (mut app, mut rx) = session();
    press(&mut app, KeyInput::Char('i'));
    for c in "hello".chars() {
        press(&mut app, KeyInput::Char(c));
    }
    let out = press(&mut app, KeyInput::Enter);
    assert_eq!(out, Some("hello".to_string()));
    deliver(&mut app, out);
    assert_eq!(app.messages, vec!["Me: hello".to_string()]);
    assert_eq!(app.input_buffer, "");
    assert_eq!(app.input_mode, InputMode::Normal);
    assert_eq!(rx.try_recv().unwrap(), "hello");
}

#[test]
fn enter_with_network_gone_adds_notice() {
    let (mut app, rx) = session();
    drop(rx);
    press(&mut app, KeyInput::Char('i'));
    press(&mut app, KeyInput::Char('x'));
    let out = press(&mut app, KeyInput::Enter);
    deliver(&mut app, out);
    assert_eq!(
        app.messages,
        vec!["Me: x".to_string(), "SYSTEM ERROR: Network thread disconnected.".to_string()]
    );
    assert_eq!(app.input_buffer, "");
}

#[test]
fn enter_in_command_mode_does_nothing() {
    let (mut app, mut rx) = session();
    assert_eq!(press(&mut app, KeyInput::Enter), None);
    assert!(app.messages.is_empty());
    assert!(rx.try_recv().is_err());
}

#[test]
fn releases_and_repeats_are_ignored() {
    let (mut app, _rx) = session();
    app.handle_key(KeyKind::Release, KeyInput::Char('i'));
    app.handle_key(KeyKind::Repeat, KeyInput::Char('q'));
    assert_eq!(app.input_mode, InputMode::Normal);
    assert!(!app.should_quit);
}

#[test]
fn only_enter_while_editing_gives_a_line() {
    let (mut app, _rx) = session();
    assert_eq!(press(&mut app, KeyInput::Char('i')), None);
    assert_eq!(press(&mut app, KeyInput::Char('a')), None);
    assert_eq!(app.handle_key(KeyKind::Release, KeyInput::Enter), None);
    assert_eq!(press(&mut app, KeyInput::Enter), Some("a".to_string()));
    assert_eq!(press(&mut app, KeyInput::Enter), None);
    app.note_undelivered();
    assert_eq!(
        app.messages,
        vec!["Me: a".to_string(), "SYSTEM ERROR: Network thread disconnected.".to_string()]
    );
}

#[test]
fn peers_are_listed_once() {
    let (mut app, _rx) = session();
    app.add_peer("alice".to_string());
    app.add_peer("bob".to_string());
    app.add_peer("alice".to_string());
    assert_eq!(app.peers, vec!["alice".to_string(), "bob".to_string()]);
}

#[test]
fn received_messages_are_recorded() {
    let (mut app, _rx) = session();
    app.receive_message("peer-7".to_string(), "salut".as_bytes());
    app.receive_message("peer-8".to_string(), &[0x68, 0xff, 0x69]);
    assert_eq!(
        app.messages,
        vec!["peer-7: salut".to_string(), "peer-8: h\u{FFFD}i".to_string()]
    );
}

#[test]
fn on_tick_changes_nothing() {
    let (mut app, _rx) = session();
    app.add_peer("p".to_string());
    app.on_tick();
    assert_eq!(app.peers, vec!["p".to_string()]);
    assert!(app.messages.is_empty());
}

#[test]
fn errors_are_reported_in_history() {
    let (mut app, _rx) = session();
    app.report_publish_error(&AfriMeshError::ChannelClosed);
    app.report_subscribe_error(&AfriMeshError::Io(std::io::Error::new(
        std::io::ErrorKind::Other,
        "boom",
    )));
    assert_eq!(
        app.messages,
        vec![
            "SYSTEM ERROR: Message failed to send: Channel send error: UI disconnected from Network"
                .to_string(),
            "SYSTEM ERROR: Failed to join channel: IO Error: boom".to_string(),
        ]
    );
}
