use serial_term::app::{App, AppResults, AppStates, Event};
use serial_term::clock::ClockTime;
use serial_term::effects::Effect;
use serial_term::keys::{KeyCode, KeyEvent, KeyModifiers};
use serial_term::options::Timestamp;
use serial_term::status::STATUS_DELAY_TICKS;

fn key(c: char) -> KeyEvent {
    KeyEvent { code: KeyCode::Char(c), modifiers: KeyModifiers { shift: false, control: false, alt: false } }
}

fn prefix() -> KeyEvent {
    KeyEvent { code: KeyCode::Char('a'), modifiers: KeyModifiers { shift: false, control: true, alt: false } }
}

fn chars(s: &str) -> Vec<char> {
    s.chars().collect()
}

fn at(hour: u8, minute: u8, second: u8, millisecond: u16) -> ClockTime {
    ClockTime { hour, minute, second, millisecond }
}

fn session(is_tty: bool) -> App {
    let mut out = Vec::new();
    App::init(is_tty, "serial_term", "0.1.0", "/dev/ttyS0", &mut out)
}

fn command(app: &mut App, c: char) -> (AppResults, Vec<Effect>) {
    let now = at(0, 0, 0, 0);
    let mut out = Vec::new();
    assert_eq!(app.handle_key_event_at(prefix(), now, &mut out), AppResults::Continue);
    let mut out = Vec::new();
    let r = app.handle_key_event_at(key(c), now, &mut out);
    (r, out)
}

#[test]
fn startup_banner_on_a_terminal() {
    let mut out = Vec::new();
    let app = App::init(true, "serial_term", "0.1.0", "/dev/ttyS0", &mut out);
    assert_eq!(app.state(), AppStates::Receiving);
    assert_eq!(
        out,
        vec![
            Effect::ClearScreen,
            Effect::Print(chars(
                "Welcome to serial_term 0.1.0\r\n\r\nPort /dev/ttyS0\r\nPress CTRL-A Z for help on special keys\r\n\r\n"
            )),
        ]
    );
}

#[test]
fn startup_banner_without_a_terminal() {
    let mut out = Vec::new();
    App::init(false, "st", "1.2", "COM1", &mut out);
    assert_eq!(
        out,
        vec![Effect::Print(chars(
            "Welcome to st 1.2\r\n\r\nPort COM1\r\nTTY not detected, fancy menus are disabled (hint use CTRL-A Q to quit)\r\n\r\n"
        ))]
    );
}

#[test]
fn prefix_then_c_clears_the_screen() {
    let mut app = session(true);
    let mut out = Vec::new();
    app.handle_key_event_at(prefix(), at(0, 0, 0, 0), &mut out);
    assert_eq!(app.state(), AppStates::CatchKey);
    assert_eq!(out, vec![Effect::ShowStatus(chars("CTRL-A Z for help"))]);
    let mut out = Vec::new();
    let r = app.handle_key_event_at(key('c'), at(0, 0, 0, 0), &mut out);
    assert_eq!(r, AppResults::Continue);
    assert_eq!(out, vec![Effect::ClearScreen, Effect::HideStatus]);
    assert_eq!(app.state(), AppStates::Receiving);
}

#[test]
fn prefix_twice_sends_one_control_a() {
    let mut app = session(true);
    let before = app.options();
    let mut sent = Vec::new();
    let mut out = Vec::new();
    app.handle_key_event_at(prefix(), at(0, 0, 0, 0), &mut out);
    app.handle_key_event_at(prefix(), at(0, 0, 0, 0), &mut out);
    for e in &out {
        if let Effect::Send(b) = e {
            sent.extend_from_slice(b);
        }
    }
    assert_eq!(sent, vec![0x01]);
    assert_eq!(app.state(), AppStates::Receiving);
    assert_eq!(app.options(), before);
    assert!(!out.contains(&Effect::ClearScreen));
    assert!(!out.contains(&Effect::DrawHelp));
}

#[test]
fn keys_go_to_the_remote_device() {
    let mut app = session(true);
    let mut out = Vec::new();
    app.handle_key_event_at(key('h'), at(0, 0, 0, 0), &mut out);
    let enter = KeyEvent { code: KeyCode::Enter, modifiers: KeyModifiers { shift: false, control: false, alt: false } };
    app.handle_key_event_at(enter, at(0, 0, 0, 0), &mut out);
    let caps = KeyEvent { code: KeyCode::CapsLock, modifiers: KeyModifiers { shift: false, control: false, alt: false } };
    app.handle_key_event_at(caps, at(0, 0, 0, 0), &mut out);
    assert_eq!(out, vec![Effect::Send(vec![b'h']), Effect::Send(vec![0x0d])]);
}

#[test]
fn enter_gets_a_line_feed_when_inserting_line_feeds() {
    let mut app = session(true);
    let (_, out) = command(&mut app, 'a');
    assert_eq!(out, vec![Effect::ShowStatus(chars("Insert line feed is On"))]);
    assert!(app.options().add_line_feed);
    let enter = KeyEvent { code: KeyCode::Enter, modifiers: KeyModifiers { shift: false, control: false, alt: false } };
    let mut out = Vec::new();
    app.handle_key_event_at(enter, at(0, 0, 0, 0), &mut out);
    assert_eq!(out, vec![Effect::Send(vec![0x0d]), Effect::Send(vec![0x0a])]);
}

#[test]
fn local_echo_shows_what_is_sent() {
    let mut app = session(true);
    let (_, out) = command(&mut app, 'e');
    assert_eq!(out, vec![Effect::ShowStatus(chars("Local echo is On"))]);
    let mut out = Vec::new();
    app.handle_key_event_at(key('k'), at(0, 0, 0, 0), &mut out);
    assert_eq!(out, vec![Effect::Send(vec![b'k']), Effect::Print(chars("k"))]);
}

#[test]
fn local_echo_decodes_lossily() {
    let mut app = session(true);
    command(&mut app, 'e');
    let mut out = Vec::new();
    app.handle_key_event_at(key('é'), at(0, 0, 0, 0), &mut out);
    assert_eq!(out, vec![Effect::Send(vec![0xe9]), Effect::Print(vec!['\u{fffd}'])]);
}

#[test]
fn other_keys_after_the_prefix_are_dropped() {
    let mut app = session(true);
    let (r, out) = command(&mut app, 'b');
    assert_eq!(r, AppResults::Continue);
    assert_eq!(out, vec![Effect::HideStatus]);
    assert_eq!(app.state(), AppStates::Receiving);
    let mut out = Vec::new();
    app.handle_key_event_at(prefix(), at(0, 0, 0, 0), &mut out);
    let enter = KeyEvent { code: KeyCode::Enter, modifiers: KeyModifiers { shift: false, control: false, alt: false } };
    let mut out = Vec::new();
    app.handle_key_event_at(enter, at(0, 0, 0, 0), &mut out);
    assert_eq!(out, vec![Effect::HideStatus]);
    assert_eq!(app.state(), AppStates::Receiving);
}

#[test]
fn quit_and_exit_end_the_session() {
    let mut app = session(true);
    assert_eq!(command(&mut app, 'q').0, AppResults::Quit);
    assert_eq!(command(&mut app, 'x').0, AppResults::Quit);
}

#[test]
fn timestamp_command_cycles_the_mode() {
    let mut app = session(true);
    let (_, out) = command(&mut app, 'n');
    assert_eq!(out, vec![Effect::ShowStatus(chars("Timestamp Simple"))]);
    assert_eq!(app.options().timestamp, Timestamp::Simple);
    let (_, out) = command(&mut app, 'n');
    assert_eq!(out, vec![Effect::ShowStatus(chars("Timestamp Extended"))]);
    let (_, out) = command(&mut app, 'n');
    assert_eq!(out, vec![Effect::ShowStatus(chars("Timestamp Off"))]);
    assert_eq!(app.options().timestamp, Timestamp::Off);
}

#[test]
fn toggling_twice_restores_option_and_status() {
    let mut app = session(true);
    let start = app.options();
    let (_, first) = command(&mut app, 'u');
    let (_, second) = command(&mut app, 'u');
    let (_, third) = command(&mut app, 'u');
    assert_eq!(first, third);
    assert_ne!(first, second);
    command(&mut app, 'u');
    assert_eq!(app.options(), start);
}

#[test]
fn help_opens_and_any_key_closes_it() {
    let mut app = session(true);
    let (_, out) = command(&mut app, 'z');
    assert_eq!(out, vec![Effect::EnterAlternateScreen, Effect::DrawHelp, Effect::HideStatus]);
    assert_eq!(app.state(), AppStates::MenuActive);
    let mut out = Vec::new();
    app.handle_key_event_at(key('q'), at(0, 0, 0, 0), &mut out);
    assert_eq!(out, vec![Effect::LeaveAlternateScreen]);
    assert_eq!(app.state(), AppStates::Receiving);
}

#[test]
fn help_needs_a_terminal() {
    let mut app = session(false);
    let (_, out) = command(&mut app, 'z');
    assert_eq!(out, vec![Effect::HideStatus]);
    assert_eq!(app.state(), AppStates::Receiving);
}

#[test]
fn status_hides_after_its_delay() {
    let mut app = session(true);
    command(&mut app, 'e');
    assert!(app.status_visible());
    for _ in 0..STATUS_DELAY_TICKS - 1 {
        let mut out = Vec::new();
        app.tick(&mut out);
        assert!(out.is_empty());
    }
    assert!(app.status_visible());
    let mut out = Vec::new();
    app.tick(&mut out);
    assert_eq!(out, vec![Effect::HideStatus]);
    assert!(!app.status_visible());
    let mut out = Vec::new();
    app.tick(&mut out);
    assert!(out.is_empty());
    assert_eq!(STATUS_DELAY_TICKS, 30);
}

#[test]
fn a_new_status_replaces_the_old_one() {
    let mut app = session(true);
    command(&mut app, 'e');
    for _ in 0..20 {
        app.tick(&mut Vec::new());
    }
    command(&mut app, 'a');
    for _ in 0..29 {
        let mut out = Vec::new();
        app.tick(&mut out);
        assert!(out.is_empty());
    }
    assert!(app.status_visible());
}

#[test]
fn events_are_dispatched() {
    let mut app = session(true);
    let mut out = Vec::new();
    assert_eq!(app.handle_event(Event::Terminate, &mut out), AppResults::Quit);
    assert!(out.is_empty());
    assert_eq!(app.handle_event(Event::Tick, &mut out), AppResults::Continue);
    assert!(out.is_empty());
    assert_eq!(app.handle_event(Event::Key(key('w')), &mut out), AppResults::Continue);
    assert_eq!(out, vec![Effect::Send(vec![b'w'])]);
    let mut out = Vec::new();
    assert_eq!(app.handle_event(Event::Serial(b"ok\n".to_vec()), &mut out), AppResults::Continue);
    assert_eq!(out, vec![Effect::Print(chars("ok\n"))]);
    app.handle_event(Event::Key(prefix()), &mut out);
    assert_eq!(app.handle_event(Event::Key(key('x')), &mut out), AppResults::Quit);
}

#[test]
fn cleanup_leaves_the_menu_and_ends_the_line() {
    let mut app = session(true);
    command(&mut app, 'z');
    app.print_incoming(chars("late"), at(1, 2, 3, 4), &mut Vec::new());
    let mut out = Vec::new();
    app.cleanup(&mut out);
    assert_eq!(
        out,
        vec![
            Effect::LeaveAlternateScreen,
            Effect::Print(chars("late")),
            Effect::CursorToLastRow,
            Effect::Print(chars("\r\n")),
        ]
    );
    assert_eq!(app.state(), AppStates::Receiving);
    let mut plain = session(false);
    let mut out = Vec::new();
    plain.cleanup(&mut out);
    assert_eq!(out, vec![Effect::Print(chars("\r\n"))]);
}
