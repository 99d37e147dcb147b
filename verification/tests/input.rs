use kernel::io::hid::{
    button_of_key, send_key, GameInput, GameInputButtonType, KeyEvent, KeyEventFlags,
    KeyReportRaw, KeyboardState,
};
use kernel::io::tty::{LineAction, LineEditor, NullTty, TtyError};

fn report(modifier: u8, keys: [u8; 6]) -> KeyReportRaw {
    let mut bytes = vec![modifier, 0];
    bytes.extend_from_slice(&keys);
    KeyReportRaw::from_bytes(&bytes)
}

#[test]
fn key_event_fields() {
    let e = KeyEvent::new(0x04, 0x02, KeyEventFlags(KeyEventFlags::BREAK));
    assert_eq!(e.0, 0x8002_0004);
    assert_eq!(e.usage(), 0x04);
    assert_eq!(e.modifier(), 0x02);
    assert!(e.is_break());
    assert!(!e.is_make());
    assert_eq!(e.key_data(), None);
    let m = KeyEvent::new(0x04, 0, KeyEventFlags::empty());
    assert_eq!(m.key_data(), Some(m));
    assert_eq!(KeyEvent::new(0xE1, 0, KeyEventFlags::empty()).key_data(), None);
}

#[test]
fn keyboard_report_differences() {
    let mut kb = KeyboardState::new();
    // left shift and 'a' pressed
    let events = kb.process_report(report(0x02, [0x04, 0, 0, 0, 0, 0]));
    assert_eq!(events, vec![KeyEvent(0xE1), KeyEvent(0x04)]);
    // 'a' held, 'b' pressed
    let events = kb.process_report(report(0x02, [0x04, 0x05, 0, 0, 0, 0]));
    assert_eq!(events, vec![KeyEvent(0x05)]);
    // everything released
    let events = kb.process_report(report(0, [0; 6]));
    assert_eq!(events, vec![KeyEvent(0x8000_00E1), KeyEvent(0x8000_0004), KeyEvent(0x8000_0005)]);
}

#[test]
fn roll_over_is_not_a_key() {
    let mut kb = KeyboardState::new();
    let events = kb.process_report(report(0, [0x01, 0x01, 0x01, 0x01, 0x01, 0x01]));
    assert!(events.is_empty());
}

#[test]
fn keys_drive_the_game_pad() {
    assert_eq!(button_of_key(0x52), Some(GameInputButtonType::DpadUp));
    assert_eq!(button_of_key(0x10), None);
    let mut input = GameInput::empty();
    send_key(&mut input, KeyEvent::new(0x52, 0, KeyEventFlags::empty()));
    send_key(&mut input, KeyEvent::new(0x1D, 0, KeyEventFlags::empty()));
    assert_eq!(input.buttons(), (1 << 0) | (1 << 12));
    send_key(&mut input, KeyEvent::new(0x52, 0, KeyEventFlags(KeyEventFlags::BREAK)));
    assert_eq!(input.buttons(), 1 << 12);
    send_key(&mut input, KeyEvent::new(0x10, 0, KeyEventFlags::empty()));
    assert_eq!(input.buttons(), 1 << 12);
}

#[test]
fn game_input_from_report() {
    let bytes = [0xAA, 0x12, 0x34, 1, 2, 3, 4, 5, 6, 7, 8, 9, 10, 0x55];
    let g = GameInput::from_bytes(&bytes, 1);
    assert_eq!(g.bitmap, 0x3412);
    assert_eq!(g.lt, 1);
    assert_eq!(g.rt, 2);
    assert_eq!(g.x1, 0x0403);
    assert_eq!(g.y2, 0x0A09);
    let mut copy = GameInput::empty();
    copy.copy_from(&g);
    assert_eq!(copy, g);
}

#[test]
fn line_editor_echo_and_erase() {
    let mut ed = LineEditor::new(4);
    assert_eq!(ed.step(Ok('h')), LineAction::Echo(vec!['h']));
    assert_eq!(ed.step(Ok('\x01')), LineAction::Echo(vec!['^', 'A']));
    assert_eq!(ed.line(), vec!['h', '\x01']);
    assert_eq!(ed.step(Ok('\x08')), LineAction::Echo(vec!['\x08', '\x08', ' ', ' ', '\x08', '\x08']));
    assert_eq!(ed.step(Ok('\x08')), LineAction::Echo(vec!['\x08', ' ', '\x08']));
    assert_eq!(ed.step(Ok('\x08')), LineAction::Echo(vec![]));
    assert_eq!(ed.line(), Vec::<char>::new());
}

#[test]
fn line_editor_limits_and_ends() {
    let mut ed = LineEditor::new(2);
    ed.step(Ok('a'));
    ed.step(Ok('b'));
    assert_eq!(ed.step(Ok('c')), LineAction::Echo(vec![]));
    assert_eq!(ed.step(Ok('é')), LineAction::Echo(vec![]));
    assert_eq!(ed.line(), vec!['a', 'b']);
    assert_eq!(ed.step(Ok('\r')), LineAction::Done(vec!['\r', '\n']));
    assert_eq!(ed.step(Ok('\x03')), LineAction::EndOfStream);
    assert_eq!(ed.step(Err(TtyError::EndOfStream)), LineAction::EndOfStream);
    assert_eq!(ed.step(Err(TtyError::NotReady)), LineAction::Echo(vec![]));
}

#[test]
fn null_tty() {
    let mut t = NullTty::new();
    assert_eq!(t.reset(), Ok(()));
    assert_eq!(t.dims(), (0, 0));
    assert_eq!(t.cursor_position(), (0, 0));
}
