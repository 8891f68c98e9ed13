use serial_tui::app::{App, Incoming};
use serial_tui::codec::{push_ascii, push_hex, push_rendered};
use serial_tui::cursor::{Cursor, BLINK_NANOS, INSERT_GLYPH, NORMAL_GLYPH};
use serial_tui::key::Key;
use serial_tui::mode::{Control, Mode};

fn text(v: &[char]) -> String {
    v.iter().collect()
}

fn app_with(bytes: &[u8]) -> App {
    let mut app = App::new();
    app.get_data(Incoming::Bytes(bytes.to_vec()));
    app
}

#[test]
fn hex_then_ascii_example() {
    let mut app = App::new();
    app.switch_hex();
    app.get_data(Incoming::Bytes(vec![0x41, 0x09]));
    assert_eq!(text(&app.rx_out), "41 09 ");
    app.switch_hex();
    assert_eq!(text(&app.rx_out), "A    ");
}

#[test]
fn hex_suffix_per_byte() {
    let mut app = app_with(b"ok");
    app.switch_hex();
    assert_eq!(text(&app.rx_out), "6F 6B ");
    app.get_data(Incoming::Bytes(vec![0x00, 0xAB, 0xFF, 0x0A]));
    assert_eq!(text(&app.rx_out), "6F 6B 00 AB FF 0A ");
    assert_eq!(app.rx_buf, vec![b'o', b'k', 0x00, 0xAB, 0xFF, 0x0A]);
}

#[test]
fn switch_twice_restores_ascii() {
    let mut app = app_with(b"hi\tthere\n");
    let before = app.rx_out.clone();
    assert_eq!(text(&before), "hi    there\n");
    app.switch_hex();
    assert!(app.is_hex);
    app.switch_hex();
    assert!(!app.is_hex);
    assert_eq!(app.rx_out, before);
}

#[test]
fn codec_pushes() {
    let mut s = Vec::new();
    push_hex(&mut s, 0x0F);
    push_hex(&mut s, 0xA0);
    assert_eq!(text(&s), "0F A0 ");
    let mut s = Vec::new();
    push_ascii(&mut s, b'z');
    push_ascii(&mut s, b'\t');
    assert_eq!(text(&s), "z    ");
    let mut s = Vec::new();
    push_rendered(&mut s, &[], true);
    assert!(s.is_empty());
}

#[test]
fn normal_glyph_ignores_time() {
    let mut c = Cursor::normal();
    assert_eq!(c.cursor(), NORMAL_GLYPH);
    c.update(false, 10 * BLINK_NANOS);
    assert_eq!(c, Cursor::Normal);
    assert_eq!(c.cursor(), NORMAL_GLYPH);
    let mut app = App::new();
    app.update(None, Incoming::Bytes(vec![]), 5 * BLINK_NANOS);
    assert_eq!(text(&app.tx_out()), NORMAL_GLYPH.to_string());
}

#[test]
fn insert_blink_timing() {
    let mut c = Cursor::insert(1_000);
    assert_eq!(c.cursor(), INSERT_GLYPH);
    c.update(false, 1_000 + BLINK_NANOS);
    assert_eq!(c.cursor(), INSERT_GLYPH);
    c.update(false, 1_000 + BLINK_NANOS + 1);
    assert_eq!(c.cursor(), ' ');
    assert_eq!(c, Cursor::Insert { on: false, timer: 1, last: 1_000 + BLINK_NANOS + 1 });
    c.update(true, 2 * BLINK_NANOS);
    assert_eq!(c.cursor(), INSERT_GLYPH);
    assert_eq!(c, Cursor::Insert { on: true, timer: 0, last: 2 * BLINK_NANOS });
}

#[test]
fn key_press_restarts_idle_clock() {
    let mut c = Cursor::insert(0);
    c.update(true, 400_000_000);
    c.update(false, 600_000_000);
    assert_eq!(c, Cursor::Insert { on: true, timer: 200_000_000, last: 600_000_000 });
    assert_eq!(c.cursor(), INSERT_GLYPH);
}

#[test]
fn blink_keeps_phase_over_long_gap() {
    let mut c = Cursor::insert(0);
    c.update(false, 1_200_000_000);
    assert_eq!(c, Cursor::Insert { on: false, timer: 700_000_000, last: 1_200_000_000 });
    c.update(false, 1_200_000_000);
    assert_eq!(c, Cursor::Insert { on: true, timer: 200_000_000, last: 1_200_000_000 });
}

#[test]
fn clock_going_back_adds_nothing() {
    let mut c = Cursor::insert(100);
    c.update(false, 50);
    assert_eq!(c, Cursor::Insert { on: true, timer: 0, last: 50 });
}

#[test]
fn quit_dialog() {
    let mut app = app_with(b"data");
    let before_rx = app.rx_out.clone();
    let r = app.update(Some(Key::Char('q')), Incoming::Bytes(vec![]), 0);
    assert_eq!(r.control, Control::Continue);
    assert!(app.mode.wanna_quit());
    assert_eq!(app.rx_out, before_rx);
    let r = app.update(Some(Key::Char('n')), Incoming::Bytes(vec![]), 0);
    assert_eq!(r.control, Control::Continue);
    assert!(app.mode.normal());
    app.update(Some(Key::Esc), Incoming::Bytes(vec![]), 0);
    assert_eq!(app.mode, Mode::WannaQuit);
    app.update(Some(Key::Esc), Incoming::Bytes(vec![]), 0);
    assert_eq!(app.mode, Mode::Normal);
    app.update(Some(Key::Esc), Incoming::Bytes(vec![]), 0);
    let r = app.update(Some(Key::Char('y')), Incoming::Bytes(vec![]), 0);
    assert!(r.control.exit());
    assert!(r.transmit.is_empty());
    assert_eq!(app.rx_out, before_rx);
    assert!(app.tx_text.is_empty());
}

#[test]
fn tab_sends_one_byte_and_shows_four_spaces() {
    let mut app = App::new();
    app.update(Some(Key::Char('i')), Incoming::Bytes(vec![]), 0);
    assert!(app.mode.insert());
    let r = app.update(Some(Key::Tab), Incoming::Bytes(vec![]), 0);
    assert_eq!(r.transmit, vec![9u8]);
    assert_eq!(text(&app.tx_out()), format!("    {}", INSERT_GLYPH));
}

#[test]
fn insert_chars_and_enter() {
    let mut app = App::new();
    app.handle_key(Key::Char('i'), 0);
    let r = app.handle_key(Key::Char('a'), 0);
    assert_eq!(r.transmit, vec![b'a']);
    let r = app.handle_key(Key::Char('\u{e9}'), 0);
    assert_eq!(r.transmit, vec![0xC3, 0xA9]);
    let r = app.handle_key(Key::Enter, 0);
    assert_eq!(r.transmit, vec![b'\n']);
    let r = app.handle_key(Key::Other, 0);
    assert!(r.transmit.is_empty());
    assert_eq!(text(&app.tx_text), "a\u{e9}\n");
    app.handle_key(Key::Esc, 0);
    assert!(app.mode.normal());
    assert_eq!(app.cursor, Cursor::Normal);
    assert_eq!(text(&app.tx_out()), format!("a\u{e9}\n{}", NORMAL_GLYPH));
}

#[test]
fn send_char_encodes_utf8() {
    let mut app = App::new();
    assert_eq!(app.send_char('\u{20AC}'), vec![0xE2, 0x82, 0xAC]);
    assert_eq!(app.send_char_but_show('\u{1F600}', "x"), vec![0xF0, 0x9F, 0x98, 0x80]);
    assert_eq!(text(&app.tx_text), "\u{20AC}x");
}

#[test]
fn disconnect_is_absorbed() {
    let mut app = app_with(b"ab");
    let r = app.update(None, Incoming::NoDevice, 0);
    assert_eq!(r.control, Control::Continue);
    assert!(!app.connected);
    assert_eq!(app.rx_buf, b"ab".to_vec());
    assert_eq!(text(&app.rx_out), "ab");
    app.update(None, Incoming::NoDevice, 1);
    assert!(!app.connected);
    app.update(None, Incoming::Bytes(vec![b'c']), 2);
    assert!(!app.connected);
    assert!(!app.wants_poll());
}

#[test]
fn disconnected_session_writes_nothing() {
    let mut app = App::new();
    assert!(app.wants_poll());
    app.update(Some(Key::Char('i')), Incoming::Bytes(vec![]), 0);
    app.update(Some(Key::Char('a')), Incoming::NoDevice, 0);
    assert_eq!(text(&app.tx_text), "a");
    for key in [Key::Char('b'), Key::Tab, Key::Enter] {
        let r = app.update(Some(key), Incoming::NoDevice, 1);
        assert!(r.transmit.is_empty());
        assert_eq!(r.control, Control::Continue);
    }
    assert_eq!(text(&app.tx_text), "a");
    app.update(Some(Key::Esc), Incoming::NoDevice, 2);
    assert!(app.mode.normal());
}

#[test]
fn normal_mode_other_keys_do_nothing() {
    let mut app = App::new();
    let r = app.update(Some(Key::Char('x')), Incoming::Bytes(vec![]), 0);
    assert_eq!(r.control, Control::Continue);
    assert!(app.mode.normal());
    assert!(!app.mode.config());
    assert!(app.tx_text.is_empty());
    app.update(Some(Key::Char('h')), Incoming::Bytes(vec![0x41]), 0);
    assert!(app.is_hex);
    assert_eq!(text(&app.rx_out), "41 ");
}

#[test]
fn enter_insert_resets_caret() {
    let mut app = App::new();
    app.enter_insert(7);
    assert_eq!(app.cursor, Cursor::Insert { on: true, timer: 0, last: 7 });
    app.leave_insert();
    assert_eq!(app.cursor, Cursor::Normal);
    assert_eq!(app.mode, Mode::Normal);
}

#[test]
fn config_mode_ignores_keys() {
    let mut app = App::new();
    app.mode = Mode::Config;
    assert!(app.mode.config());
    for key in [Key::Esc, Key::Char('q'), Key::Char('y'), Key::Tab] {
        let r = app.update(Some(key), Incoming::Bytes(vec![]), 0);
        assert!(!r.control.exit());
        assert!(r.transmit.is_empty());
        assert_eq!(app.mode, Mode::Config);
    }
    assert!(!Control::Continue.exit());
    assert!(Control::Exit.exit());
}
