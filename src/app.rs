use vstd::prelude::*;
use vstd::utf8::encode_scalar;
use crate::codec::{hex_digit, lemma_render_hex, push_rendered, render};
use crate::cursor::{Cursor, NORMAL_GLYPH};
use crate::key::Key;
use crate::mode::{Control, Mode};

verus! {

/// What the device reported when it was polled for received bytes.
pub enum Incoming {
    /// The bytes that were available, read in full.
    Bytes(Vec<u8>),
    /// The device is gone.
    NoDevice,
}

impl Incoming {
    /// The received bytes, or `None` for a vanished device.
    pub open spec fn received(&self) -> Option<Seq<u8>> {
        match self {
            Incoming::Bytes(b) => Some(b@),
            Incoming::NoDevice => None,
        }
    }
}

/// What a key press or a tick asks of the host: whether to go on, and the
/// bytes to write to the device. A failed write ends the session.
pub struct Outcome {
    pub control: Control,
    pub transmit: Vec<u8>,
}

/// The state of a session as values.
pub struct Session {
    /// Echoed transmit text, without the trailing cursor glyph.
    pub tx_text: Seq<char>,
    pub tx_scroll: u16,
    /// Every byte received, in order.
    pub rx_buf: Seq<u8>,
    pub rx_out: Seq<char>,
    pub rx_scroll: u16,
    pub is_hex: bool,
    pub connected: bool,
    pub mode: Mode,
    pub cursor: Cursor,
}

pub open spec fn tab_echo() -> Seq<char> {
    seq![' ', ' ', ' ', ' ']
}

impl Session {
    /// The receive display is the rendering of the whole history, and the
    /// caret blinks exactly in insert mode.
    pub open spec fn wf(self) -> bool {
        &&& self.rx_out == render(self.rx_buf, self.is_hex)
        &&& (self.mode == Mode::Insert <==> self.cursor is Insert)
    }

    pub open spec fn initial() -> Session {
        Session {
            tx_text: Seq::empty(),
            tx_scroll: 0,
            rx_buf: Seq::empty(),
            rx_out: Seq::empty(),
            rx_scroll: 0,
            is_hex: false,
            connected: true,
            mode: Mode::Normal,
            cursor: Cursor::Normal,
        }
    }

    /// The transmit display: echoed text and the current glyph.
    pub open spec fn tx_out(self) -> Seq<char> {
        self.tx_text.push(self.cursor.glyph())
    }

    pub open spec fn toggled(self) -> Session {
        Session { is_hex: !self.is_hex, rx_out: render(self.rx_buf, !self.is_hex), ..self }
    }

    pub open spec fn entered_insert(self, now: u64) -> Session {
        Session { mode: Mode::Insert, cursor: Cursor::Insert { on: true, timer: 0, last: now }, ..self }
    }

    pub open spec fn left_insert(self) -> Session {
        Session { mode: Mode::Normal, cursor: Cursor::Normal, ..self }
    }

    pub open spec fn with_mode(self, mode: Mode) -> Session {
        Session { mode, ..self }
    }

    pub open spec fn echoed(self, text: Seq<char>) -> Session {
        Session { tx_text: self.tx_text + text, ..self }
    }

    /// Effect of one key press: the new state, the control signal and the
    /// bytes to transmit. A disconnected session transmits and echoes
    /// nothing.
    pub open spec fn on_key(self, key: Key, now: u64) -> (Session, Control, Seq<u8>) {
        match self.mode {
            Mode::Insert => match key {
                Key::Esc => (self.left_insert(), Control::Continue, seq![]),
                Key::Other => (self, Control::Continue, seq![]),
                _ => if !self.connected {
                    (self, Control::Continue, seq![])
                } else {
                    match key {
                        Key::Char(c) => (self.echoed(seq![c]), Control::Continue, encode_scalar(c as u32)),
                        Key::Tab => (self.echoed(tab_echo()), Control::Continue, seq![9u8]),
                        _ => (self.echoed(seq!['\n']), Control::Continue, seq![10u8]),
                    }
                },
            },
            Mode::Normal => match key {
                Key::Esc | Key::Char('q') => (self.with_mode(Mode::WannaQuit), Control::Continue, seq![]),
                Key::Char('i') => (self.entered_insert(now), Control::Continue, seq![]),
                Key::Char('h') => (self.toggled(), Control::Continue, seq![]),
                _ => (self, Control::Continue, seq![]),
            },
            Mode::WannaQuit => match key {
                Key::Esc | Key::Char('n') | Key::Char('q') => (self.with_mode(Mode::Normal), Control::Continue, seq![]),
                Key::Char('y') => (self, Control::Exit, seq![]),
                _ => (self, Control::Continue, seq![]),
            },
            Mode::Config => (self, Control::Continue, seq![]),
        }
    }

    /// Effect of a device poll: new bytes extend the history and their
    /// rendering extends the display; a vanished device clears the
    /// connectivity flag and nothing else.
    pub open spec fn on_receive(self, received: Option<Seq<u8>>) -> Session {
        match received {
            Some(b) => Session {
                rx_buf: self.rx_buf + b,
                rx_out: self.rx_out + render(b, self.is_hex),
                ..self
            },
            None => Session { connected: false, ..self },
        }
    }

    pub open spec fn on_clock(self, key_pressed: bool, now: u64) -> Session {
        Session { cursor: self.cursor.next(key_pressed, now), ..self }
    }

    /// One tick: the key press if any, then the device poll, then the clock.
    pub open spec fn tick(self, key: Option<Key>, received: Option<Seq<u8>>, now: u64) -> (Session, Control, Seq<u8>) {
        let (s, control, transmit) = match key {
            Some(k) => self.on_key(k, now),
            None => (self, Control::Continue, seq![]),
        };
        (s.on_receive(received).on_clock(key is Some, now), control, transmit)
    }
}

/// A serial terminal session. The device itself is the host's: the session
/// says what to write and is told what was read.
pub struct App {
    pub tx_text: Vec<char>,
    pub tx_scroll: u16,
    pub rx_buf: Vec<u8>,
    pub rx_out: Vec<char>,
    pub rx_scroll: u16,
    pub is_hex: bool,
    pub connected: bool,
    pub mode: Mode,
    pub cursor: Cursor,
}

impl View for App {
    type V = Session;

    open spec fn view(&self) -> Session {
        Session {
            tx_text: self.tx_text@,
            tx_scroll: self.tx_scroll,
            rx_buf: self.rx_buf@,
            rx_out: self.rx_out@,
            rx_scroll: self.rx_scroll,
            is_hex: self.is_hex,
            connected: self.connected,
            mode: self.mode,
            cursor: self.cursor,
        }
    }
}

/// Relies on char::encode_utf8: it writes the UTF-8 encoding of `c`.
#[verifier::external_body]
fn utf8_bytes(c: char) -> (r: Vec<u8>)
    ensures
        r@ == encode_scalar(c as u32),
{
    let mut buf = [0u8; 4];
    c.encode_utf8(&mut buf).as_bytes().to_vec()
}

impl App {
    pub fn new() -> (r: App)
        ensures
            r@ == Session::initial(),
            r@.wf(),
    {
        App {
            tx_text: Vec::new(),
            tx_scroll: 0,
            rx_buf: Vec::new(),
            rx_out: Vec::new(),
            rx_scroll: 0,
            is_hex: false,
            connected: true,
            mode: Mode::Normal,
            cursor: Cursor::Normal,
        }
    }

    /// The transmit display: echoed text and the current cursor glyph.
    pub fn tx_out(&self) -> (r: Vec<char>)
        ensures
            r@ == self@.tx_out(),
    {
        let mut r = self.tx_text.clone();
        r.push(self.cursor.cursor());
        r
    }

    /// Flips the encoding and renders the whole history again.
    pub fn switch_hex(&mut self)
        ensures
            final(self)@ == old(self)@.toggled(),
    {
        self.is_hex = !self.is_hex;
        self.rx_out.clear();
        push_rendered(&mut self.rx_out, self.rx_buf.as_slice(), self.is_hex);
        assert(self.rx_out@ =~= render(self.rx_buf@, self.is_hex));
    }

    pub fn enter_insert(&mut self, now: u64)
        ensures
            final(self)@ == old(self)@.entered_insert(now),
    {
        self.mode = Mode::Insert;
        self.cursor = Cursor::insert(now);
    }

    pub fn leave_insert(&mut self)
        ensures
            final(self)@ == old(self)@.left_insert(),
    {
        self.mode = Mode::Normal;
        self.cursor = Cursor::normal();
    }

    /// Echoes `c` and returns its UTF-8 bytes for the device.
    pub fn send_char(&mut self, c: char) -> (bytes: Vec<u8>)
        ensures
            bytes@ == encode_scalar(c as u32),
            final(self)@ == old(self)@.echoed(seq![c]),
    {
        let bytes = utf8_bytes(c);
        self.tx_push_char(c);
        bytes
    }

    /// Echoes `show` in place of `c` and returns the UTF-8 bytes of `c` for
    /// the device.
    pub fn send_char_but_show(&mut self, c: char, show: &str) -> (bytes: Vec<u8>)
        ensures
            bytes@ == encode_scalar(c as u32),
            final(self)@ == old(self)@.echoed(show@),
    {
        let bytes = utf8_bytes(c);
        self.tx_push_str(show);
        bytes
    }

    fn tx_push_char(&mut self, c: char)
        ensures
            final(self)@ == old(self)@.echoed(seq![c]),
    {
        self.tx_text.push(c);
        assert(self.tx_text@ =~= old(self).tx_text@ + seq![c]);
    }

    fn tx_push_str(&mut self, s: &str)
        ensures
            final(self)@ == old(self)@.echoed(s@),
    {
        let n = s.unicode_len();
        let mut i: usize = 0;
        while i < n
            invariant
                n == s@.len(),
                i <= n,
                self@ == old(self)@.echoed(s@.take(i as int)),
            decreases n - i,
        {
            self.tx_text.push(s.get_char(i));
            i = i + 1;
            assert(self.tx_text@ =~= old(self).tx_text@ + s@.take(i as int));
        }
        assert(s@.take(i as int) =~= s@);
    }

    /// Whether the host should poll the device this tick: only while it is
    /// connected. A vanished device is not polled again.
    pub fn wants_poll(&self) -> (r: bool)
        ensures
            r == self@.connected,
    {
        self.connected
    }

    /// Takes in what a device poll reported.
    pub fn get_data(&mut self, incoming: Incoming)
        ensures
            final(self)@ == old(self)@.on_receive(incoming.received()),
    {
        match incoming {
            Incoming::Bytes(b) => {
                self.rx_buf.extend_from_slice(b.as_slice());
                push_rendered(&mut self.rx_out, b.as_slice(), self.is_hex);
                assert(self.rx_buf@ =~= old(self).rx_buf@ + b@);
            },
            Incoming::NoDevice => {
                self.connected = false;
            },
        }
    }

    /// Advances the caret's blink timer to `now`.
    pub fn update_cursor(&mut self, key_pressed: bool, now: u64)
        ensures
            final(self)@ == old(self)@.on_clock(key_pressed, now),
    {
        self.cursor.update(key_pressed, now);
    }

    /// Interprets one key press against the current mode.
    pub fn handle_key(&mut self, key: Key, now: u64) -> (r: Outcome)
        ensures
            (final(self)@, r.control, r.transmit@) == old(self)@.on_key(key, now),
    {
        let none: Vec<u8> = Vec::new();
        match self.mode {
            Mode::Insert => match key {
                Key::Esc => self.leave_insert(),
                Key::Other => {},
                _ if !self.connected => {},
                Key::Char(c) => return Outcome { control: Control::Continue, transmit: self.send_char(c) },
                Key::Tab => {
                    let bytes = self.send_char_but_show('\t', "    ");
                    proof {
                        reveal_strlit("    ");
                        assert((9u32 & 0x7F) as u8 == 9u8) by (bit_vector);
                        assert(bytes@ =~= seq![9u8]);
                        assert("    "@ =~= tab_echo());
                    }
                    return Outcome { control: Control::Continue, transmit: bytes };
                },
                Key::Enter => {
                    let bytes = self.send_char('\n');
                    proof {
                        assert((10u32 & 0x7F) as u8 == 10u8) by (bit_vector);
                        assert(bytes@ =~= seq![10u8]);
                    }
                    return Outcome { control: Control::Continue, transmit: bytes };
                },
            },
            Mode::Normal => match key {
                Key::Esc | Key::Char('q') => self.mode = Mode::WannaQuit,
                Key::Char('i') => self.enter_insert(now),
                Key::Char('h') => self.switch_hex(),
                _ => {},
            },
            Mode::WannaQuit => match key {
                Key::Esc | Key::Char('n') | Key::Char('q') => self.mode = Mode::Normal,
                Key::Char('y') => return Outcome { control: Control::Exit, transmit: none },
                _ => {},
            },
            Mode::Config => {},
        }
        assert(none@ =~= seq![]);
        Outcome { control: Control::Continue, transmit: none }
    }

    /// One tick: the key press if any, then what the device poll reported,
    /// then the clock at `now`.
    pub fn update(&mut self, key: Option<Key>, incoming: Incoming, now: u64) -> (r: Outcome)
        requires
            old(self)@.wf(),
        ensures
            (final(self)@, r.control, r.transmit@) == old(self)@.tick(key, incoming.received(), now),
            final(self)@.wf(),
            !old(self)@.connected ==> r.transmit@.len() == 0 && !final(self)@.connected,
    {
        let r = match key {
            Some(k) => self.handle_key(k, now),
            None => {
                let none: Vec<u8> = Vec::new();
                assert(none@ =~= seq![]);
                Outcome { control: Control::Continue, transmit: none }
            },
        };
        proof {
            lemma_on_key_wf(old(self)@, key, now);
            lemma_disconnect(old(self)@, key, incoming.received(), now);
        }
        let ghost mid = self@;
        self.get_data(incoming);
        proof { lemma_receive_wf(mid, incoming.received()); }
        self.update_cursor(key.is_some(), now);
        r
    }
}

/// Bytes received in hex mode extend the receive display by two uppercase
/// hex digits and a space per byte, in arrival order.
pub proof fn lemma_hex_suffix(s: Session, bytes: Seq<u8>)
    requires
        s.is_hex,
    ensures
        ({
            let out = s.on_receive(Some(bytes)).rx_out;
            &&& out.len() == s.rx_out.len() + 3 * bytes.len()
            &&& out.subrange(0, s.rx_out.len() as int) == s.rx_out
            &&& forall|i: int|
                #![trigger bytes[i]]
                0 <= i < bytes.len() ==> out.subrange(
                    s.rx_out.len() + 3 * i,
                    s.rx_out.len() + 3 * i + 3,
                ) == seq![hex_digit(bytes[i] / 16), hex_digit(bytes[i] % 16), ' ']
        }),
        forall|n: u8|
            n < 16 ==> (('0' <= #[trigger] hex_digit(n) <= '9') || ('A' <= hex_digit(n) <= 'F')),
{
    lemma_render_hex(bytes);
    let out = s.on_receive(Some(bytes)).rx_out;
    let k = s.rx_out.len() as int;
    assert(out.subrange(0, k) =~= s.rx_out);
    assert forall|i: int| #![trigger bytes[i]] 0 <= i < bytes.len() implies out.subrange(
        k + 3 * i,
        k + 3 * i + 3,
    ) == seq![hex_digit(bytes[i] / 16), hex_digit(bytes[i] % 16), ' '] by {
        assert(out.subrange(k + 3 * i, k + 3 * i + 3) =~= render(bytes, true).subrange(3 * i, 3 * i + 3));
    }
}

/// Switching the encoding renders the display from the raw history, so
/// switching twice gives back the display exactly as it was.
pub proof fn lemma_switch_twice(s: Session)
    requires
        s.wf(),
    ensures
        s.toggled().wf(),
        s.toggled().rx_out == render(s.rx_buf, !s.is_hex),
        s.toggled().toggled() == s,
{
}

/// Outside insert mode the caret is the solid block, and time alone does
/// not change it.
pub proof fn lemma_normal_glyph(s: Session, key_pressed: bool, now: u64)
    requires
        s.wf(),
        s.mode == Mode::Normal,
    ensures
        s.cursor.glyph() == NORMAL_GLYPH,
        s.tx_out().last() == NORMAL_GLYPH,
        s.on_clock(key_pressed, now) == s,
{
}

/// From normal mode, `q` or Esc asks to quit and changes nothing else; when
/// asked, `y` exits and changes nothing, and `n`, `q` or Esc go back to
/// normal mode and change nothing else.
pub proof fn lemma_quit_keys(s: Session, key: Key, now: u64)
    ensures
        s.mode == Mode::Normal && (key == Key::Esc || key == Key::Char('q')) ==> s.on_key(key, now)
            == (s.with_mode(Mode::WannaQuit), Control::Continue, Seq::<u8>::empty()),
        s.mode == Mode::WannaQuit && key == Key::Char('y') ==> s.on_key(key, now) == (
            s,
            Control::Exit,
            Seq::<u8>::empty(),
        ),
        s.mode == Mode::WannaQuit && (key == Key::Esc || key == Key::Char('n') || key == Key::Char('q'))
            ==> s.on_key(key, now) == (s.with_mode(Mode::Normal), Control::Continue, Seq::<u8>::empty()),
{
}

/// Tab in insert mode, with the device connected, transmits one tab byte
/// and echoes four spaces before the glyph.
pub proof fn lemma_tab(s: Session, now: u64)
    requires
        s.mode == Mode::Insert,
        s.connected,
    ensures
        s.on_key(Key::Tab, now).2 == seq![9u8],
        s.on_key(Key::Tab, now).0.tx_out() == s.tx_text + seq![' ', ' ', ' ', ' '] + seq![s.cursor.glyph()],
        s.on_key(Key::Tab, now).0 == s.echoed(tab_echo()),
{
    assert(s.on_key(Key::Tab, now).0.tx_out() =~= s.tx_text + seq![' ', ' ', ' ', ' '] + seq![s.cursor.glyph()]);
}

/// A vanished device clears the connectivity flag and leaves the receive
/// side untouched. Once cleared, no tick sets it again, no tick asks for a
/// write to the device, and no tick changes the transmit text.
pub proof fn lemma_disconnect(s: Session, key: Option<Key>, received: Option<Seq<u8>>, now: u64)
    ensures
        !s.on_receive(None).connected,
        s.on_receive(None).rx_buf == s.rx_buf,
        s.on_receive(None).rx_out == s.rx_out,
        s.on_receive(None) == (Session { connected: false, ..s }),
        !s.connected ==> !s.tick(key, received, now).0.connected,
        !s.connected ==> s.tick(key, received, now).2.len() == 0,
        !s.connected ==> s.tick(key, received, now).0.tx_text == s.tx_text,
{
}

proof fn lemma_on_key_wf(s: Session, key: Option<Key>, now: u64)
    requires
        s.wf(),
    ensures
        key matches Some(k) ==> s.on_key(k, now).0.wf(),
{
}

proof fn lemma_receive_wf(s: Session, received: Option<Seq<u8>>)
    requires
        s.wf(),
    ensures
        s.on_receive(received).wf(),
{
    if let Some(b) = received {
        crate::codec::lemma_render_append(s.rx_buf, b, s.is_hex);
    }
}

} // verus!
