use vstd::prelude::*;

verus! {

/// Blink interval, in nanoseconds.
pub const BLINK_NANOS: u64 = 500_000_000;

/// Solid block, shown in every mode but insert.
pub const NORMAL_GLYPH: char = '\u{2589}';

/// Thin bar, shown in insert mode while the caret is visible.
pub const INSERT_GLYPH: char = '\u{258E}';

/// Blink state of the caret. Times are nanoseconds on a clock chosen by the
/// caller.
#[derive(Debug, Clone, Copy, PartialEq, Eq, Structural)]
pub enum Cursor {
    Normal,
    Insert { on: bool, timer: u64, last: u64 },
}

/// Time from `last` to `now`, zero if the clock went backwards.
pub open spec fn elapsed(last: u64, now: u64) -> u64 {
    if now >= last {
        (now - last) as u64
    } else {
        0
    }
}

/// `a + b`, capped at the largest `u64`.
pub open spec fn sat_add(a: u64, b: u64) -> u64 {
    if a + b > u64::MAX {
        u64::MAX
    } else {
        (a + b) as u64
    }
}

impl Cursor {
    /// The glyph that stands for this state.
    pub open spec fn glyph(self) -> char {
        match self {
            Cursor::Normal => NORMAL_GLYPH,
            Cursor::Insert { on, .. } => if on {
                INSERT_GLYPH
            } else {
                ' '
            },
        }
    }

    /// The state after a tick at time `now`. A key press makes the caret
    /// visible, zeroes the idle time and restarts the idle clock; otherwise the idle time grows by the
    /// elapsed time, and past the interval the caret flips and the interval
    /// is taken off.
    pub open spec fn next(self, key_pressed: bool, now: u64) -> Cursor {
        match self {
            Cursor::Normal => Cursor::Normal,
            Cursor::Insert { on, timer, last } => if key_pressed {
                Cursor::Insert { on: true, timer: 0, last: now }
            } else {
                let t = sat_add(timer, elapsed(last, now));
                if t > BLINK_NANOS {
                    Cursor::Insert { on: !on, timer: (t - BLINK_NANOS) as u64, last: now }
                } else {
                    Cursor::Insert { on, timer: t, last: now }
                }
            },
        }
    }

    pub open spec fn insert_spec(now: u64) -> Cursor {
        Cursor::Insert { on: true, timer: 0, last: now }
    }

    pub fn normal() -> (r: Cursor)
        ensures
            r == Cursor::Normal,
    {
        Cursor::Normal
    }

    /// A visible insert caret with no idle time, started at `now`.
    pub fn insert(now: u64) -> (r: Cursor)
        ensures
            r == Cursor::insert_spec(now),
    {
        Cursor::Insert { on: true, timer: 0, last: now }
    }

    pub fn update(&mut self, key_pressed: bool, now: u64)
        ensures
            *final(self) == old(self).next(key_pressed, now),
    {
        match *self {
            Cursor::Normal => {},
            Cursor::Insert { on, timer, last } => {
                if key_pressed {
                    *self = Cursor::Insert { on: true, timer: 0, last: now };
                } else {
                    let gap: u64 = if now >= last {
                        now - last
                    } else {
                        0
                    };
                    let t = timer.saturating_add(gap);
                    if t > BLINK_NANOS {
                        *self = Cursor::Insert { on: !on, timer: t - BLINK_NANOS, last: now };
                    } else {
                        *self = Cursor::Insert { on, timer: t, last: now };
                    }
                }
            },
        }
    }

    pub fn cursor(&self) -> (c: char)
        ensures
            c == self.glyph(),
    {
        match *self {
            Cursor::Normal => NORMAL_GLYPH,
            Cursor::Insert { on: true, .. } => INSERT_GLYPH,
            Cursor::Insert { on: false, .. } => ' ',
        }
    }
}

/// A fresh insert caret is visible. A key press makes any insert caret
/// visible, zeroes its idle time and restarts its idle clock. A tick without
/// a key press adds the time since the previous tick to the idle time; the
/// caret flips exactly once when that passes the interval, and the interval
/// is subtracted, not reset. Otherwise the caret stays as it was.
pub proof fn lemma_blink(now: u64, c: Cursor, key_pressed: bool, later: u64)
    ensures
        Cursor::insert_spec(now).glyph() == INSERT_GLYPH,
        c is Insert && key_pressed ==> c.next(key_pressed, later) == (Cursor::Insert {
            on: true,
            timer: 0,
            last: later,
        }),
        c is Insert && !key_pressed ==> ({
            let t = sat_add(c->timer, elapsed(c->last, later));
            let n = c.next(key_pressed, later);
            &&& n is Insert
            &&& t > BLINK_NANOS ==> n->on == !c->on && n->timer == t - BLINK_NANOS
            &&& t <= BLINK_NANOS ==> n->on == c->on && n->timer == t
            &&& n->last == later
        }),
        c is Insert && !key_pressed && c->last <= later && c->timer + (later - c->last) <= u64::MAX
            ==> ({
            let d = later - c->last;
            let n = c.next(key_pressed, later);
            &&& c->timer + d > BLINK_NANOS ==> n == (Cursor::Insert {
                on: !c->on,
                timer: (c->timer + d - BLINK_NANOS) as u64,
                last: (c->last + d) as u64,
            })
            &&& c->timer + d <= BLINK_NANOS ==> n == (Cursor::Insert {
                on: c->on,
                timer: (c->timer + d) as u64,
                last: (c->last + d) as u64,
            })
        }),
{
}

} // verus!
