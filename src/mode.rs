use vstd::prelude::*;

verus! {

/// What the host loop does after a tick.
#[derive(Debug, Clone, Copy, PartialEq, Eq, Structural)]
pub enum Control {
    Continue,
    Exit,
}

impl Control {
    /// Whether the host loop should stop.
    pub fn exit(self) -> (r: bool)
        ensures
            r == (self == Control::Exit),
    {
        matches!(self, Control::Exit)
    }
}

/// The input mode of a session.
#[derive(Debug, Clone, Copy, PartialEq, Eq, Structural)]
pub enum Mode {
    Normal,
    Insert,
    /// Defined, but no key leads here.
    Config,
    WannaQuit,
}

impl Mode {
    pub fn insert(self) -> (r: bool)
        ensures
            r == (self == Mode::Insert),
    {
        matches!(self, Mode::Insert)
    }

    pub fn normal(self) -> (r: bool)
        ensures
            r == (self == Mode::Normal),
    {
        matches!(self, Mode::Normal)
    }

    pub fn config(self) -> (r: bool)
        ensures
            r == (self == Mode::Config),
    {
        matches!(self, Mode::Config)
    }

    pub fn wanna_quit(self) -> (r: bool)
        ensures
            r == (self == Mode::WannaQuit),
    {
        matches!(self, Mode::WannaQuit)
    }
}

} // verus!
