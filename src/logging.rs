use vstd::prelude::*;

verus! {

/// Severity of a user-facing message.
#[derive(Clone, Copy, Debug, PartialEq, Eq, Structural)]
pub enum Level {
    Off,
    Error,
    Warn,
    Info,
    Debug,
    Trace,
}

/// A message together with the severity it is reported at.
#[derive(Clone, Debug)]
pub struct LoggerData {
    pub level: Level,
    pub data: String,
}

impl LoggerData {
    pub fn new(level: Level, data: &str) -> (r: Self)
        ensures
            r.level == level,
            r.data@ == data@,
    {
        LoggerData { level, data: data.to_owned() }
    }

    /// The level at which the message is emitted: none when the level is
    /// `Off`, and trace messages go out at info level.
    pub open spec fn emitted_level(&self) -> Option<Level> {
        match self.level {
            Level::Off => None,
            Level::Trace => Some(Level::Info),
            l => Some(l),
        }
    }

    /// The record to hand to the log sink, if any.
    pub fn logger(&self) -> (r: Option<(Level, String)>)
        ensures
            match self.emitted_level() {
                None => r is None,
                Some(l) => r matches Some(p) && p.0 == l && p.1@ == self.data@,
            },
    {
        let data = self.data.clone();
        match self.level {
            Level::Off => None,
            Level::Trace => Some((Level::Info, data)),
            l => Some((l, data)),
        }
    }
}

/// A value that knows how it is reported to the user.
pub trait Logger {
    fn get_logger(&self) -> LoggerData;

    fn logger(&self) -> Option<(Level, String)> {
        self.get_logger().logger()
    }
}

} // verus!
