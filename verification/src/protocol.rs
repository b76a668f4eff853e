//! What the application and its window say to each other.

use vstd::prelude::*;

verus! {

/// The name of the event that carries a command to the window.
pub const COMMAND_EVENT: &'static str = "command";

/// The name of the event that carries a reply of the window.
pub const RESPONSE_EVENT: &'static str = "response";

/// How many replies wait to be read before further ones are dropped.
pub const RESPONSE_CAPACITY: usize = 16;

/// Which form of timing is used.
#[derive(Clone, Copy, Debug, PartialEq, Eq, Structural)]
pub enum TimingMethod {
    /// The unmodified timing.
    RealTime,
    /// The timing that the game provides.
    GameTime,
}

/// A span of time: whole seconds, and the nanoseconds beyond them.
#[derive(Clone, Copy, Debug, PartialEq, Eq, Structural)]
pub struct TimeSpan {
    pub seconds: i64,
    pub nanoseconds: i32,
}

/// A command to the timer that runs in the window.
#[derive(Debug)]
pub enum Command {
    Start,
    Split,
    SplitOrStart,
    Reset { save_attempt: Option<bool> },
    UndoSplit,
    SkipSplit,
    TogglePauseOrStart,
    Pause,
    Resume,
    UndoAllPauses,
    SwitchToPreviousComparison,
    SwitchToNextComparison,
    SetCurrentComparison { comparison: String },
    ToggleTimingMethod,
    SetCurrentTimingMethod { timing_method: TimingMethod },
    InitializeGameTime,
    SetGameTime { time: TimeSpan },
    PauseGameTime,
    ResumeGameTime,
    SetLoadingTimes { time: TimeSpan },
    SetCustomVariable { key: String, value: String },
    GetCurrentState,
}

/// What a command led to in the timer.
#[derive(Clone, Copy, Debug, PartialEq, Eq, Structural)]
pub enum Event {
    /// It is not known what the command led to.
    Unknown,
}

/// Why a command led to nothing in the timer.
#[derive(Clone, Copy, Debug, PartialEq, Eq, Structural)]
pub enum EventError {
    /// It is not known why.
    Unknown,
}

/// The state of the timer, as the window tells it.
#[derive(Clone, Copy, Debug, PartialEq, Eq, Structural)]
pub enum RunState {
    NotRunning,
    Running,
    Paused,
    Ended,
}

/// What a command was answered.
#[derive(Clone, Copy, Debug, PartialEq, Eq, Structural)]
pub enum Response {
    /// The state of the timer.
    State(RunState),
    /// Anything else.
    Other,
}

/// Why a command was not answered.
#[derive(Clone, Copy, Debug, PartialEq, Eq, Structural)]
pub enum ProtocolError {
    /// The timer refused the command.
    Timer { code: EventError },
}

/// What came of a command.
#[derive(Debug, PartialEq, Eq)]
pub enum CommandResult<T, E> {
    Success(T),
    Error(E),
}

/// An event to emit in a window.
#[derive(Debug)]
pub struct Emission<'a, W> {
    pub window: &'a W,
    pub event: &'static str,
    pub payload: Command,
}

} // verus!
