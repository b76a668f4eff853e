//! The hotkeys' way to the window: each action of a hotkey is sent as a command.

use vstd::prelude::*;

use crate::channel::{DropReply, Sending};
use crate::protocol::{
    Command, Emission, Event, EventError, TimeSpan, TimingMethod, COMMAND_EVENT,
};

verus! {

/// Sends the actions of the hotkeys to the window, once there is one.
#[derive(Debug)]
pub struct TauriCommandSink<W> {
    pub window: Option<W>,
}

/// What an action of a hotkey leads to: this command is to be sent, and then the action is
/// answered, whatever the window replies.
#[derive(Debug)]
pub struct Sent<'a, W> {
    pub sending: Sending<'a, W>,
    pub answer: Result<Event, EventError>,
}

impl<W> TauriCommandSink<W> {
    /// A sink without a window.
    pub fn new() -> (sink: Self)
        ensures
            sink.window is None,
    {
        TauriCommandSink { window: None }
    }

    /// Commands can be sent once there is a window.
    pub open spec fn can_send(&self) -> bool {
        self.window is Some
    }

    /// What it takes to send a command.
    pub open spec fn spec_send(&self, command: Command) -> Sent<'_, W>
        recommends
            self.can_send(),
    {
        Sent {
            sending: Sending {
                emission: Emission {
                    window: &self.window->0,
                    event: COMMAND_EVENT,
                    payload: command,
                },
                step: DropReply,
            },
            answer: Ok(Event::Unknown),
        }
    }

    /// Sends a command. What it leads to is not awaited.
    pub fn send(&self, command: Command) -> (sent: Sent<'_, W>)
        requires
            self.can_send(),
        ensures
            sent == self.spec_send(command),
    {
        let window = self.window.as_ref().unwrap();
        Sent {
            sending: Sending {
                emission: Emission { window, event: COMMAND_EVENT, payload: command },
                step: DropReply,
            },
            answer: Ok(Event::Unknown),
        }
    }

    pub fn start(&self) -> (sent: Sent<'_, W>)
        requires
            self.can_send(),
        ensures
            sent == self.spec_send(Command::Start),
    {
        self.send(Command::Start)
    }

    pub fn split(&self) -> (sent: Sent<'_, W>)
        requires
            self.can_send(),
        ensures
            sent == self.spec_send(Command::Split),
    {
        self.send(Command::Split)
    }

    pub fn split_or_start(&self) -> (sent: Sent<'_, W>)
        requires
            self.can_send(),
        ensures
            sent == self.spec_send(Command::SplitOrStart),
    {
        self.send(Command::SplitOrStart)
    }

    pub fn reset(&self, save_attempt: Option<bool>) -> (sent: Sent<'_, W>)
        requires
            self.can_send(),
        ensures
            sent == self.spec_send(Command::Reset { save_attempt }),
    {
        self.send(Command::Reset { save_attempt })
    }

    pub fn undo_split(&self) -> (sent: Sent<'_, W>)
        requires
            self.can_send(),
        ensures
            sent == self.spec_send(Command::UndoSplit),
    {
        self.send(Command::UndoSplit)
    }

    pub fn skip_split(&self) -> (sent: Sent<'_, W>)
        requires
            self.can_send(),
        ensures
            sent == self.spec_send(Command::SkipSplit),
    {
        self.send(Command::SkipSplit)
    }

    pub fn toggle_pause_or_start(&self) -> (sent: Sent<'_, W>)
        requires
            self.can_send(),
        ensures
            sent == self.spec_send(Command::TogglePauseOrStart),
    {
        self.send(Command::TogglePauseOrStart)
    }

    pub fn pause(&self) -> (sent: Sent<'_, W>)
        requires
            self.can_send(),
        ensures
            sent == self.spec_send(Command::Pause),
    {
        self.send(Command::Pause)
    }

    pub fn resume(&self) -> (sent: Sent<'_, W>)
        requires
            self.can_send(),
        ensures
            sent == self.spec_send(Command::Resume),
    {
        self.send(Command::Resume)
    }

    pub fn undo_all_pauses(&self) -> (sent: Sent<'_, W>)
        requires
            self.can_send(),
        ensures
            sent == self.spec_send(Command::UndoAllPauses),
    {
        self.send(Command::UndoAllPauses)
    }

    pub fn switch_to_previous_comparison(&self) -> (sent: Sent<'_, W>)
        requires
            self.can_send(),
        ensures
            sent == self.spec_send(Command::SwitchToPreviousComparison),
    {
        self.send(Command::SwitchToPreviousComparison)
    }

    pub fn switch_to_next_comparison(&self) -> (sent: Sent<'_, W>)
        requires
            self.can_send(),
        ensures
            sent == self.spec_send(Command::SwitchToNextComparison),
    {
        self.send(Command::SwitchToNextComparison)
    }

    pub fn set_current_comparison(&self, comparison: String) -> (sent: Sent<'_, W>)
        requires
            self.can_send(),
        ensures
            sent == self.spec_send(Command::SetCurrentComparison { comparison }),
    {
        self.send(Command::SetCurrentComparison { comparison })
    }

    pub fn toggle_timing_method(&self) -> (sent: Sent<'_, W>)
        requires
            self.can_send(),
        ensures
            sent == self.spec_send(Command::ToggleTimingMethod),
    {
        self.send(Command::ToggleTimingMethod)
    }

    pub fn set_current_timing_method(&self, method: TimingMethod) -> (sent: Sent<'_, W>)
        requires
            self.can_send(),
        ensures
            sent == self.spec_send(Command::SetCurrentTimingMethod { timing_method: method }),
    {
        self.send(Command::SetCurrentTimingMethod { timing_method: method })
    }

    pub fn initialize_game_time(&self) -> (sent: Sent<'_, W>)
        requires
            self.can_send(),
        ensures
            sent == self.spec_send(Command::InitializeGameTime),
    {
        self.send(Command::InitializeGameTime)
    }

    pub fn set_game_time(&self, time: TimeSpan) -> (sent: Sent<'_, W>)
        requires
            self.can_send(),
        ensures
            sent == self.spec_send(Command::SetGameTime { time }),
    {
        self.send(Command::SetGameTime { time })
    }

    pub fn pause_game_time(&self) -> (sent: Sent<'_, W>)
        requires
            self.can_send(),
        ensures
            sent == self.spec_send(Command::PauseGameTime),
    {
        self.send(Command::PauseGameTime)
    }

    pub fn resume_game_time(&self) -> (sent: Sent<'_, W>)
        requires
            self.can_send(),
        ensures
            sent == self.spec_send(Command::ResumeGameTime),
    {
        self.send(Command::ResumeGameTime)
    }

    pub fn set_loading_times(&self, time: TimeSpan) -> (sent: Sent<'_, W>)
        requires
            self.can_send(),
        ensures
            sent == self.spec_send(Command::SetLoadingTimes { time }),
    {
        self.send(Command::SetLoadingTimes { time })
    }

    pub fn set_custom_variable(&self, key: String, value: String) -> (sent: Sent<'_, W>)
        requires
            self.can_send(),
        ensures
            sent == self.spec_send(Command::SetCustomVariable { key, value }),
    {
        self.send(Command::SetCustomVariable { key, value })
    }
}

/// A sink starts without a window, and can send as soon as it has one.
pub proof fn lemma_new_sink<W>(new: TauriCommandSink<W>, sink: &TauriCommandSink<W>)
    requires
        call_ensures(TauriCommandSink::<W>::new, (), new),
    ensures
        new.window is None,
        sink.can_send() <==> sink.window is Some,
{
}

/// The event that a hotkey leads to goes to the window, is named `command`, and carries the
/// command that is sent, with everything in it. The action is answered at once.
pub proof fn lemma_sink_emits_the_command<'a, W>(
    sink: &'a TauriCommandSink<W>,
    command: Command,
    sent: Sent<'a, W>,
)
    requires
        sink.window is Some,
        call_ensures(TauriCommandSink::<W>::send, (sink, command), sent),
    ensures
        *sent.sending.emission.window == sink.window->0,
        sent.sending.emission.event@ == "command"@,
        sent.sending.emission.payload == command,
        sent.answer == Ok::<_, EventError>(Event::Unknown),
{
}

/// Each action of a hotkey that carries nothing sends the command of its name.
pub proof fn lemma_each_action_sends_its_command<'a, W>(sink: &'a TauriCommandSink<W>)
    requires
        sink.window is Some,
    ensures
        ({
            let sends = |sent: Sent<'a, W>, command: Command|
                {
                    &&& *sent.sending.emission.window == sink.window->0
                    &&& sent.sending.emission.event@ == "command"@
                    &&& sent.sending.emission.payload == command
                    &&& sent.answer == Ok::<_, EventError>(Event::Unknown)
                };
            &&& forall|sent: Sent<'a, W>| #[trigger]
                call_ensures(TauriCommandSink::<W>::start, (sink,), sent) ==> sends(
                    sent,
                    Command::Start,
                )
            &&& forall|sent: Sent<'a, W>| #[trigger]
                call_ensures(TauriCommandSink::<W>::split, (sink,), sent) ==> sends(
                    sent,
                    Command::Split,
                )
            &&& forall|sent: Sent<'a, W>| #[trigger]
                call_ensures(TauriCommandSink::<W>::split_or_start, (sink,), sent) ==> sends(
                    sent,
                    Command::SplitOrStart,
                )
            &&& forall|sent: Sent<'a, W>| #[trigger]
                call_ensures(TauriCommandSink::<W>::undo_split, (sink,), sent) ==> sends(
                    sent,
                    Command::UndoSplit,
                )
            &&& forall|sent: Sent<'a, W>| #[trigger]
                call_ensures(TauriCommandSink::<W>::skip_split, (sink,), sent) ==> sends(
                    sent,
                    Command::SkipSplit,
                )
            &&& forall|sent: Sent<'a, W>| #[trigger]
                call_ensures(TauriCommandSink::<W>::toggle_pause_or_start, (sink,), sent) ==> sends(
                    sent,
                    Command::TogglePauseOrStart,
                )
            &&& forall|sent: Sent<'a, W>| #[trigger]
                call_ensures(TauriCommandSink::<W>::pause, (sink,), sent) ==> sends(
                    sent,
                    Command::Pause,
                )
            &&& forall|sent: Sent<'a, W>| #[trigger]
                call_ensures(TauriCommandSink::<W>::resume, (sink,), sent) ==> sends(
                    sent,
                    Command::Resume,
                )
            &&& forall|sent: Sent<'a, W>| #[trigger]
                call_ensures(TauriCommandSink::<W>::undo_all_pauses, (sink,), sent) ==> sends(
                    sent,
                    Command::UndoAllPauses,
                )
            &&& forall|sent: Sent<'a, W>| #[trigger]
                call_ensures(TauriCommandSink::<W>::switch_to_previous_comparison, (sink,), sent) ==> sends(
                    sent,
                    Command::SwitchToPreviousComparison,
                )
            &&& forall|sent: Sent<'a, W>| #[trigger]
                call_ensures(TauriCommandSink::<W>::switch_to_next_comparison, (sink,), sent) ==> sends(
                    sent,
                    Command::SwitchToNextComparison,
                )
            &&& forall|sent: Sent<'a, W>| #[trigger]
                call_ensures(TauriCommandSink::<W>::toggle_timing_method, (sink,), sent) ==> sends(
                    sent,
                    Command::ToggleTimingMethod,
                )
            &&& forall|sent: Sent<'a, W>| #[trigger]
                call_ensures(TauriCommandSink::<W>::initialize_game_time, (sink,), sent) ==> sends(
                    sent,
                    Command::InitializeGameTime,
                )
            &&& forall|sent: Sent<'a, W>| #[trigger]
                call_ensures(TauriCommandSink::<W>::pause_game_time, (sink,), sent) ==> sends(
                    sent,
                    Command::PauseGameTime,
                )
            &&& forall|sent: Sent<'a, W>| #[trigger]
                call_ensures(TauriCommandSink::<W>::resume_game_time, (sink,), sent) ==> sends(
                    sent,
                    Command::ResumeGameTime,
                )
        }),
{
}

/// Each action of a hotkey that carries something sends the command of its name with exactly
/// that.
pub proof fn lemma_each_action_sends_what_it_carries<'a, W>(
    sink: &'a TauriCommandSink<W>,
    save_attempt: Option<bool>,
    method: TimingMethod,
    time: TimeSpan,
    first: String,
    second: String,
)
    requires
        sink.window is Some,
    ensures
        ({
            let sends = |sent: Sent<'a, W>, command: Command|
                {
                    &&& *sent.sending.emission.window == sink.window->0
                    &&& sent.sending.emission.event@ == "command"@
                    &&& sent.sending.emission.payload == command
                    &&& sent.answer == Ok::<_, EventError>(Event::Unknown)
                };
            &&& forall|sent: Sent<'a, W>| #[trigger]
                call_ensures(TauriCommandSink::<W>::reset, (sink, save_attempt), sent) ==> sends(
                    sent,
                    Command::Reset { save_attempt },
                )
            &&& forall|sent: Sent<'a, W>| #[trigger]
                call_ensures(TauriCommandSink::<W>::set_current_comparison, (sink, first), sent) ==> sends(
                    sent,
                    Command::SetCurrentComparison { comparison: first },
                )
            &&& forall|sent: Sent<'a, W>| #[trigger]
                call_ensures(TauriCommandSink::<W>::set_current_timing_method, (sink, method), sent) ==> sends(
                    sent,
                    Command::SetCurrentTimingMethod { timing_method: method },
                )
            &&& forall|sent: Sent<'a, W>| #[trigger]
                call_ensures(TauriCommandSink::<W>::set_game_time, (sink, time), sent) ==> sends(
                    sent,
                    Command::SetGameTime { time },
                )
            &&& forall|sent: Sent<'a, W>| #[trigger]
                call_ensures(TauriCommandSink::<W>::set_loading_times, (sink, time), sent) ==> sends(
                    sent,
                    Command::SetLoadingTimes { time },
                )
            &&& forall|sent: Sent<'a, W>| #[trigger]
                call_ensures(TauriCommandSink::<W>::set_custom_variable, (sink, first, second), sent) ==> sends(
                    sent,
                    Command::SetCustomVariable { key: first, value: second },
                )
        }),
{
}

} // verus!
