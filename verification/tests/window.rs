use livesplit_one::channel::{NoReply, Responses};
use livesplit_one::protocol::{
    Command, CommandResult, Event, EventError, ProtocolError, Response, RunState, TimeSpan,
    TimingMethod, RESPONSE_CAPACITY, RESPONSE_EVENT,
};
use livesplit_one::sink::{Sent, TauriCommandSink};
use livesplit_one::timer::{
    read_state, receive, receive_state, timer_state, Answer, MalformedReply, Polling, Search,
    StateReading, TauriTimer, TimerState, POLLS,
};
use tokio::sync::mpsc;

fn sink() -> TauriCommandSink<char> {
    TauriCommandSink { window: Some('w') }
}

fn timer() -> TauriTimer<char> {
    TauriTimer { window: Some('w') }
}

fn command(sent: Sent<'_, char>) -> Command {
    assert_eq!(*sent.sending.emission.window, 'w');
    assert_eq!(sent.sending.emission.event, "command");
    assert_eq!(sent.answer, Ok(Event::Unknown));
    sent.sending.emission.payload
}

fn replies(texts: &[&str]) -> (mpsc::Sender<String>, Responses) {
    let (sender, receiver) = mpsc::channel::<String>(RESPONSE_CAPACITY);
    for text in texts {
        sender.try_send(text.to_string()).unwrap();
    }
    (sender, Responses::new(receiver))
}

fn not_answered() -> Answer {
    CommandResult::Error(ProtocolError::Timer { code: EventError::Unknown })
}

#[test]
fn window_comes_later() {
    assert_eq!(TauriCommandSink::<char>::new().window, None);
    assert_eq!(TauriTimer::<char>::new().window, None);
    assert_eq!(RESPONSE_EVENT, "response");
    assert_eq!(RESPONSE_CAPACITY, 16);
}

#[test]
fn sink_sends_each_action() {
    let sink = sink();
    assert!(matches!(command(sink.start()), Command::Start));
    assert!(matches!(command(sink.split()), Command::Split));
    assert!(matches!(command(sink.split_or_start()), Command::SplitOrStart));
    assert!(matches!(command(sink.undo_split()), Command::UndoSplit));
    assert!(matches!(command(sink.skip_split()), Command::SkipSplit));
    assert!(matches!(command(sink.toggle_pause_or_start()), Command::TogglePauseOrStart));
    assert!(matches!(command(sink.pause()), Command::Pause));
    assert!(matches!(command(sink.resume()), Command::Resume));
    assert!(matches!(command(sink.undo_all_pauses()), Command::UndoAllPauses));
    assert!(matches!(
        command(sink.switch_to_previous_comparison()),
        Command::SwitchToPreviousComparison
    ));
    assert!(matches!(command(sink.switch_to_next_comparison()), Command::SwitchToNextComparison));
    assert!(matches!(command(sink.toggle_timing_method()), Command::ToggleTimingMethod));
    assert!(matches!(command(sink.initialize_game_time()), Command::InitializeGameTime));
    assert!(matches!(command(sink.pause_game_time()), Command::PauseGameTime));
    assert!(matches!(command(sink.resume_game_time()), Command::ResumeGameTime));
}

#[test]
fn sink_sends_what_an_action_carries() {
    let sink = sink();
    let time = TimeSpan { seconds: -12, nanoseconds: -345 };
    for save in [None, Some(true), Some(false)] {
        assert!(matches!(
            command(sink.reset(save)),
            Command::Reset { save_attempt } if save_attempt == save
        ));
    }
    assert!(matches!(
        command(sink.set_current_comparison("Latest Run".to_string())),
        Command::SetCurrentComparison { comparison } if comparison == "Latest Run"
    ));
    for method in [TimingMethod::RealTime, TimingMethod::GameTime] {
        assert!(matches!(
            command(sink.set_current_timing_method(method)),
            Command::SetCurrentTimingMethod { timing_method } if timing_method == method
        ));
    }
    assert!(matches!(command(sink.set_game_time(time)), Command::SetGameTime { time: t } if t == time));
    assert!(matches!(
        command(sink.set_loading_times(time)),
        Command::SetLoadingTimes { time: t } if t == time
    ));
    assert!(matches!(
        command(sink.set_custom_variable("map".to_string(), "E1M1".to_string())),
        Command::SetCustomVariable { key, value } if key == "map" && value == "E1M1"
    ));
}

#[test]
fn timer_sends_each_command() {
    let timer = timer();
    let time = TimeSpan { seconds: 5, nanoseconds: 6 };
    assert_eq!(timer.start().emission.event, "command");
    assert_eq!(*timer.start().emission.window, 'w');
    assert!(matches!(timer.start().emission.payload, Command::Start));
    assert!(matches!(timer.split().emission.payload, Command::Split));
    assert!(matches!(timer.skip_split().emission.payload, Command::SkipSplit));
    assert!(matches!(timer.undo_split().emission.payload, Command::UndoSplit));
    assert!(matches!(timer.reset().emission.payload, Command::Reset { save_attempt: None }));
    assert!(matches!(
        timer.set_game_time(time).emission.payload,
        Command::SetGameTime { time: t } if t == time
    ));
    assert!(matches!(timer.pause_game_time().emission.payload, Command::PauseGameTime));
    assert!(matches!(timer.resume_game_time().emission.payload, Command::ResumeGameTime));
    assert!(matches!(
        timer.set_variable("map", "E1M1").emission.payload,
        Command::SetCustomVariable { key, value } if key == "map" && value == "E1M1"
    ));
}

#[test]
fn timer_asks_without_dropping_a_reply() {
    let timer = timer();
    assert_eq!(timer.state().event, "command");
    assert_eq!(*timer.state().window, 'w');
    assert!(matches!(timer.state().payload, Command::GetCurrentState));
    assert!(matches!(timer.send_receive(Command::Pause).payload, Command::Pause));
}

#[test]
fn sink_drops_the_oldest_reply() {
    let sink = sink();
    let (sender, mut responses) = replies(&["a", "b"]);
    assert_eq!(sink.split().sending.step.perform(&mut responses), Ok("a".to_string()));
    assert_eq!(responses.look(), Ok("b".to_string()));
    assert_eq!(sink.split().sending.step.perform(&mut responses), Err(NoReply::Empty));
    drop(sender);
    assert_eq!(sink.split().sending.step.perform(&mut responses), Err(NoReply::Disconnected));
}

#[test]
fn timer_drops_the_oldest_reply() {
    let timer = timer();
    let (sender, mut responses) = replies(&["a", "b"]);
    assert_eq!(timer.split().step.perform(&mut responses), Ok("a".to_string()));
    assert_eq!(responses.look(), Ok("b".to_string()));
    assert_eq!(timer.split().step.perform(&mut responses), Err(NoReply::Empty));
    drop(sender);
    assert_eq!(timer.split().step.perform(&mut responses), Err(NoReply::Disconnected));
}

#[test]
fn sink_and_timer_agree() {
    let (sink, timer) = (sink(), timer());
    let (sent, sending) = (sink.start(), timer.start());
    assert_eq!(sent.sending.emission.window, sending.emission.window);
    assert_eq!(sent.sending.emission.event, sending.emission.event);
    assert_eq!(
        format!("{:?}", sent.sending.emission.payload),
        format!("{:?}", sending.emission.payload)
    );
    let (_sender, mut one) = replies(&["a", "b", "c"]);
    let (_sender, mut other) = replies(&["a", "b", "c"]);
    assert_eq!(sent.sending.step.perform(&mut one), sending.step.perform(&mut other));
    assert_eq!(one.look(), other.look());
    assert_eq!(one.look(), Ok("c".to_string()));
}

#[test]
fn looks_are_told_as_results() {
    let (sender, mut responses) = replies(&["a"]);
    assert_eq!(format!("{:?}", responses.look()), "Ok(\"a\")");
    assert_eq!(format!("{:?}", responses.look()), "Err(Empty)");
    drop(sender);
    assert_eq!(format!("{:?}", responses.look()), "Err(Disconnected)");
}

#[test]
fn state_of_the_timer_by_the_answer() {
    let state = |state| CommandResult::Success(Response::State(state));
    assert_eq!(timer_state(&state(RunState::NotRunning)), TimerState::NotRunning);
    assert_eq!(timer_state(&state(RunState::Running)), TimerState::Running);
    assert_eq!(timer_state(&state(RunState::Paused)), TimerState::Paused);
    assert_eq!(timer_state(&state(RunState::Ended)), TimerState::Ended);
    assert_eq!(timer_state(&CommandResult::Success(Response::Other)), TimerState::NotRunning);
    assert_eq!(timer_state(&not_answered()), TimerState::NotRunning);
}

#[test]
fn answers_without_a_state_are_reported() {
    for state in [RunState::NotRunning, RunState::Running, RunState::Paused, RunState::Ended] {
        let answer = CommandResult::Success(Response::State(state));
        assert_eq!(read_state(answer).report, None);
    }
    assert_eq!(
        read_state(CommandResult::Success(Response::State(RunState::Running))).state,
        TimerState::Running
    );
    assert_eq!(
        read_state(CommandResult::Success(Response::Other)),
        StateReading {
            state: TimerState::NotRunning,
            report: Some(CommandResult::Success(Response::Other)),
        }
    );
    assert_eq!(
        read_state(not_answered()),
        StateReading { state: TimerState::NotRunning, report: Some(not_answered()) }
    );
}

#[test]
fn polling_gives_up_after_the_last_time() {
    let mut polling = Polling::new();
    for _ in 1..POLLS {
        assert_eq!(polling.poll(&Err(NoReply::Empty)), Ok(None));
    }
    assert_eq!(polling.poll(&Err(NoReply::Disconnected)), Ok(Some(not_answered())));
    assert_eq!(POLLS, 10000);
}

#[test]
fn polling_goes_on_after_null() {
    let mut polling = Polling::new();
    for text in ["null", " null", "null\n", "\t\r\n null \t"] {
        assert_eq!(polling.poll(&Ok(text.to_string())), Ok(None));
    }
    for _ in 5..POLLS {
        assert_eq!(polling.poll(&Ok("null".to_string())), Ok(None));
    }
    assert_eq!(polling.poll(&Ok("null".to_string())), Ok(Some(not_answered())));
}

#[test]
fn polling_refuses_all_but_null() {
    for text in ["", " ", "nul", "nulll", "null null", "NULL", "\"null\"", "{}", "[]", "()", "0", "\u{a0}null"] {
        let mut polling = Polling::new();
        assert_eq!(polling.poll(&Ok(text.to_string())), Err(MalformedReply));
    }
}

#[test]
fn attempt_takes_one_reply_and_hands_it_out() {
    let (_sender, mut responses) = replies(&["null", "{}", "null"]);
    let mut polling = Polling::new();
    let attempt = polling.attempt(&mut responses);
    assert_eq!(attempt.reply, Ok("null".to_string()));
    assert_eq!(attempt.over, Ok(None));
    let attempt = polling.attempt(&mut responses);
    assert_eq!(attempt.reply, Ok("{}".to_string()));
    assert_eq!(attempt.over, Err(MalformedReply));
    assert_eq!(responses.look(), Ok("null".to_string()));
}

#[test]
fn attempts_come_to_what_a_search_does() {
    let (_sender, mut responses) = replies(&["null", "null"]);
    let mut polling = Polling::new();
    let mut attempts = 0;
    let answer = loop {
        attempts += 1;
        if let Some(answer) = polling.attempt(&mut responses).over.unwrap() {
            break answer;
        }
    };
    assert_eq!(attempts, POLLS);
    let (_sender, mut responses) = replies(&["null", "null"]);
    assert_eq!(receive(&mut responses).outcome, Ok(answer));
}

#[test]
fn receive_hears_nothing_from_a_silent_window() {
    let (_sender, mut responses) = replies(&[]);
    assert_eq!(
        receive(&mut responses),
        Search { replies: Vec::new(), outcome: Ok(not_answered()) }
    );
    assert_eq!(
        receive_state(&mut responses).outcome,
        Ok(StateReading { state: TimerState::NotRunning, report: Some(not_answered()) })
    );
}

#[test]
fn receive_passes_over_null() {
    let (_sender, mut responses) = replies(&["null", " null "]);
    let search = receive(&mut responses);
    assert_eq!(search.outcome, Ok(not_answered()));
    assert_eq!(search.replies, vec!["null".to_string(), " null ".to_string()]);
    assert_eq!(responses.look(), Err(NoReply::Empty));
}

#[test]
fn receive_stops_at_a_malformed_reply() {
    let (sender, mut responses) = replies(&["null", "{\"success\":null}", "null"]);
    let search = receive(&mut responses);
    assert_eq!(search.outcome, Err(MalformedReply));
    assert_eq!(search.replies, vec!["null".to_string(), "{\"success\":null}".to_string()]);
    assert_eq!(responses.look(), Ok("null".to_string()));
    sender.try_send("1".to_string()).unwrap();
    let search = receive_state(&mut responses);
    assert_eq!(search.outcome, Err(MalformedReply));
    assert_eq!(search.replies, vec!["1".to_string()]);
}

#[test]
fn receive_takes_what_it_hands_out() {
    let (_sender, mut responses) = replies(&["null", " null", "x", "null", "y"]);
    let search = receive(&mut responses);
    assert_eq!(search.outcome, Err(MalformedReply));
    assert_eq!(search.replies, vec!["null".to_string(), " null".to_string(), "x".to_string()]);
    assert_eq!(responses.look(), Ok("null".to_string()));
    assert_eq!(responses.look(), Ok("y".to_string()));
    assert_eq!(responses.look(), Err(NoReply::Empty));
}
