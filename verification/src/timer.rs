//! The auto splitter's way to the window, and the window's replies to it.

use vstd::prelude::*;

use crate::channel::{
    heard, lemma_heard_adds, lemma_heard_at_most_once_a_look, lemma_look_takes_the_oldest,
    DropReply, Looked, NoReply, Responses, Sending,
};
use crate::protocol::{
    Command, CommandResult, Emission, EventError, ProtocolError, Response, RunState, TimeSpan,
    COMMAND_EVENT,
};
use crate::sink::TauriCommandSink;

verus! {

/// How often a reply is looked for before the command counts as not answered.
pub const POLLS: u32 = 10000;

/// The timer that the auto splitter controls. It runs in the window, once there is one.
#[derive(Debug)]
pub struct TauriTimer<W> {
    pub window: Option<W>,
}

/// The state of the timer, as the auto splitter sees it.
#[derive(Clone, Copy, Debug, PartialEq, Eq, Structural)]
pub enum TimerState {
    NotRunning,
    Running,
    Paused,
    Ended,
}

/// A reply of the window that is not the JSON value `null`.
#[derive(Clone, Copy, Debug, PartialEq, Eq, Structural)]
pub struct MalformedReply;

/// How many more times a reply is looked for.
#[derive(Debug)]
pub struct Polling {
    left: u32,
}

/// One look for a reply: what was found, and whether the search is over.
#[derive(Debug)]
pub struct Attempt {
    pub reply: Result<String, NoReply>,
    pub over: Result<Option<Answer>, MalformedReply>,
}

/// A whole search for the answer to a command.
#[derive(Debug, PartialEq, Eq)]
pub struct Search<T> {
    /// The replies that were found, each of which the log tells of.
    pub replies: Vec<String>,
    /// What came of it. Unless a reply was malformed, the log tells that the command was not
    /// answered.
    pub outcome: Result<T, MalformedReply>,
}

/// What an answer to the question for the state of the timer comes to.
#[derive(Debug, PartialEq, Eq)]
pub struct StateReading {
    pub state: TimerState,
    /// The answer, where it tells no state: it is to be reported as an error.
    pub report: Option<Answer>,
}

/// What came of a command to the window.
pub type Answer = CommandResult<Response, ProtocolError>;

/// The answer to a command where the window is not heard of.
pub open spec fn no_answer() -> Answer {
    CommandResult::Error(ProtocolError::Timer { code: EventError::Unknown })
}

/// A character that JSON allows around a value.
pub open spec fn is_json_space(c: char) -> bool {
    c == ' ' || c == '\n' || c == '\t' || c == '\r'
}

/// The text is the JSON value `null`, which starts at the character `start`.
pub open spec fn is_null_at(text: Seq<char>, start: int) -> bool {
    &&& 0 <= start
    &&& start + 4 <= text.len()
    &&& text[start] == 'n'
    &&& text[start + 1] == 'u'
    &&& text[start + 2] == 'l'
    &&& text[start + 3] == 'l'
    &&& forall|i: int| 0 <= i < start ==> is_json_space(#[trigger] text[i])
    &&& forall|i: int| start + 4 <= i < text.len() ==> is_json_space(#[trigger] text[i])
}

/// The text is the JSON value `null`.
pub open spec fn is_json_null(text: Seq<char>) -> bool {
    exists|start: int| is_null_at(text, start)
}

/// `serde_json::Error`, of which nothing is read.
#[verifier::external_type_specification]
#[verifier::external_body]
pub struct ExJsonError(serde_json::Error);

/// Calls `serde_json::from_str` for the unit type. Claimed of it: it accepts the word `null`
/// with white space around it, and nothing else.
#[verifier::external_body]
fn json_unit(text: &str) -> (parsed: Result<(), serde_json::Error>)
    ensures
        parsed is Ok <==> is_json_null(text@),
{
    serde_json::from_str::<()>(text)
}

/// Whether a reply is acceptable: the JSON value `null`, or none at all.
pub open spec fn acceptable(reply: Option<Seq<char>>) -> bool {
    match reply {
        Some(text) => is_json_null(text),
        None => true,
    }
}

/// What comes of one look for a reply, with `left` looks to go: how many are then to go, and
/// whether the search is over.
pub open spec fn spec_poll(left: nat, reply: Option<Seq<char>>) -> (
    nat,
    Result<Option<Answer>, MalformedReply>,
) {
    if !acceptable(reply) {
        (left, Err(MalformedReply))
    } else if left == 1 {
        (0, Ok(Some(no_answer())))
    } else {
        ((left - 1) as nat, Ok(None))
    }
}

/// What comes of looking for a reply at most `left` times, with what was found each time:
/// `None` where the search is not over yet.
pub open spec fn search(left: nat, replies: Seq<Option<Seq<char>>>) -> Option<
    Result<Answer, MalformedReply>,
>
    decreases replies.len(),
{
    if replies.len() == 0 {
        None
    } else if !acceptable(replies[0]) {
        Some(Err(MalformedReply))
    } else if left <= 1 {
        Some(Ok(no_answer()))
    } else {
        search((left - 1) as nat, replies.drop_first())
    }
}

/// The looks that were made since an earlier state of the replies.
pub open spec fn looks_since(responses: Looked, before: Looked) -> Seq<Option<Seq<char>>> {
    responses.looks.skip(before.looks.len() as int)
}

/// What became of the replies that waited before a run of looks: they were taken before any
/// other, the oldest first, and those that were not taken still wait. A look that found none
/// came after all of them.
pub open spec fn in_order(before: Looked, run: Seq<Option<Seq<char>>>, after: Looked) -> bool {
    &&& before.waiting.is_prefix_of(heard(run) + after.waiting)
    &&& forall|i: int|
        0 <= i < run.len() && #[trigger] run[i] is None ==> before.waiting.is_prefix_of(
            heard(run.take(i)),
        )
    &&& run.len() > 0 && run.last() is None ==> after.waiting.len() == 0
}

/// A search for the answer to a command, from one state of the replies to another: each look
/// was made for it, there are at most as many as are allowed, none of them comes after the
/// search was over, and what was found, and nothing else, was taken off the channel, in order.
pub open spec fn searched(before: Looked, after: Looked, replies: Seq<Seq<char>>) -> bool {
    let run = looks_since(after, before);
    &&& before.looks.is_prefix_of(after.looks)
    &&& 0 < run.len() <= POLLS
    &&& search(POLLS as nat, run.drop_last()) is None
    &&& search(POLLS as nat, run) is Some
    &&& replies == heard(run)
    &&& replies.len() <= POLLS
    &&& after.taken() == before.taken() + replies
    &&& in_order(before, run, after)
}

impl View for Polling {
    type V = nat;

    /// How many more times a reply is looked for.
    closed spec fn view(&self) -> nat {
        self.left as nat
    }
}

impl Polling {
    /// A search that has not begun.
    pub fn new() -> (polling: Self)
        ensures
            polling@ == POLLS,
    {
        Polling { left: POLLS }
    }

    /// Takes what was found this time. A malformed reply ends the search; a reply that is
    /// acceptable answers nothing, and the search goes on as it does without one. When it
    /// was the last time, the command counts as not answered.
    pub fn poll(&mut self, reply: &Result<String, NoReply>) -> (over: Result<
        Option<Answer>,
        MalformedReply,
    >)
        requires
            old(self)@ > 0,
        ensures
            (final(self)@, over) == spec_poll(old(self)@, Responses::found(*reply)),
    {
        if let Ok(text) = reply {
            if json_unit(text.as_str()).is_err() {
                return Err(MalformedReply);
            }
        }
        self.left = self.left - 1;
        if self.left == 0 {
            Ok(Some(CommandResult::Error(ProtocolError::Timer { code: EventError::Unknown })))
        } else {
            Ok(None)
        }
    }

    /// Looks for a reply once more, and takes what was found. The reply is handed out for the
    /// log.
    pub fn attempt(&mut self, responses: &mut Responses) -> (attempt: Attempt)
        requires
            old(self)@ > 0,
        ensures
            old(responses)@.look(Responses::found(attempt.reply), final(responses)@),
            (final(self)@, attempt.over) == spec_poll(old(self)@, Responses::found(attempt.reply)),
    {
        let reply = responses.look();
        let over = self.poll(&reply);
        Attempt { reply, over }
    }
}

/// Looks for the answer to a command among the replies of the window: as often as it takes
/// to come to an end by what [`search`] says of the replies that were found.
pub fn receive(responses: &mut Responses) -> (done: Search<Answer>)
    ensures
        searched(old(responses)@, final(responses)@, done.replies.deep_view()),
        search(POLLS as nat, looks_since(final(responses)@, old(responses)@)) == Some(
            done.outcome,
        ),
{
    let ghost before = responses@;
    let mut polling = Polling::new();
    let mut replies: Vec<String> = Vec::new();
    assert(replies.deep_view() == heard(looks_since(responses@, before)));
    loop
        invariant
            polling@ > 0,
            before == old(responses)@,
            before.looks.is_prefix_of(responses@.looks),
            responses@.looks.len() + polling@ == before.looks.len() + POLLS,
            forall|i: int|
                0 <= i < looks_since(responses@, before).len() ==> acceptable(
                    #[trigger] looks_since(responses@, before)[i],
                ),
            replies.deep_view() == heard(looks_since(responses@, before)),
            in_order(before, looks_since(responses@, before), responses@),
        decreases polling@,
    {
        let ghost middle = responses@;
        let ghost earlier = looks_since(middle, before);
        let Attempt { reply, over } = polling.attempt(responses);
        let ghost run = looks_since(responses@, before);
        proof {
            assert(run == earlier.push(Responses::found(reply)));
            assert(run.drop_last() == earlier);
            lemma_search(POLLS as nat, earlier);
            lemma_search(POLLS as nat, run);
            lemma_heard_at_most_once_a_look(run);
            lemma_in_order(before, earlier, middle, Responses::found(reply), responses@);
            assert(responses@.looks == before.looks + run);
            lemma_heard_adds(before.looks, run);
        }
        if let Ok(text) = reply {
            let ghost told = replies.deep_view();
            replies.push(text);
            assert(replies.deep_view() == told.push(text@));
        }
        match over {
            Err(malformed) => {
                assert(!acceptable(run[run.len() - 1]));
                return Search { replies, outcome: Err(malformed) };
            },
            Ok(Some(answer)) => {
                return Search { replies, outcome: Ok(answer) };
            },
            Ok(None) => {},
        }
    }
}

/// One look more keeps the order in which replies are taken.
proof fn lemma_in_order(
    before: Looked,
    earlier: Seq<Option<Seq<char>>>,
    middle: Looked,
    reply: Option<Seq<char>>,
    after: Looked,
)
    requires
        in_order(before, earlier, middle),
        middle.look(reply, after),
    ensures
        in_order(before, earlier.push(reply), after),
{
    let run = earlier.push(reply);
    assert(run.drop_last() == earlier);
    match reply {
        Some(text) => {
            assert(heard(run) + after.waiting == heard(earlier) + (seq![text] + after.waiting));
            assert((heard(earlier) + middle.waiting).is_prefix_of(heard(run) + after.waiting));
        },
        None => {
            assert(heard(earlier) + middle.waiting == heard(earlier));
            assert(heard(run) + after.waiting == heard(earlier));
        },
    }
    assert forall|i: int|
        0 <= i < run.len() && #[trigger] run[i] is None implies before.waiting.is_prefix_of(
        heard(run.take(i)),
    ) by {
        if i < earlier.len() {
            assert(run.take(i) == earlier.take(i));
            assert(earlier[i] is None);
        } else {
            assert(run.take(i) == earlier);
        }
    }
}

/// If no reply comes during a search that no malformed reply ends, the search takes all that
/// waited, the oldest first, and leaves the channel empty.
pub proof fn lemma_search_empties_the_channel(
    before: Looked,
    after: Looked,
    replies: Seq<Seq<char>>,
)
    requires
        searched(before, after, replies),
        search(POLLS as nat, looks_since(after, before)) == Some(
            Ok::<_, MalformedReply>(no_answer()),
        ),
        before.waiting == replies + after.waiting,
        before.waiting.len() <= POLLS,
    ensures
        replies == before.waiting,
        after.waiting.len() == 0,
{
    let run = looks_since(after, before);
    lemma_search(POLLS as nat, run);
    lemma_heard_at_most_once_a_look(run);
    if exists|i: int| 0 <= i < run.len() && #[trigger] run[i] is None {
        let i = choose|i: int| 0 <= i < run.len() && #[trigger] run[i] is None;
        assert(run == run.take(i) + run.skip(i));
        lemma_heard_adds(run.take(i), run.skip(i));
    }
}

/// The attempts of a search, one after the other, come to what the search says of all that was
/// found: as long as it is not over there are looks to go, and the next one decides.
pub proof fn lemma_attempts_search(replies: Seq<Option<Seq<char>>>, reply: Option<Seq<char>>)
    requires
        search(POLLS as nat, replies) is None,
    ensures
        replies.len() < POLLS,
        search(POLLS as nat, replies.push(reply)) == match spec_poll(
            (POLLS - replies.len()) as nat,
            reply,
        ).1 {
            Ok(None) => None,
            Ok(Some(answer)) => Some(Ok::<_, MalformedReply>(answer)),
            Err(malformed) => Some(Err::<Answer, _>(malformed)),
        },
{
    let all = replies.push(reply);
    lemma_search(POLLS as nat, replies);
    lemma_search(POLLS as nat, all);
    assert(forall|i: int| 0 <= i < replies.len() ==> all[i] == replies[i]);
    assert(all[replies.len() as int] == reply);
}

/// A search is over as soon as a reply is malformed, or else once a reply has been looked for
/// as often as it is; then the command counts as not answered. No reply ever answers it.
pub proof fn lemma_search(left: nat, replies: Seq<Option<Seq<char>>>)
    requires
        left > 0,
    ensures
        search(left, replies) == Some(Err::<Answer, _>(MalformedReply)) <==> exists|i: int|
            0 <= i < replies.len() && i < left && !acceptable(#[trigger] replies[i]),
        search(left, replies) == Some(Ok::<_, MalformedReply>(no_answer())) <==> replies.len()
            >= left && forall|i: int| 0 <= i < left ==> acceptable(#[trigger] replies[i]),
        search(left, replies) is None <==> replies.len() < left && forall|i: int|
            0 <= i < replies.len() ==> acceptable(#[trigger] replies[i]),
    decreases replies.len(),
{
    if replies.len() > 0 && acceptable(replies[0]) && left > 1 {
        let rest = replies.drop_first();
        lemma_search((left - 1) as nat, rest);
        assert(forall|i: int| 0 <= i < rest.len() ==> rest[i] == replies[i + 1]);
        assert(forall|i: int| 0 < i < replies.len() ==> replies[i] == rest[i - 1]);
        if exists|i: int| 0 <= i < rest.len() && i < left - 1 && !acceptable(#[trigger] rest[i]) {
            let i = choose|i: int|
                0 <= i < rest.len() && i < left - 1 && !acceptable(#[trigger] rest[i]);
            assert(!acceptable(replies[i + 1]));
        }
    }
}

/// The state of the timer, by the answer to the question for it. An answer that tells no
/// state counts as that of a timer that does not run.
pub open spec fn spec_timer_state(answer: Answer) -> TimerState {
    match answer {
        CommandResult::Success(Response::State(RunState::Running)) => TimerState::Running,
        CommandResult::Success(Response::State(RunState::Paused)) => TimerState::Paused,
        CommandResult::Success(Response::State(RunState::Ended)) => TimerState::Ended,
        _ => TimerState::NotRunning,
    }
}

/// The state of the timer, by the answer to the question for it.
pub fn timer_state(answer: &Answer) -> (state: TimerState)
    ensures
        state == spec_timer_state(*answer),
{
    match answer {
        CommandResult::Success(Response::State(state)) => match state {
            RunState::NotRunning => TimerState::NotRunning,
            RunState::Running => TimerState::Running,
            RunState::Paused => TimerState::Paused,
            RunState::Ended => TimerState::Ended,
        },
        _ => TimerState::NotRunning,
    }
}

/// The answer tells a state of the timer.
pub open spec fn tells_state(answer: Answer) -> bool {
    answer matches CommandResult::Success(Response::State(_))
}

/// What an answer to the question for the state of the timer comes to.
pub open spec fn spec_read_state(answer: Answer) -> StateReading {
    StateReading {
        state: spec_timer_state(answer),
        report: if tells_state(answer) {
            None
        } else {
            Some(answer)
        },
    }
}

/// Reads the answer to the question for the state of the timer. One that tells no state is
/// to be reported, and counts as that of a timer that does not run.
pub fn read_state(answer: Answer) -> (reading: StateReading)
    ensures
        reading == spec_read_state(answer),
{
    let state = timer_state(&answer);
    match answer {
        CommandResult::Success(Response::State(_)) => StateReading { state, report: None },
        _ => StateReading { state, report: Some(answer) },
    }
}

/// Looks for the answer to the question for the state of the timer, and reads it.
pub fn receive_state(responses: &mut Responses) -> (done: Search<StateReading>)
    ensures
        searched(old(responses)@, final(responses)@, done.replies.deep_view()),
        match search(POLLS as nat, looks_since(final(responses)@, old(responses)@)) {
            Some(Ok(answer)) => done.outcome == Ok::<_, MalformedReply>(spec_read_state(answer)),
            Some(Err(malformed)) => done.outcome == Err::<StateReading, _>(malformed),
            None => false,
        },
{
    let Search { replies, outcome } = receive(responses);
    match outcome {
        Ok(answer) => Search { replies, outcome: Ok(read_state(answer)) },
        Err(malformed) => Search { replies, outcome: Err(malformed) },
    }
}

/// An answer is reported exactly where it tells no state, and then the timer counts as one
/// that does not run.
pub proof fn lemma_reported_is_not_running(answer: Answer)
    ensures
        spec_read_state(answer).report is Some <==> !tells_state(answer),
        spec_read_state(answer).report matches Some(reported) ==> reported == answer
            && spec_read_state(answer).state == TimerState::NotRunning,
{
}

/// Whatever the window replies, the auto splitter never sees its timer do anything but not
/// run, and that is reported.
pub proof fn lemma_state_is_not_running(replies: Seq<Option<Seq<char>>>)
    ensures
        search(POLLS as nat, replies) matches Some(Ok(answer)) ==> spec_read_state(answer) == (
        StateReading { state: TimerState::NotRunning, report: Some(no_answer()) }),
{
    lemma_search(POLLS as nat, replies);
}

impl<W> TauriTimer<W> {
    /// A timer without a window.
    pub fn new() -> (timer: Self)
        ensures
            timer.window is None,
    {
        TauriTimer { window: None }
    }

    /// Commands can be sent once there is a window.
    pub open spec fn can_send(&self) -> bool {
        self.window is Some
    }

    /// The event that carries a command to the window.
    pub open spec fn spec_emission(&self, command: Command) -> Emission<'_, W>
        recommends
            self.can_send(),
    {
        Emission { window: &self.window->0, event: COMMAND_EVENT, payload: command }
    }

    /// What it takes to send a command.
    pub open spec fn spec_send(&self, command: Command) -> Sending<'_, W>
        recommends
            self.can_send(),
    {
        Sending { emission: self.spec_emission(command), step: DropReply }
    }

    /// Sends a command. What it leads to is not awaited.
    pub fn send(&self, command: Command) -> (sending: Sending<'_, W>)
        requires
            self.can_send(),
        ensures
            sending == self.spec_send(command),
    {
        Sending { emission: self.send_receive(command), step: DropReply }
    }

    /// Sends a command whose answer is then looked for, attempt by attempt
    /// ([`Polling::attempt`]) or at once ([`receive`]): this event is to be emitted before.
    pub fn send_receive(&self, command: Command) -> (emission: Emission<'_, W>)
        requires
            self.can_send(),
        ensures
            emission == self.spec_emission(command),
    {
        Emission { window: self.window.as_ref().unwrap(), event: COMMAND_EVENT, payload: command }
    }

    /// Asks for the state of the timer. The answer is then looked for, and read with
    /// [`read_state`].
    pub fn state(&self) -> (emission: Emission<'_, W>)
        requires
            self.can_send(),
        ensures
            emission == self.spec_emission(Command::GetCurrentState),
    {
        self.send_receive(Command::GetCurrentState)
    }

    pub fn start(&self) -> (sending: Sending<'_, W>)
        requires
            self.can_send(),
        ensures
            sending == self.spec_send(Command::Start),
    {
        self.send(Command::Start)
    }

    pub fn split(&self) -> (sending: Sending<'_, W>)
        requires
            self.can_send(),
        ensures
            sending == self.spec_send(Command::Split),
    {
        self.send(Command::Split)
    }

    pub fn skip_split(&self) -> (sending: Sending<'_, W>)
        requires
            self.can_send(),
        ensures
            sending == self.spec_send(Command::SkipSplit),
    {
        self.send(Command::SkipSplit)
    }

    pub fn undo_split(&self) -> (sending: Sending<'_, W>)
        requires
            self.can_send(),
        ensures
            sending == self.spec_send(Command::UndoSplit),
    {
        self.send(Command::UndoSplit)
    }

    /// Resets the timer, and leaves it to the window whether the attempt is saved.
    pub fn reset(&self) -> (sending: Sending<'_, W>)
        requires
            self.can_send(),
        ensures
            sending == self.spec_send(Command::Reset { save_attempt: None }),
    {
        self.send(Command::Reset { save_attempt: None })
    }

    pub fn set_game_time(&self, time: TimeSpan) -> (sending: Sending<'_, W>)
        requires
            self.can_send(),
        ensures
            sending == self.spec_send(Command::SetGameTime { time }),
    {
        self.send(Command::SetGameTime { time })
    }

    pub fn pause_game_time(&self) -> (sending: Sending<'_, W>)
        requires
            self.can_send(),
        ensures
            sending == self.spec_send(Command::PauseGameTime),
    {
        self.send(Command::PauseGameTime)
    }

    pub fn resume_game_time(&self) -> (sending: Sending<'_, W>)
        requires
            self.can_send(),
        ensures
            sending == self.spec_send(Command::ResumeGameTime),
    {
        self.send(Command::ResumeGameTime)
    }

    pub fn set_variable(&self, key: &str, value: &str) -> (sending: Sending<'_, W>)
        requires
            self.can_send(),
        ensures
            sending.emission.payload matches Command::SetCustomVariable { key: k, value: v }
                && k@ == key@ && v@ == value@ && sending == self.spec_send(
                Command::SetCustomVariable { key: k, value: v },
            ),
    {
        self.send(Command::SetCustomVariable { key: key.to_owned(), value: value.to_owned() })
    }
}

/// Sending has the same effect from a hotkey as from the auto splitter, over the same window
/// and the same replies: it works under the same condition, emits the same single event, and
/// then drops at most one reply, and no other leaves the channel. Of those that wait it is the
/// oldest, and the others stay.
pub proof fn lemma_sink_and_timer_agree<W>(
    sink: &TauriCommandSink<W>,
    timer: &TauriTimer<W>,
    command: Command,
    before: Looked,
    dropped: Option<Seq<char>>,
    after: Looked,
)
    requires
        sink.window == timer.window,
    ensures
        sink.can_send() == timer.can_send(),
        sink.can_send() ==> sink.spec_send(command).sending == timer.spec_send(command),
        sink.spec_send(command).sending.step.spec_perform(before, dropped, after)
            == timer.spec_send(command).step.spec_perform(before, dropped, after),
        timer.spec_send(command).step.spec_perform(before, dropped, after) ==> after.taken()
            == before.taken() + match dropped {
            Some(text) => seq![text],
            None => Seq::empty(),
        },
        timer.spec_send(command).step.spec_perform(before, dropped, after)
            && before.waiting.len() > 0 ==> dropped == Some(before.waiting[0])
            && before.waiting.drop_first().is_prefix_of(after.waiting),
{
    if before.look(dropped, after) {
        assert(before.looks.push(dropped).drop_last() == before.looks);
        if before.waiting.len() > 0 {
            lemma_look_takes_the_oldest(before, dropped, after);
        }
    }
}

/// A timer starts without a window, and can send as soon as it has one.
pub proof fn lemma_new_timer<W>(new: TauriTimer<W>, timer: &TauriTimer<W>)
    requires
        call_ensures(TauriTimer::<W>::new, (), new),
    ensures
        new.window is None,
        timer.can_send() <==> timer.window is Some,
{
}

/// The event that sending a command emits goes to the window, is named `command`, and carries
/// that command, with everything in it, whether an answer is looked for or not. To ask for the
/// state is to send the command of that name.
pub proof fn lemma_timer_emits_the_command<'a, W>(
    timer: &'a TauriTimer<W>,
    command: Command,
    sending: Sending<'a, W>,
    emission: Emission<'a, W>,
    question: Emission<'a, W>,
)
    requires
        timer.window is Some,
        call_ensures(TauriTimer::<W>::send, (timer, command), sending),
        call_ensures(TauriTimer::<W>::send_receive, (timer, command), emission),
        call_ensures(TauriTimer::<W>::state, (timer,), question),
    ensures
        *sending.emission.window == timer.window->0,
        sending.emission.event@ == "command"@,
        sending.emission.payload == command,
        *emission.window == timer.window->0,
        emission.event@ == "command"@,
        emission.payload == command,
        *question.window == timer.window->0,
        question.event@ == "command"@,
        question.payload == Command::GetCurrentState,
{
}

/// Each action of the auto splitter sends the command of its name with exactly what it carries.
/// A reset leaves it to the window whether the attempt is saved.
pub proof fn lemma_each_action_of_the_splitter_sends_its_command<'a, W>(
    timer: &'a TauriTimer<W>,
    time: TimeSpan,
    key: &'a str,
    value: &'a str,
)
    requires
        timer.window is Some,
    ensures
        ({
            let sends = |sending: Sending<'a, W>, command: Command|
                {
                    &&& *sending.emission.window == timer.window->0
                    &&& sending.emission.event@ == "command"@
                    &&& sending.emission.payload == command
                };
            &&& forall|sending: Sending<'a, W>| #[trigger]
                call_ensures(TauriTimer::<W>::start, (timer,), sending) ==> sends(
                    sending,
                    Command::Start,
                )
            &&& forall|sending: Sending<'a, W>| #[trigger]
                call_ensures(TauriTimer::<W>::split, (timer,), sending) ==> sends(
                    sending,
                    Command::Split,
                )
            &&& forall|sending: Sending<'a, W>| #[trigger]
                call_ensures(TauriTimer::<W>::skip_split, (timer,), sending) ==> sends(
                    sending,
                    Command::SkipSplit,
                )
            &&& forall|sending: Sending<'a, W>| #[trigger]
                call_ensures(TauriTimer::<W>::undo_split, (timer,), sending) ==> sends(
                    sending,
                    Command::UndoSplit,
                )
            &&& forall|sending: Sending<'a, W>| #[trigger]
                call_ensures(TauriTimer::<W>::reset, (timer,), sending) ==> sends(
                    sending,
                    Command::Reset { save_attempt: None },
                )
            &&& forall|sending: Sending<'a, W>| #[trigger]
                call_ensures(TauriTimer::<W>::set_game_time, (timer, time), sending) ==> sends(
                    sending,
                    Command::SetGameTime { time },
                )
            &&& forall|sending: Sending<'a, W>| #[trigger]
                call_ensures(TauriTimer::<W>::pause_game_time, (timer,), sending) ==> sends(
                    sending,
                    Command::PauseGameTime,
                )
            &&& forall|sending: Sending<'a, W>| #[trigger]
                call_ensures(TauriTimer::<W>::resume_game_time, (timer,), sending) ==> sends(
                    sending,
                    Command::ResumeGameTime,
                )
            &&& forall|sending: Sending<'a, W>| #[trigger]
                call_ensures(TauriTimer::<W>::set_variable, (timer, key, value), sending) ==> {
                    &&& *sending.emission.window == timer.window->0
                    &&& sending.emission.event@ == "command"@
                    &&& sending.emission.payload matches Command::SetCustomVariable {
                        key: k,
                        value: v,
                    } && k@ == key@ && v@ == value@
                }
        }),
{
}

/// An answer that tells a state is read as that very state, and nothing is reported. Any other
/// answer is reported as it is, and read as that of a timer that does not run.
pub proof fn lemma_state_is_read_as_told(answer: Answer, reading: StateReading, state: TimerState)
    requires
        call_ensures(read_state, (answer,), reading),
        call_ensures(timer_state, (&answer,), state),
    ensures
        reading.state == state,
        answer matches CommandResult::Success(Response::State(told)) ==> {
            &&& reading.report is None
            &&& told == RunState::NotRunning <==> state == TimerState::NotRunning
            &&& told == RunState::Running <==> state == TimerState::Running
            &&& told == RunState::Paused <==> state == TimerState::Paused
            &&& told == RunState::Ended <==> state == TimerState::Ended
        },
        answer matches CommandResult::Success(Response::Other) ==> reading.report == Some(answer)
            && state == TimerState::NotRunning,
        answer matches CommandResult::Error(_) ==> reading.report == Some(answer) && state
            == TimerState::NotRunning,
{
}

/// A text is the JSON value `null` exactly where it is that word with nothing but spaces, line
/// feeds, tabs and carriage returns around it. A reply of any other text is malformed, and no
/// reply is not.
pub proof fn lemma_json_null(text: Seq<char>)
    ensures
        is_json_null(text) <==> exists|before: Seq<char>, after: Seq<char>| #[trigger]
            (before + "null"@ + after) == text && (forall|i: int|
                0 <= i < before.len() ==> (#[trigger] before[i] == ' ' || before[i] == '\n'
                    || before[i] == '\t' || before[i] == '\r')) && (forall|i: int|
                0 <= i < after.len() ==> (#[trigger] after[i] == ' ' || after[i] == '\n'
                    || after[i] == '\t' || after[i] == '\r')),
        acceptable(Some(text)) <==> is_json_null(text),
        acceptable(None),
{
    reveal_strlit("null");
    if is_json_null(text) {
        let start = choose|start: int| is_null_at(text, start);
        let before = text.take(start);
        let after = text.skip(start + 4);
        assert(before + "null"@ + after == text);
        assert forall|i: int| 0 <= i < before.len() implies is_json_space(
            #[trigger] before[i],
        ) by {
            assert(is_json_space(text[i]));
        }
        assert forall|i: int| 0 <= i < after.len() implies is_json_space(#[trigger] after[i]) by {
            assert(is_json_space(text[start + 4 + i]));
        }
    }
    if exists|before: Seq<char>, after: Seq<char>| #[trigger]
        (before + "null"@ + after) == text && (forall|i: int|
            0 <= i < before.len() ==> is_json_space(#[trigger] before[i])) && (forall|i: int|
            0 <= i < after.len() ==> is_json_space(#[trigger] after[i])) {
        let (before, after) = choose|before: Seq<char>, after: Seq<char>| #[trigger]
            (before + "null"@ + after) == text && (forall|i: int|
                0 <= i < before.len() ==> is_json_space(#[trigger] before[i])) && (forall|i: int|
                0 <= i < after.len() ==> is_json_space(#[trigger] after[i]));
        let start = before.len() as int;
        assert forall|i: int| 0 <= i < start implies is_json_space(#[trigger] text[i]) by {
            assert(text[i] == before[i]);
        }
        assert forall|i: int| start + 4 <= i < text.len() implies is_json_space(
            #[trigger] text[i],
        ) by {
            assert(text[i] == after[i - start - 4]);
        }
        assert(is_null_at(text, start));
    }
}

/// A search begins with ten thousand looks to go. Each look that finds nothing malformed uses
/// up one of them and no more; the search is over at the last one, and then the command counts
/// as not answered. A malformed reply ends it, and nothing else does.
pub proof fn lemma_poll(
    new: Polling,
    polling: &mut Polling,
    reply: &Result<String, NoReply>,
    over: Result<Option<Answer>, MalformedReply>,
)
    requires
        call_ensures(Polling::new, (), new),
        old(polling)@ > 0,
        call_ensures(Polling::poll, (polling, reply), over),
    ensures
        new@ == 10000,
        over is Err <==> (reply matches Ok(text) && !is_json_null(text@)),
        over is Ok ==> final(polling)@ == old(polling)@ - 1,
        over is Ok ==> (over->Ok_0 is Some <==> final(polling)@ == 0),
        over matches Ok(Some(answer)) ==> answer == CommandResult::<Response, _>::Error(
            ProtocolError::Timer { code: EventError::Unknown },
        ),
{
}

/// An attempt is one look, whose reply it hands out, and comes to what that reply does.
pub proof fn lemma_attempt(polling: &mut Polling, responses: &mut Responses, attempt: Attempt)
    requires
        old(polling)@ > 0,
        call_ensures(Polling::attempt, (polling, responses), attempt),
    ensures
        final(responses)@.looks.len() == old(responses)@.looks.len() + 1,
        final(responses)@.looks.drop_last() == old(responses)@.looks,
        attempt.reply matches Ok(text) ==> final(responses)@.looks.last() == Some(text@),
        attempt.reply is Err ==> final(responses)@.looks.last() is None,
        attempt.reply is Ok && old(responses)@.waiting.len() > 0 ==> attempt.reply->Ok_0@
            == old(responses)@.waiting[0] && old(responses)@.waiting.drop_first().is_prefix_of(
            final(responses)@.waiting,
        ),
        attempt.reply is Err ==> old(responses)@.waiting.len() == 0
            && final(responses)@.waiting.len() == 0,
        attempt.over is Err <==> (attempt.reply matches Ok(text) && !is_json_null(text@)),
        attempt.over is Ok ==> final(polling)@ == old(polling)@ - 1,
        attempt.over is Ok ==> (attempt.over->Ok_0 is Some <==> final(polling)@ == 0),
        attempt.over matches Ok(Some(answer)) ==> answer == CommandResult::<Response, _>::Error(
            ProtocolError::Timer { code: EventError::Unknown },
        ),
{
    assert(final(responses)@.looks.drop_last() == old(responses)@.looks);
    if attempt.reply is Ok && old(responses)@.waiting.len() > 0 {
        lemma_look_takes_the_oldest(
            old(responses)@,
            Responses::found(attempt.reply),
            final(responses)@,
        );
    }
}

/// A search looks at most ten thousand times, and not once after it is over. It hands out what
/// it took off the channel, the oldest first. A malformed reply ends it, which is then the last
/// one found; without one it looks ten thousand times, and the command counts as not answered.
/// Asked for the state of the timer, it then tells that it does not run, and reports that.
pub proof fn lemma_whole_search(
    responses: &mut Responses,
    done: Search<Answer>,
    others: &mut Responses,
    told: Search<StateReading>,
)
    requires
        call_ensures(receive, (responses,), done),
        call_ensures(receive_state, (others,), told),
    ensures
        ({
            let before = old(responses)@;
            let after = final(responses)@;
            let run = after.looks.skip(before.looks.len() as int);
            &&& before.looks.is_prefix_of(after.looks)
            &&& 0 < run.len() <= 10000
            &&& forall|i: int|
                0 <= i < run.len() - 1 && (#[trigger] run[i]) is Some ==> is_json_null(run[i]->0)
            &&& done.outcome is Err <==> run.last() is Some && !is_json_null(run.last()->0)
            &&& done.outcome is Ok ==> run.len() == 10000
            &&& done.outcome matches Ok(answer) ==> answer == CommandResult::<Response, _>::Error(
                ProtocolError::Timer { code: EventError::Unknown },
            )
            &&& done.replies.deep_view() == heard(run)
            &&& heard(after.looks) == heard(before.looks) + done.replies.deep_view()
            &&& before.waiting.is_prefix_of(done.replies.deep_view() + after.waiting)
        }),
        ({
            let before = old(others)@;
            let after = final(others)@;
            let run = after.looks.skip(before.looks.len() as int);
            &&& before.looks.is_prefix_of(after.looks)
            &&& 0 < run.len() <= 10000
            &&& forall|i: int|
                0 <= i < run.len() - 1 && (#[trigger] run[i]) is Some ==> is_json_null(run[i]->0)
            &&& told.outcome is Err <==> run.last() is Some && !is_json_null(run.last()->0)
            &&& told.outcome is Ok ==> run.len() == 10000
            &&& told.outcome matches Ok(reading) ==> reading.state == TimerState::NotRunning
                && reading.report == Some(
                CommandResult::<Response, _>::Error(
                    ProtocolError::Timer { code: EventError::Unknown },
                ),
            )
            &&& told.replies.deep_view() == heard(run)
            &&& heard(after.looks) == heard(before.looks) + told.replies.deep_view()
            &&& before.waiting.is_prefix_of(told.replies.deep_view() + after.waiting)
        }),
{
    lemma_end_of_search(looks_since(final(responses)@, old(responses)@));
    lemma_end_of_search(looks_since(final(others)@, old(others)@));
}

proof fn lemma_end_of_search(run: Seq<Option<Seq<char>>>)
    requires
        0 < run.len() <= POLLS,
        search(POLLS as nat, run.drop_last()) is None,
        search(POLLS as nat, run) is Some,
    ensures
        forall|i: int|
            0 <= i < run.len() - 1 && (#[trigger] run[i]) is Some ==> is_json_null(run[i]->0),
        search(POLLS as nat, run)->0 is Err <==> run.last() is Some && !is_json_null(
            run.last()->0,
        ),
        search(POLLS as nat, run)->0 is Ok ==> run.len() == POLLS,
        search(POLLS as nat, run)->0 matches Ok(answer) ==> answer == no_answer(),
{
    let earlier = run.drop_last();
    lemma_search(POLLS as nat, earlier);
    lemma_search(POLLS as nat, run);
    assert(forall|i: int| 0 <= i < earlier.len() ==> acceptable(earlier[i]));
    assert forall|i: int| 0 <= i < run.len() - 1 implies acceptable(#[trigger] run[i]) by {
        assert(acceptable(earlier[i]));
    }
    assert(run.last() == run[run.len() - 1]);
}

} // verus!
