//! The channel through which the replies of the window come.

use vstd::prelude::*;

use crate::protocol::Emission;

verus! {

/// Why no reply was found.
#[derive(Clone, Copy, Debug, PartialEq, Eq, Structural)]
pub enum NoReply {
    /// None waits.
    Empty,
    /// None waits, and none will come.
    Disconnected,
}

/// `tokio::sync::mpsc::Receiver`, known by what has been found through it ([`looked`]) and by
/// what waits for it ([`waiting`]).
#[verifier::external_type_specification]
#[verifier::external_body]
#[verifier::reject_recursive_types(T)]
pub struct ExReceiver<T>(tokio::sync::mpsc::Receiver<T>);

/// What each call of `try_recv` on a receiver has found so far.
pub uninterp spec fn looked(receiver: tokio::sync::mpsc::Receiver<String>) -> Seq<
    Option<Seq<char>>,
>;

/// The messages that waited for a receiver when its channel was last looked into through it,
/// the oldest first. Further ones may have come since: other threads send at any time.
pub uninterp spec fn waiting(receiver: tokio::sync::mpsc::Receiver<String>) -> Seq<Seq<char>>;

/// Calls `tokio::sync::mpsc::Receiver::try_recv`. Claimed of it: the call counts as one look,
/// with what it found. A message that it hands out is the oldest, and those that waited behind
/// it still do, before any that came since. When it hands out none, none had been left to wait
/// and none waits. Nothing is said of whether messages come, and which: that is up to the
/// threads that send.
#[verifier::external_body]
fn try_receive(receiver: &mut tokio::sync::mpsc::Receiver<String>) -> (reply: Result<
    String,
    NoReply,
>)
    ensures
        looked(*final(receiver)) == looked(*old(receiver)).push(Responses::found(reply)),
        match reply {
            Ok(text) => waiting(*old(receiver)).is_prefix_of(
                seq![text@] + waiting(*final(receiver)),
            ),
            Err(_) => waiting(*old(receiver)).len() == 0 && waiting(*final(receiver)).len() == 0,
        },
{
    match receiver.try_recv() {
        Ok(reply) => Ok(reply),
        Err(tokio::sync::mpsc::error::TryRecvError::Empty) => Err(NoReply::Empty),
        Err(tokio::sync::mpsc::error::TryRecvError::Disconnected) => Err(NoReply::Disconnected),
    }
}

/// The replies among what was found, look by look.
pub open spec fn heard(looks: Seq<Option<Seq<char>>>) -> Seq<Seq<char>>
    decreases looks.len(),
{
    if looks.len() == 0 {
        Seq::empty()
    } else {
        match looks.last() {
            Some(text) => heard(looks.drop_last()).push(text),
            None => heard(looks.drop_last()),
        }
    }
}

/// What is heard in one run of looks and then in another is heard in both together.
pub proof fn lemma_heard_adds(first: Seq<Option<Seq<char>>>, second: Seq<Option<Seq<char>>>)
    ensures
        heard(first + second) == heard(first) + heard(second),
    decreases second.len(),
{
    let both = first + second;
    if second.len() == 0 {
        assert(both == first);
    } else {
        assert(both.drop_last() == first + second.drop_last());
        lemma_heard_adds(first, second.drop_last());
    }
}

/// No more replies are heard than are looked for; as many, if each look found one.
pub proof fn lemma_heard_at_most_once_a_look(looks: Seq<Option<Seq<char>>>)
    ensures
        heard(looks).len() <= looks.len(),
        (forall|i: int| 0 <= i < looks.len() ==> #[trigger] looks[i] is Some) ==> heard(
            looks,
        ).len() == looks.len(),
    decreases looks.len(),
{
    if looks.len() > 0 {
        let rest = looks.drop_last();
        lemma_heard_at_most_once_a_look(rest);
        if forall|i: int| 0 <= i < looks.len() ==> #[trigger] looks[i] is Some {
            assert(forall|i: int| 0 <= i < rest.len() ==> rest[i] == looks[i]);
        }
    }
}

/// What has become of the replies of the window.
pub struct Looked {
    /// What each look into the channel found.
    pub looks: Seq<Option<Seq<char>>>,
    /// The replies that waited at the last look, the oldest first.
    pub waiting: Seq<Seq<char>>,
}

impl Looked {
    /// The replies that have been taken off the channel, in the order in which they were taken.
    pub open spec fn taken(self) -> Seq<Seq<char>> {
        heard(self.looks)
    }

    /// One look leads from this to `after`. It takes the reply that it finds and nothing else:
    /// the oldest one. It finds none only if none waits.
    pub open spec fn look(self, reply: Option<Seq<char>>, after: Self) -> bool {
        &&& after.looks == self.looks.push(reply)
        &&& match reply {
            Some(text) => self.waiting.is_prefix_of(seq![text] + after.waiting),
            None => self.waiting.len() == 0 && after.waiting.len() == 0,
        }
    }
}

/// Of the replies that wait, a look takes the oldest, and the others stay as they are, before
/// any that came since. If none came, they are all that is left.
pub proof fn lemma_look_takes_the_oldest(before: Looked, reply: Option<Seq<char>>, after: Looked)
    requires
        before.look(reply, after),
        before.waiting.len() > 0,
    ensures
        reply == Some(before.waiting[0]),
        after.taken() == before.taken().push(before.waiting[0]),
        before.waiting.drop_first().is_prefix_of(after.waiting),
        before.waiting.len() == after.waiting.len() + 1 ==> after.waiting
            == before.waiting.drop_first(),
{
    let text = reply->0;
    let all = seq![text] + after.waiting;
    assert(all[0] == text);
    assert(before.waiting[0] == all[0]);
    assert forall|i: int| 0 <= i < before.waiting.len() - 1 implies #[trigger] after.waiting[i]
        == before.waiting.drop_first()[i] by {
        assert(all[i + 1] == before.waiting[i + 1]);
    }
    assert(before.looks.push(reply).drop_last() == before.looks);
}

/// The replies of the window.
pub struct Responses {
    receiver: tokio::sync::mpsc::Receiver<String>,
}

impl View for Responses {
    type V = Looked;

    closed spec fn view(&self) -> Looked {
        Looked { looks: looked(self.receiver), waiting: waiting(self.receiver) }
    }
}

impl Responses {
    /// What one look into the channel found.
    pub open spec fn found(reply: Result<String, NoReply>) -> Option<Seq<char>> {
        match reply {
            Ok(text) => Some(text@),
            Err(_) => None,
        }
    }

    /// The replies that come through a channel.
    pub fn new(receiver: tokio::sync::mpsc::Receiver<String>) -> (responses: Self)
        ensures
            responses@ == (Looked { looks: looked(receiver), waiting: waiting(receiver) }),
    {
        Responses { receiver }
    }

    /// Looks once for a reply that waits, and takes it. Does not wait for one to come.
    pub fn look(&mut self) -> (reply: Result<String, NoReply>)
        ensures
            old(self)@.look(Self::found(reply), final(self)@),
    {
        try_receive(&mut self.receiver)
    }
}

/// A command on its way, whose answer nobody looks for: the event is to be emitted, and then
/// a reply that already waits is to be taken out of the way.
#[derive(Debug)]
pub struct Sending<'a, W> {
    pub emission: Emission<'a, W>,
    pub step: DropReply,
}

/// What is left to do once the event is emitted.
#[derive(Clone, Copy, Debug, PartialEq, Eq, Structural)]
pub struct DropReply;

impl DropReply {
    /// The step leads from one state of the replies to another, and drops this one.
    pub open spec fn spec_perform(
        self,
        before: Looked,
        dropped: Option<Seq<char>>,
        after: Looked,
    ) -> bool {
        before.look(dropped, after)
    }

    /// Looks once for a reply that already waits. It answers nothing, and is handed out for
    /// the log.
    pub fn perform(self, responses: &mut Responses) -> (dropped: Result<String, NoReply>)
        ensures
            self.spec_perform(old(responses)@, Responses::found(dropped), final(responses)@),
    {
        responses.look()
    }
}

/// What a look found is the text that it handed out, and nothing where it handed out none. One
/// look tells of its reply and of no other.
pub proof fn lemma_found(reply: Result<String, NoReply>, look: Option<Seq<char>>)
    ensures
        reply matches Ok(text) ==> Responses::found(reply) == Some(text@),
        reply is Err ==> Responses::found(reply) is None,
        look matches Some(text) ==> heard(seq![look]) == seq![text],
        look is None ==> heard(seq![look]).len() == 0,
        heard(Seq::empty()).len() == 0,
{
    reveal_with_fuel(heard, 2);
    assert(seq![look].drop_last() == Seq::<Option<Seq<char>>>::empty());
    assert(seq![look].last() == look);
    if let Some(text) = look {
        assert(heard(seq![look]) == seq![text]);
    }
}

/// The replies are those that come through the channel that was given, as they stand.
pub proof fn lemma_replies_of_a_channel(
    receiver: tokio::sync::mpsc::Receiver<String>,
    responses: Responses,
)
    requires
        call_ensures(Responses::new, (receiver,), responses),
    ensures
        responses@.looks == looked(receiver),
        responses@.waiting == waiting(receiver),
{
}

/// A look, on its own or after a command, is made exactly once, and what it hands out is what
/// was found. If replies wait, that is the oldest of them, and the others stay; if nothing is
/// found, none waits.
pub proof fn lemma_look(
    responses: &mut Responses,
    reply: Result<String, NoReply>,
    step: DropReply,
    others: &mut Responses,
    dropped: Result<String, NoReply>,
)
    requires
        call_ensures(Responses::look, (responses,), reply),
        call_ensures(DropReply::perform, (step, others), dropped),
    ensures
        ({
            let before = old(responses)@;
            let after = final(responses)@;
            &&& after.looks.len() == before.looks.len() + 1
            &&& after.looks.drop_last() == before.looks
            &&& reply matches Ok(text) ==> after.looks.last() == Some(text@)
            &&& reply is Err ==> after.looks.last() is None && before.waiting.len() == 0
                && after.waiting.len() == 0
            &&& before.waiting.len() > 0 ==> reply is Ok && reply->Ok_0@ == before.waiting[0]
                && before.waiting.drop_first().is_prefix_of(after.waiting)
        }),
        ({
            let before = old(others)@;
            let after = final(others)@;
            &&& after.looks.len() == before.looks.len() + 1
            &&& after.looks.drop_last() == before.looks
            &&& dropped matches Ok(text) ==> after.looks.last() == Some(text@)
            &&& dropped is Err ==> after.looks.last() is None && before.waiting.len() == 0
                && after.waiting.len() == 0
            &&& before.waiting.len() > 0 ==> dropped is Ok && dropped->Ok_0@ == before.waiting[0]
                && before.waiting.drop_first().is_prefix_of(after.waiting)
        }),
{
    assert(final(responses)@.looks.drop_last() == old(responses)@.looks);
    assert(final(others)@.looks.drop_last() == old(others)@.looks);
    if old(responses)@.waiting.len() > 0 {
        lemma_look_takes_the_oldest(old(responses)@, Responses::found(reply), final(responses)@);
    }
    if old(others)@.waiting.len() > 0 {
        lemma_look_takes_the_oldest(old(others)@, Responses::found(dropped), final(others)@);
    }
}

} // verus!
