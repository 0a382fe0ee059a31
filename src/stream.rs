use vstd::prelude::*;
use crate::data::{merged, GameData, PartialGameData};

verus! {

/// The pause between two connection attempts, in milliseconds.
pub const BACKOFF_MS: u64 = 2000;

/// Where a stream consumer stands.
#[derive(Debug, Clone, Copy, PartialEq, Eq, Structural)]
pub enum Phase {
    /// Opening the stream.
    Connecting,
    /// Telling the source which fields to send.
    Handshaking,
    /// Reading messages.
    Streaming,
    /// Waiting before the next attempt.
    BackingOff,
}

/// What the outside world reports to a stream consumer.
#[derive(Debug, Clone, Copy, PartialEq, Eq, Structural)]
pub enum Event {
    ConnectFailed,
    Connected,
    HandshakeSent,
    HandshakeFailed,
    StreamEnded,
    BackoffElapsed,
}

/// What a stream consumer asks to be done next.
#[derive(Debug, Clone, Copy, PartialEq, Eq, Structural)]
pub enum Action {
    /// Open the stream.
    Connect,
    /// Send the list of wanted fields.
    SendHandshake,
    /// Read and apply messages until the stream ends.
    Read,
    /// Wait this many milliseconds.
    Sleep(u64),
}

/// What is worth telling the user about a step.
#[derive(Debug, Clone, Copy, PartialEq, Eq, Structural)]
pub enum Notice {
    Silent,
    Connected,
    /// The source could not be reached; said once per run of failures.
    Unreachable,
    Disconnected,
}

/// One decision of a stream consumer.
#[derive(Debug, Clone, Copy, PartialEq, Eq, Structural)]
pub struct Step {
    pub action: Action,
    pub notice: Notice,
}

/// The reconnection policy of one source: connect, optionally hand over the
/// wanted fields, stream, and on any failure wait and start again, forever.
#[derive(Debug, Clone, Copy, PartialEq, Eq, Structural)]
pub struct StreamConsumer {
    pub phase: Phase,
    /// Inside a run of failures that has already been reported.
    pub failing: bool,
    /// The source expects the list of wanted fields after connecting.
    pub handshake: bool,
}

/// The action that a phase waits on.
pub open spec fn awaited(p: Phase) -> Action {
    match p {
        Phase::Connecting => Action::Connect,
        Phase::Handshaking => Action::SendHandshake,
        Phase::Streaming => Action::Read,
        Phase::BackingOff => Action::Sleep(BACKOFF_MS),
    }
}

/// A failed attempt: back off, and report it unless the run of failures
/// already was.
pub open spec fn fail(c: StreamConsumer) -> (StreamConsumer, Step) {
    (
        StreamConsumer { phase: Phase::BackingOff, failing: true, ..c },
        Step {
            action: Action::Sleep(BACKOFF_MS),
            notice: if c.failing {
                Notice::Silent
            } else {
                Notice::Unreachable
            },
        },
    )
}

/// The stream is open and ready: read it.
pub open spec fn stream(c: StreamConsumer) -> (StreamConsumer, Step) {
    (
        StreamConsumer { phase: Phase::Streaming, failing: false, ..c },
        Step { action: Action::Read, notice: Notice::Connected },
    )
}

/// The next state and step of consumer `c` on event `e`. An event that the
/// phase does not wait for changes nothing and repeats the awaited action.
pub open spec fn next(c: StreamConsumer, e: Event) -> (StreamConsumer, Step) {
    match (c.phase, e) {
        (Phase::Connecting, Event::ConnectFailed) => fail(c),
        (Phase::Connecting, Event::Connected) => if c.handshake {
            (
                StreamConsumer { phase: Phase::Handshaking, ..c },
                Step { action: Action::SendHandshake, notice: Notice::Silent },
            )
        } else {
            stream(c)
        },
        (Phase::Handshaking, Event::HandshakeSent) => stream(c),
        (Phase::Handshaking, Event::HandshakeFailed) => fail(c),
        (Phase::Streaming, Event::StreamEnded) => (
            StreamConsumer { phase: Phase::BackingOff, failing: true, ..c },
            Step { action: Action::Sleep(BACKOFF_MS), notice: Notice::Disconnected },
        ),
        (Phase::BackingOff, Event::BackoffElapsed) => (
            StreamConsumer { phase: Phase::Connecting, ..c },
            Step { action: Action::Connect, notice: Notice::Silent },
        ),
        _ => (c, Step { action: awaited(c.phase), notice: Notice::Silent }),
    }
}

impl StreamConsumer {
    /// A consumer about to make its first connection attempt.
    pub fn new(handshake: bool) -> (r: StreamConsumer)
        ensures
            r.phase == Phase::Connecting,
            !r.failing,
            r.handshake == handshake,
    {
        StreamConsumer { phase: Phase::Connecting, failing: false, handshake }
    }

    /// Moves on by one event and says what to do next.
    pub fn step(&mut self, event: Event) -> (r: Step)
        ensures
            (*final(self), r) == next(*old(self), event),
    {
        let c = *self;
        let (n, s) = match (c.phase, event) {
            (Phase::Connecting, Event::ConnectFailed) | (Phase::Handshaking, Event::HandshakeFailed) => (
                StreamConsumer { phase: Phase::BackingOff, failing: true, ..c },
                Step {
                    action: Action::Sleep(BACKOFF_MS),
                    notice: if c.failing {
                        Notice::Silent
                    } else {
                        Notice::Unreachable
                    },
                },
            ),
            (Phase::Connecting, Event::Connected) => if c.handshake {
                (
                    StreamConsumer { phase: Phase::Handshaking, ..c },
                    Step { action: Action::SendHandshake, notice: Notice::Silent },
                )
            } else {
                (
                    StreamConsumer { phase: Phase::Streaming, failing: false, ..c },
                    Step { action: Action::Read, notice: Notice::Connected },
                )
            },
            (Phase::Handshaking, Event::HandshakeSent) => (
                StreamConsumer { phase: Phase::Streaming, failing: false, ..c },
                Step { action: Action::Read, notice: Notice::Connected },
            ),
            (Phase::Streaming, Event::StreamEnded) => (
                StreamConsumer { phase: Phase::BackingOff, failing: true, ..c },
                Step { action: Action::Sleep(BACKOFF_MS), notice: Notice::Disconnected },
            ),
            (Phase::BackingOff, Event::BackoffElapsed) => (
                StreamConsumer { phase: Phase::Connecting, ..c },
                Step { action: Action::Connect, notice: Notice::Silent },
            ),
            _ => {
                let action = match c.phase {
                    Phase::Connecting => Action::Connect,
                    Phase::Handshaking => Action::SendHandshake,
                    Phase::Streaming => Action::Read,
                    Phase::BackingOff => Action::Sleep(BACKOFF_MS),
                };
                (c, Step { action, notice: Notice::Silent })
            },
        };
        *self = n;
        s
    }
}

/// The state and the steps after a run of events.
pub open spec fn run(c: StreamConsumer, events: Seq<Event>) -> (StreamConsumer, Seq<Step>)
    decreases events.len(),
{
    if events.len() == 0 {
        (c, Seq::empty())
    } else {
        let (c1, s) = next(c, events[0]);
        let (c2, rest) = run(c1, events.drop_first());
        (c2, seq![s] + rest)
    }
}

/// The pause after a failed attempt, reported or not.
pub open spec fn backoff_step(reported: bool) -> Step {
    Step {
        action: Action::Sleep(BACKOFF_MS),
        notice: if reported {
            Notice::Unreachable
        } else {
            Notice::Silent
        },
    }
}

/// A new attempt after the pause.
pub open spec fn retry_step() -> Step {
    Step { action: Action::Connect, notice: Notice::Silent }
}

/// `n` connection attempts that all fail, each followed by the pause.
pub open spec fn failed_attempts(n: nat) -> Seq<Event>
    decreases n,
{
    if n == 0 {
        Seq::empty()
    } else {
        seq![Event::ConnectFailed, Event::BackoffElapsed] + failed_attempts((n - 1) as nat)
    }
}

/// A consumer whose every connection attempt fails keeps trying: each failure
/// is followed by the fixed pause and a new attempt, the consumer is back to
/// connecting after each round, and only the first failure of the run is
/// reported.
pub proof fn lemma_retries_forever(c: StreamConsumer, n: nat)
    requires
        c.phase == Phase::Connecting,
    ensures
        run(c, failed_attempts(n)).0.phase == Phase::Connecting,
        run(c, failed_attempts(n)).0.handshake == c.handshake,
        n > 0 ==> run(c, failed_attempts(n)).0.failing,
        run(c, failed_attempts(n)).1.len() == 2 * n,
        forall|i: int|
            0 <= i < n ==> (#[trigger] run(c, failed_attempts(n)).1[2 * i]) == backoff_step(
                i == 0 && !c.failing,
            ) && run(c, failed_attempts(n)).1[2 * i + 1] == retry_step(),
    decreases n,
{
    if n > 0 {
        let evs = failed_attempts(n);
        let rest = failed_attempts((n - 1) as nat);
        let (c1, s1) = next(c, Event::ConnectFailed);
        let (c2, s2) = next(c1, Event::BackoffElapsed);
        let e1 = evs.drop_first();
        assert(evs[0] == Event::ConnectFailed);
        assert(e1 =~= seq![Event::BackoffElapsed] + rest);
        assert(e1[0] == Event::BackoffElapsed);
        assert(e1.drop_first() =~= rest);
        assert(run(c, evs) == (run(c1, e1).0, seq![s1] + run(c1, e1).1));
        assert(run(c1, e1) == (run(c2, rest).0, seq![s2] + run(c2, rest).1));
        lemma_retries_forever(c2, (n - 1) as nat);
        if n == 1 {
            assert(rest.len() == 0);
        }
        let steps = run(c, evs).1;
        let tail = run(c2, rest).1;
        assert(steps =~= seq![s1] + (seq![s2] + tail));
        assert forall|i: int| 0 <= i < n implies #[trigger] steps[2 * i] == backoff_step(
            i == 0 && !c.failing,
        ) && steps[2 * i + 1] == retry_step() by {
            if i > 0 {
                let j = i - 1;
                assert(tail[2 * j] == backoff_step(false));
                assert(steps[2 * i] == tail[2 * j]);
                assert(steps[2 * i + 1] == tail[2 * j + 1]);
            }
        }
    }
}

/// The record after one inbound message: the update it decoded to is merged;
/// a message that did not decode leaves the record as it was.
pub open spec fn apply(s: GameData, message: Option<PartialGameData>) -> GameData {
    match message {
        Some(p) => merged(s, p),
        None => s,
    }
}

/// The record after a run of inbound messages, in order.
pub open spec fn apply_all(s: GameData, messages: Seq<Option<PartialGameData>>) -> GameData
    decreases messages.len(),
{
    if messages.len() == 0 {
        s
    } else {
        apply(apply_all(s, messages.drop_last()), messages.last())
    }
}

/// The messages of a run that decoded, in order.
pub open spec fn decoded(messages: Seq<Option<PartialGameData>>) -> Seq<Option<PartialGameData>>
    decreases messages.len(),
{
    if messages.len() == 0 {
        messages
    } else if messages.last() is None {
        decoded(messages.drop_last())
    } else {
        decoded(messages.drop_last()).push(messages.last())
    }
}

/// Applies one inbound message to the record. The message is decoded whole
/// before this is called, so a malformed one never reaches the record.
pub fn apply_message(state: &mut GameData, message: Option<PartialGameData>)
    ensures
        *final(state) == apply(*old(state), message),
{
    if let Some(p) = message {
        state.update(p);
    }
}

/// Messages that did not decode have no effect on the record and do not keep
/// the ones after them from being merged: a run of messages leaves the record
/// as the decoded ones alone would.
pub proof fn lemma_malformed_ignored(s: GameData, messages: Seq<Option<PartialGameData>>)
    ensures
        apply_all(s, messages) == apply_all(s, decoded(messages)),
    decreases messages.len(),
{
    if messages.len() > 0 {
        lemma_malformed_ignored(s, messages.drop_last());
        if messages.last() is Some {
            let d = decoded(messages.drop_last()).push(messages.last());
            assert(d.drop_last() =~= decoded(messages.drop_last()));
        }
    }
}

/// A message that did not decode leaves the record as it was, and a well
/// formed one after it is merged as usual.
pub proof fn lemma_malformed_then_valid(
    s: GameData,
    messages: Seq<Option<PartialGameData>>,
    p: PartialGameData,
)
    ensures
        apply_all(s, messages.push(None)) == apply_all(s, messages),
        apply_all(s, messages.push(None).push(Some(p))) == merged(apply_all(s, messages), p),
{
    assert(messages.push(None).drop_last() =~= messages);
    assert(messages.push(None).push(Some(p)).drop_last() =~= messages.push(None));
}

} // verus!
