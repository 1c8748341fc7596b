//! The recorder's session with the message broker, as a state machine.
//!
//! The recorder connects, subscribes to its topic and then stores every message
//! that arrives. When the connection is lost it tries to reconnect, pausing
//! between failed attempts, and resumes listening once it is back. The machine
//! decides; the caller performs each action and reports what happened.
use vstd::prelude::*;

verus! {

/// Quality of service of the subscription: delivered at least once.
pub const QOS: i32 = 1i32;

/// Keep-alive interval of the connection, in seconds.
pub const KEEP_ALIVE_SECS: u64 = 30u64;

/// Protocol version code of MQTT 3.1.1.
pub const MQTT_VERSION: u32 = 4u32;

/// Whether the broker should drop the session state when the recorder connects.
pub const CLEAN_SESSION: bool = false;

/// Number of incoming messages buffered before they are read.
pub const STREAM_CAPACITY: usize = 25usize;

/// Pause between two failed reconnection attempts, in milliseconds.
pub const RECONNECT_DELAY_MILLIS: u64 = 1000u64;

/// Where the session stands.
#[derive(Clone, Copy, Debug, PartialEq, Eq)]
pub enum Phase {
    /// Waiting for the connection to the broker to be made.
    Connecting,
    /// Connected; waiting for the subscription to the topic.
    Subscribing,
    /// Subscribed; waiting for messages.
    Listening,
    /// The connection was lost; waiting for it to be made again.
    Reconnecting,
    /// The message stream has ended; the session is over.
    Finished,
    /// Connecting or subscribing failed; the session is over.
    Failed,
}

/// What the caller reports after performing an action.
#[derive(Clone, Copy, Debug, PartialEq, Eq)]
pub enum Event {
    Connected,
    ConnectFailed,
    Subscribed,
    SubscribeFailed,
    /// A message arrived on the stream.
    MessageArrived,
    /// The stream reported that the connection was lost.
    ConnectionLost,
    /// The stream has no more items.
    StreamEnded,
    Reconnected,
    ReconnectFailed,
}

/// What the caller is to do next.
#[derive(Clone, Copy, Debug, PartialEq, Eq)]
pub enum Action {
    /// Connect to the broker.
    Connect,
    /// Subscribe to the topic with this quality of service.
    Subscribe { qos: i32 },
    /// Wait for the next item of the message stream.
    AwaitMessage,
    /// Store the message that arrived, then wait for the next item of the stream.
    StorePayload,
    /// Try to reconnect.
    Reconnect,
    /// Pause for this many milliseconds, then try to reconnect.
    ReconnectAfter { millis: u64 },
    /// End the session normally.
    Stop,
    /// Give up with an error.
    Abort,
}

impl Phase {
    /// The events that can happen in this phase: those of the action the machine
    /// asked for when it entered it.
    pub open spec fn accepts(self, event: Event) -> bool {
        match self {
            Phase::Connecting => event == Event::Connected || event == Event::ConnectFailed,
            Phase::Subscribing => event == Event::Subscribed || event == Event::SubscribeFailed,
            Phase::Listening => event == Event::MessageArrived || event == Event::ConnectionLost
                || event == Event::StreamEnded,
            Phase::Reconnecting => event == Event::Reconnected || event == Event::ReconnectFailed,
            Phase::Finished => false,
            Phase::Failed => false,
        }
    }

    /// The phase that follows `event`, and the action to perform there.
    pub open spec fn transition(self, event: Event) -> (Phase, Action) {
        match (self, event) {
            (Phase::Connecting, Event::Connected) => (
                Phase::Subscribing,
                Action::Subscribe { qos: QOS },
            ),
            (Phase::Connecting, _) => (Phase::Failed, Action::Abort),
            (Phase::Subscribing, Event::Subscribed) => (Phase::Listening, Action::AwaitMessage),
            (Phase::Subscribing, _) => (Phase::Failed, Action::Abort),
            (Phase::Listening, Event::MessageArrived) => (Phase::Listening, Action::StorePayload),
            (Phase::Listening, Event::ConnectionLost) => (Phase::Reconnecting, Action::Reconnect),
            (Phase::Listening, _) => (Phase::Finished, Action::Stop),
            (Phase::Reconnecting, Event::Reconnected) => (Phase::Listening, Action::AwaitMessage),
            (Phase::Reconnecting, _) => (
                Phase::Reconnecting,
                Action::ReconnectAfter { millis: RECONNECT_DELAY_MILLIS },
            ),
            (p, _) => (p, Action::Stop),
        }
    }

    /// Whether the session is over.
    pub open spec fn is_over(self) -> bool {
        self == Phase::Finished || self == Phase::Failed
    }
}

/// The first phase of a session and the action that starts it.
pub fn start() -> (first: (Phase, Action))
    ensures
        first == (Phase::Connecting, Action::Connect),
{
    (Phase::Connecting, Action::Connect)
}

/// Whether `event` can happen in `phase`.
pub fn accepts(phase: Phase, event: Event) -> (ok: bool)
    ensures
        ok == phase.accepts(event),
{
    match phase {
        Phase::Connecting => match event {
            Event::Connected | Event::ConnectFailed => true,
            _ => false,
        },
        Phase::Subscribing => match event {
            Event::Subscribed | Event::SubscribeFailed => true,
            _ => false,
        },
        Phase::Listening => match event {
            Event::MessageArrived | Event::ConnectionLost | Event::StreamEnded => true,
            _ => false,
        },
        Phase::Reconnecting => match event {
            Event::Reconnected | Event::ReconnectFailed => true,
            _ => false,
        },
        Phase::Finished | Phase::Failed => false,
    }
}

/// The phase that follows `event` in `phase`, and the action to perform.
pub fn step(phase: Phase, event: Event) -> (next: (Phase, Action))
    requires
        phase.accepts(event),
    ensures
        next == phase.transition(event),
{
    match phase {
        Phase::Connecting => match event {
            Event::Connected => (Phase::Subscribing, Action::Subscribe { qos: QOS }),
            _ => (Phase::Failed, Action::Abort),
        },
        Phase::Subscribing => match event {
            Event::Subscribed => (Phase::Listening, Action::AwaitMessage),
            _ => (Phase::Failed, Action::Abort),
        },
        Phase::Listening => match event {
            Event::MessageArrived => (Phase::Listening, Action::StorePayload),
            Event::ConnectionLost => (Phase::Reconnecting, Action::Reconnect),
            _ => (Phase::Finished, Action::Stop),
        },
        Phase::Reconnecting => match event {
            Event::Reconnected => (Phase::Listening, Action::AwaitMessage),
            _ => (Phase::Reconnecting, Action::ReconnectAfter { millis: RECONNECT_DELAY_MILLIS }),
        },
        Phase::Finished => (Phase::Finished, Action::Stop),
        Phase::Failed => (Phase::Failed, Action::Stop),
    }
}

/// Where a session that starts connecting stands after `events`, with the actions
/// asked for along the way (the first being `Connect`); `None` where an event could
/// not have happened.
pub open spec fn run(events: Seq<Event>) -> Option<(Phase, Seq<Action>)>
    decreases events.len(),
{
    if events.len() == 0 {
        Some((Phase::Connecting, seq![Action::Connect]))
    } else {
        match run(events.drop_last()) {
            Some((phase, actions)) => if phase.accepts(events.last()) {
                let (next, action) = phase.transition(events.last());
                Some((next, actions.push(action)))
            } else {
                None
            },
            None => None,
        }
    }
}

/// Once a session is over, nothing more can happen in it.
pub proof fn lemma_over_is_final(phase: Phase, event: Event)
    requires
        phase.is_over(),
    ensures
        !phase.accepts(event),
{
}

/// A lost connection never ends the session: while reconnecting, both a failed and
/// a successful attempt can be reported; a failed one is followed by a pause of one
/// second and another attempt, and a successful one by listening again.
pub proof fn lemma_reconnection_persists()
    ensures
        Phase::Reconnecting.accepts(Event::ReconnectFailed),
        Phase::Reconnecting.accepts(Event::Reconnected),
        Phase::Reconnecting.transition(Event::ReconnectFailed) == (
            Phase::Reconnecting,
            Action::ReconnectAfter { millis: 1000 },
        ),
        Phase::Reconnecting.transition(Event::Reconnected) == (
            Phase::Listening,
            Action::AwaitMessage,
        ),
{
}

/// Every message that arrives while listening is stored, and listening goes on.
pub proof fn lemma_messages_are_stored()
    ensures
        Phase::Listening.transition(Event::MessageArrived) == (
            Phase::Listening,
            Action::StorePayload,
        ),
{
}

/// Along any run, one action is asked for per event after the first `Connect`, and
/// listening (with all that can follow it) is reached only through a successful
/// subscription.
pub proof fn lemma_run_shape(events: Seq<Event>)
    requires
        run(events) is Some,
    ensures
        run(events).unwrap().1.len() == events.len() + 1,
        run(events).unwrap().1[0] == Action::Connect,
        (run(events).unwrap().0 != Phase::Connecting && run(events).unwrap().0 != Phase::Subscribing
            && run(events).unwrap().0 != Phase::Failed) ==> events.contains(Event::Subscribed),
    decreases events.len(),
{
    if events.len() > 0 {
        let prefix = events.drop_last();
        lemma_run_shape(prefix);
        let phase = run(prefix).unwrap().0;
        if phase != Phase::Connecting && phase != Phase::Subscribing && phase != Phase::Failed {
            let i = choose|i: int| 0 <= i < prefix.len() && prefix[i] == Event::Subscribed;
            assert(events[i] == Event::Subscribed);
        } else if phase == Phase::Subscribing && events.last() == Event::Subscribed {
            assert(events[events.len() - 1] == Event::Subscribed);
        }
    }
}

/// No message is stored before the subscription to the topic has succeeded: in a
/// session that starts by connecting, the action at position `k` answers the event
/// at position `k - 1`, and every `StorePayload` comes after a `Subscribed` event.
pub proof fn lemma_store_only_after_subscribe(events: Seq<Event>)
    requires
        run(events) is Some,
    ensures
        forall|k: int|
            0 <= k < run(events).unwrap().1.len() && #[trigger] run(events).unwrap().1[k]
                == Action::StorePayload ==> exists|j: int|
                0 <= j < k - 1 && events[j] == Event::Subscribed,
    decreases events.len(),
{
    lemma_run_shape(events);
    if events.len() > 0 {
        let prefix = events.drop_last();
        lemma_store_only_after_subscribe(prefix);
        lemma_run_shape(prefix);
        let (phase, before) = run(prefix).unwrap();
        let actions = run(events).unwrap().1;
        assert forall|k: int|
            0 <= k < actions.len() && #[trigger] actions[k] == Action::StorePayload implies exists|
                j: int,
            |
                0 <= j < k - 1 && events[j] == Event::Subscribed by {
            if k < before.len() {
                assert(before[k] == Action::StorePayload);
                let j = choose|j: int| 0 <= j < k - 1 && prefix[j] == Event::Subscribed;
                assert(events[j] == Event::Subscribed);
            } else {
                assert(phase == Phase::Listening);
                let j = choose|j: int| 0 <= j < prefix.len() && prefix[j] == Event::Subscribed;
                assert(events[j] == Event::Subscribed);
            }
        }
    }
}

/// Appending one event to a run takes one step of the machine.
proof fn lemma_run_push(events: Seq<Event>, event: Event)
    ensures
        run(events.push(event)) == match run(events) {
            Some((phase, actions)) => if phase.accepts(event) {
                Some((phase.transition(event).0, actions.push(phase.transition(event).1)))
            } else {
                None
            },
            None => None,
        },
{
    assert(events.push(event).drop_last() =~= events);
}

/// Whatever the machine asks for, every outcome of it can be reported: after
/// `Connect` both a connection and a failure, after `Subscribe` (with quality of
/// service 1) both a subscription and a failure, after waiting for or storing a
/// message a new message, a lost connection and the end of the stream, after a
/// reconnection attempt both its success and its failure; and after `Stop` or
/// `Abort` the session is over.
pub proof fn lemma_every_outcome_can_happen(events: Seq<Event>)
    requires
        run(events) is Some,
    ensures
        ({
            let (phase, actions) = run(events).unwrap();
            match actions.last() {
                Action::Connect => phase == Phase::Connecting && phase.accepts(Event::Connected)
                    && phase.accepts(Event::ConnectFailed),
                Action::Subscribe { qos } => qos == 1 && phase == Phase::Subscribing
                    && phase.accepts(Event::Subscribed) && phase.accepts(Event::SubscribeFailed),
                Action::AwaitMessage | Action::StorePayload => phase == Phase::Listening
                    && phase.accepts(Event::MessageArrived) && phase.accepts(Event::ConnectionLost)
                    && phase.accepts(Event::StreamEnded),
                Action::Reconnect | Action::ReconnectAfter { .. } => phase == Phase::Reconnecting
                    && phase.accepts(Event::Reconnected) && phase.accepts(Event::ReconnectFailed),
                Action::Stop => phase == Phase::Finished,
                Action::Abort => phase == Phase::Failed,
            }
        }),
{
    if events.len() > 0 {
        lemma_run_push(events.drop_last(), events.last());
        assert(events.drop_last().push(events.last()) =~= events);
    }
}

/// While listening, a new message is stored and listening goes on, a lost
/// connection leads to a reconnection attempt, and the end of the stream ends the
/// session, whatever came before.
pub proof fn lemma_listening_outcomes(events: Seq<Event>, actions: Seq<Action>)
    requires
        run(events) == Some((Phase::Listening, actions)),
    ensures
        run(events.push(Event::MessageArrived)) == Some(
            (Phase::Listening, actions.push(Action::StorePayload)),
        ),
        run(events.push(Event::ConnectionLost)) == Some(
            (Phase::Reconnecting, actions.push(Action::Reconnect)),
        ),
        run(events.push(Event::StreamEnded)) == Some((Phase::Finished, actions.push(Action::Stop))),
{
    lemma_run_push(events, Event::MessageArrived);
    lemma_run_push(events, Event::ConnectionLost);
    lemma_run_push(events, Event::StreamEnded);
}

/// While reconnecting, a failed attempt is followed by a one-second pause and
/// another attempt, and a successful one by waiting for messages, whatever came before.
pub proof fn lemma_reconnecting_outcomes(events: Seq<Event>, actions: Seq<Action>)
    requires
        run(events) == Some((Phase::Reconnecting, actions)),
    ensures
        run(events.push(Event::ReconnectFailed)) == Some(
            (Phase::Reconnecting, actions.push(Action::ReconnectAfter { millis: 1000 })),
        ),
        run(events.push(Event::Reconnected)) == Some(
            (Phase::Listening, actions.push(Action::AwaitMessage)),
        ),
{
    lemma_run_push(events, Event::ReconnectFailed);
    lemma_run_push(events, Event::Reconnected);
}

/// Connecting and then subscribing leads to listening; a failure at either step
/// aborts the session.
pub proof fn lemma_setup_outcomes()
    ensures
        run(seq![Event::Connected, Event::Subscribed]) == Some(
            (
                Phase::Listening,
                seq![Action::Connect, Action::Subscribe { qos: 1 }, Action::AwaitMessage],
            ),
        ),
        run(seq![Event::ConnectFailed]) == Some(
            (Phase::Failed, seq![Action::Connect, Action::Abort]),
        ),
        run(seq![Event::Connected, Event::SubscribeFailed]) == Some(
            (Phase::Failed, seq![Action::Connect, Action::Subscribe { qos: 1 }, Action::Abort]),
        ),
{
    let e0: Seq<Event> = seq![];
    lemma_run_push(e0, Event::Connected);
    lemma_run_push(e0, Event::ConnectFailed);
    assert(e0.push(Event::Connected) =~= seq![Event::Connected]);
    assert(e0.push(Event::ConnectFailed) =~= seq![Event::ConnectFailed]);
    lemma_run_push(seq![Event::Connected], Event::Subscribed);
    lemma_run_push(seq![Event::Connected], Event::SubscribeFailed);
    assert(seq![Event::Connected].push(Event::Subscribed) =~= seq![Event::Connected, Event::Subscribed]);
    assert(seq![Event::Connected].push(Event::SubscribeFailed) =~= seq![
        Event::Connected,
        Event::SubscribeFailed,
    ]);
    assert(seq![Action::Connect].push(Action::Subscribe { qos: 1 }) =~= seq![
        Action::Connect,
        Action::Subscribe { qos: 1 },
    ]);
    assert(seq![Action::Connect].push(Action::Abort) =~= seq![Action::Connect, Action::Abort]);
    assert(seq![Action::Connect, Action::Subscribe { qos: 1 }].push(Action::AwaitMessage) =~= seq![
        Action::Connect,
        Action::Subscribe { qos: 1 },
        Action::AwaitMessage,
    ]);
    assert(seq![Action::Connect, Action::Subscribe { qos: 1 }].push(Action::Abort) =~= seq![
        Action::Connect,
        Action::Subscribe { qos: 1 },
        Action::Abort,
    ]);
}

} // verus!
