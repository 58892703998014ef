//! The life of one client connection.
//!
//! A session runs four duties side by side: it reads frames from the peer,
//! writes its outbound queue to the peer, relays what the hub publishes, and
//! sends a keepalive ping at a fixed interval. The duties wait on the
//! transport and on timers, which is not this crate's business. Whenever one
//! of them has something to report it hands the session an event, and the
//! session answers with the one thing to do next.

use crate::point::{Point, WIRE_LEN};
use vstd::prelude::*;

verus! {

/// The seconds between two keepalive pings.
pub const KEEPALIVE_SECONDS: u64 = 30;

/// A frame of the transport, with what the session reads of it.
#[derive(Debug, Clone, PartialEq, Eq)]
pub enum Frame {
    Binary(Vec<u8>),
    Text,
    Ping(Vec<u8>),
    Pong(Vec<u8>),
    Close,
}

/// A frame with its payload as a sequence of bytes.
pub enum FrameView {
    Binary(Seq<u8>),
    Text,
    Ping(Seq<u8>),
    Pong(Seq<u8>),
    Close,
}

impl View for Frame {
    type V = FrameView;

    open spec fn view(&self) -> FrameView {
        match self {
            Frame::Binary(data) => FrameView::Binary(data@),
            Frame::Text => FrameView::Text,
            Frame::Ping(data) => FrameView::Ping(data@),
            Frame::Pong(data) => FrameView::Pong(data@),
            Frame::Close => FrameView::Close,
        }
    }
}

/// What a duty reports to its session.
#[derive(Debug, Clone, PartialEq, Eq)]
pub enum SessionEvent {
    /// The peer sent a frame.
    Received(Frame),
    /// The stream from the peer ended or failed.
    Disconnected,
    /// The hub delivered a committed write.
    Published(Point),
    /// The keepalive interval has passed.
    KeepaliveDue,
    /// The outbound queue did not take the keepalive ping.
    KeepaliveRefused,
    /// All four duties have been stopped.
    Stopped,
}

/// An event with its payload as a sequence of bytes.
pub enum EventView {
    Received(FrameView),
    Disconnected,
    Published(Point),
    KeepaliveDue,
    KeepaliveRefused,
    Stopped,
}

impl View for SessionEvent {
    type V = EventView;

    open spec fn view(&self) -> EventView {
        match self {
            SessionEvent::Received(frame) => EventView::Received(frame@),
            SessionEvent::Disconnected => EventView::Disconnected,
            SessionEvent::Published(write) => EventView::Published(*write),
            SessionEvent::KeepaliveDue => EventView::KeepaliveDue,
            SessionEvent::KeepaliveRefused => EventView::KeepaliveRefused,
            SessionEvent::Stopped => EventView::Stopped,
        }
    }
}

/// What the session asks for in answer to an event.
#[derive(Debug, Clone, PartialEq, Eq)]
pub enum SessionAction {
    /// Nothing is to be done.
    Nothing,
    /// Hand the write to the task that applies writes to the canvas.
    Submit(Point),
    /// Put the frame at the end of the session's outbound queue.
    Enqueue(Frame),
    /// Raise the session's cancellation signal, which stops all four duties
    /// where they stand.
    Cancel,
    /// Give up the hub subscription of this number, and the outbound queue.
    Release(u64),
}

/// An action with its payload as a sequence of bytes.
pub enum ActionView {
    Nothing,
    Submit(Point),
    Enqueue(FrameView),
    Cancel,
    Release(u64),
}

impl View for SessionAction {
    type V = ActionView;

    open spec fn view(&self) -> ActionView {
        match self {
            SessionAction::Nothing => ActionView::Nothing,
            SessionAction::Submit(write) => ActionView::Submit(*write),
            SessionAction::Enqueue(frame) => ActionView::Enqueue(frame@),
            SessionAction::Cancel => ActionView::Cancel,
            SessionAction::Release(subscription) => ActionView::Release(*subscription),
        }
    }
}

/// Where a session stands in its life.
#[derive(Debug, Clone, Copy, PartialEq, Eq, Structural)]
pub enum SessionState {
    /// The four duties are at work.
    Active,
    /// An end was detected and the cancellation signal is raised; the duties
    /// are being stopped.
    Closing,
    /// The duties are stopped, the subscription and the queue are given up.
    Closed,
}

impl SessionState {
    /// How far along its life a session is.
    pub open spec fn rank(self) -> nat {
        match self {
            SessionState::Active => 0,
            SessionState::Closing => 1,
            SessionState::Closed => 2,
        }
    }
}

/// What an active session does with a frame from the peer. A binary frame of
/// exactly eleven bytes is a pixel write and is submitted. A ping is answered
/// with a pong of the same payload, a pong is taken in silence. Anything
/// else, a close frame included, ends the session.
pub open spec fn on_frame(frame: FrameView) -> (SessionState, ActionView) {
    match frame {
        FrameView::Binary(data) => if data.len() == WIRE_LEN {
            (SessionState::Active, ActionView::Submit(Point::parse(data)->Some_0))
        } else {
            (SessionState::Closing, ActionView::Cancel)
        },
        FrameView::Ping(data) => (
            SessionState::Active,
            ActionView::Enqueue(FrameView::Pong(data)),
        ),
        FrameView::Pong(_) => (SessionState::Active, ActionView::Nothing),
        FrameView::Text => (SessionState::Closing, ActionView::Cancel),
        FrameView::Close => (SessionState::Closing, ActionView::Cancel),
    }
}

/// The state that follows `state` on `event`, and the action asked for.
///
/// While a session is active every event is answered. The first event that
/// ends it raises the cancellation signal. From then on nothing is submitted
/// or enqueued any more: what was in flight is lost. When the duties are
/// reported stopped the session is closed and gives up its subscription,
/// once; that holds too where they were stopped from outside, with no end
/// detected first.
pub open spec fn step(state: SessionState, subscription: u64, event: EventView) -> (
    SessionState,
    ActionView,
) {
    match state {
        SessionState::Active => match event {
            EventView::Received(frame) => on_frame(frame),
            EventView::Disconnected => (SessionState::Closing, ActionView::Cancel),
            EventView::Published(write) => (
                SessionState::Active,
                ActionView::Enqueue(FrameView::Binary(write.wire())),
            ),
            EventView::KeepaliveDue => (
                SessionState::Active,
                ActionView::Enqueue(FrameView::Ping(Seq::empty())),
            ),
            EventView::KeepaliveRefused => (SessionState::Closing, ActionView::Cancel),
            EventView::Stopped => (SessionState::Closed, ActionView::Release(subscription)),
        },
        SessionState::Closing => match event {
            EventView::Stopped => (SessionState::Closed, ActionView::Release(subscription)),
            _ => (SessionState::Closing, ActionView::Nothing),
        },
        SessionState::Closed => (SessionState::Closed, ActionView::Nothing),
    }
}

/// The state after a run of events, first to last.
pub open spec fn run_state(state: SessionState, subscription: u64, events: Seq<EventView>)
    -> SessionState
    decreases events.len(),
{
    if events.len() == 0 {
        state
    } else {
        step(run_state(state, subscription, events.drop_last()), subscription, events.last()).0
    }
}

/// The actions asked for over a run of events, one for each event.
pub open spec fn run_actions(state: SessionState, subscription: u64, events: Seq<EventView>)
    -> Seq<ActionView>
    decreases events.len(),
{
    if events.len() == 0 {
        Seq::empty()
    } else {
        run_actions(state, subscription, events.drop_last()).push(
            step(
                run_state(state, subscription, events.drop_last()),
                subscription,
                events.last(),
            ).1,
        )
    }
}

/// How many times `actions` raises the cancellation signal.
pub open spec fn cancels(actions: Seq<ActionView>) -> nat
    decreases actions.len(),
{
    if actions.len() == 0 {
        0
    } else if actions.last() is Cancel {
        cancels(actions.drop_last()) + 1
    } else {
        cancels(actions.drop_last())
    }
}

/// How many times `actions` gives up the subscription.
pub open spec fn releases(actions: Seq<ActionView>) -> nat
    decreases actions.len(),
{
    if actions.len() == 0 {
        0
    } else if actions.last() is Release {
        releases(actions.drop_last()) + 1
    } else {
        releases(actions.drop_last())
    }
}

/// One client session.
#[derive(Debug)]
pub struct Session {
    subscription: u64,
    state: SessionState,
}

impl Session {
    /// The state of the session.
    pub closed spec fn spec_state(&self) -> SessionState {
        self.state
    }

    /// The number of the session's hub subscription.
    pub closed spec fn spec_subscription(&self) -> u64 {
        self.subscription
    }

    /// A session that starts its life, on the hub subscription of the given
    /// number.
    pub fn open(subscription: u64) -> (session: Session)
        ensures
            session.state() == SessionState::Active,
            session.subscription() == subscription,
    {
        Session { subscription, state: SessionState::Active }
    }

    /// The state of the session.
    #[verifier::when_used_as_spec(spec_state)]
    pub fn state(&self) -> (state: SessionState)
        ensures
            state == self.spec_state(),
    {
        self.state
    }

    /// The number of the session's hub subscription.
    #[verifier::when_used_as_spec(spec_subscription)]
    pub fn subscription(&self) -> (subscription: u64)
        ensures
            subscription == self.spec_subscription(),
    {
        self.subscription
    }

    /// Takes an event from one of the duties, moves the session on, and
    /// answers with what is to be done.
    pub fn handle(&mut self, event: SessionEvent) -> (action: SessionAction)
        ensures
            final(self).subscription() == old(self).subscription(),
            (final(self).state(), action@) == step(
                old(self).state(),
                old(self).subscription(),
                event@,
            ),
    {
        match self.state {
            SessionState::Active => match event {
                SessionEvent::Received(Frame::Binary(data)) => {
                    let decoded = if data.len() == WIRE_LEN {
                        Point::from_byte(data.as_slice())
                    } else {
                        None
                    };
                    match decoded {
                        Some(write) => SessionAction::Submit(write),
                        None => {
                            self.state = SessionState::Closing;
                            SessionAction::Cancel
                        },
                    }
                },
                SessionEvent::Received(Frame::Ping(data)) => SessionAction::Enqueue(
                    Frame::Pong(data),
                ),
                SessionEvent::Received(Frame::Pong(_)) => SessionAction::Nothing,
                SessionEvent::Received(Frame::Text) => {
                    self.state = SessionState::Closing;
                    SessionAction::Cancel
                },
                SessionEvent::Received(Frame::Close) => {
                    self.state = SessionState::Closing;
                    SessionAction::Cancel
                },
                SessionEvent::Disconnected => {
                    self.state = SessionState::Closing;
                    SessionAction::Cancel
                },
                SessionEvent::Published(write) => SessionAction::Enqueue(
                    Frame::Binary(write.to_byte()),
                ),
                SessionEvent::KeepaliveDue => SessionAction::Enqueue(Frame::Ping(Vec::new())),
                SessionEvent::KeepaliveRefused => {
                    self.state = SessionState::Closing;
                    SessionAction::Cancel
                },
                SessionEvent::Stopped => {
                    self.state = SessionState::Closed;
                    SessionAction::Release(self.subscription)
                },
            },
            SessionState::Closing => match event {
                SessionEvent::Stopped => {
                    self.state = SessionState::Closed;
                    SessionAction::Release(self.subscription)
                },
                _ => SessionAction::Nothing,
            },
            SessionState::Closed => SessionAction::Nothing,
        }
    }
}

/// A session only ever moves forward: from active to closing to closed.
pub proof fn lemma_state_advances(state: SessionState, subscription: u64, event: EventView)
    ensures
        step(state, subscription, event).0.rank() >= state.rank(),
{
}

/// Once a session has left the active state it neither submits a write nor
/// enqueues a frame, whatever is reported to it.
pub proof fn lemma_quiet_once_ended(state: SessionState, subscription: u64, event: EventView)
    requires
        state != SessionState::Active,
    ensures
        step(state, subscription, event).1 is Nothing || step(state, subscription, event).1
            == ActionView::Release(subscription),
        step(state, subscription, event).0 != SessionState::Active,
{
}

/// A closed session stays closed and asks for nothing.
pub proof fn lemma_closed_is_final(subscription: u64, event: EventView)
    ensures
        step(SessionState::Closed, subscription, event) == (
            SessionState::Closed,
            ActionView::Nothing,
        ),
{
}

/// Over the whole life of a session, whatever is reported to it and in
/// whatever order, there is one action for each event, the cancellation
/// signal is raised at most once, and the subscription is given up once if
/// the session ends closed and not at all before. A session that is closing
/// has raised the signal, one that is active has not.
pub proof fn lemma_teardown_once(subscription: u64, events: Seq<EventView>)
    ensures
        run_actions(SessionState::Active, subscription, events).len() == events.len(),
        cancels(run_actions(SessionState::Active, subscription, events)) <= 1,
        match run_state(SessionState::Active, subscription, events) {
            SessionState::Active => {
                &&& cancels(run_actions(SessionState::Active, subscription, events)) == 0
                &&& releases(run_actions(SessionState::Active, subscription, events)) == 0
            },
            SessionState::Closing => {
                &&& cancels(run_actions(SessionState::Active, subscription, events)) == 1
                &&& releases(run_actions(SessionState::Active, subscription, events)) == 0
            },
            SessionState::Closed => releases(
                run_actions(SessionState::Active, subscription, events),
            ) == 1,
        },
    decreases events.len(),
{
    if events.len() > 0 {
        let earlier = events.drop_last();
        lemma_teardown_once(subscription, earlier);
        let before = run_state(SessionState::Active, subscription, earlier);
        let asked = run_actions(SessionState::Active, subscription, earlier);
        let last = step(before, subscription, events.last()).1;
        assert(run_actions(SessionState::Active, subscription, events) == asked.push(last));
        assert(asked.push(last).drop_last() == asked);
        assert(asked.push(last).last() == last);
    }
}

} // verus!
