//! The retry-and-dispatch engine.
//!
//! A `Dispatcher` owns the bounded queue of accepted messages, the single
//! retry slot, and the knowledge of whether a live connection is held. It
//! makes every decision of the dispatch loop; whoever drives it performs the
//! action it asks for (wait, receive, connect, send, stop) and reports back
//! what happened. Time is a monotonic count of milliseconds supplied by the
//! driver.
//!
//! The queue's contents are held here, not in a channel shared between
//! tasks, so that they are part of the state that every decision and every
//! ordering proof speaks of; the driver only supplies the waiting for room
//! and for arrivals.
use std::collections::VecDeque;
use vstd::prelude::*;

verus! {

/// Number of messages the queue holds before `enqueue` reports it full.
pub const QUEUE_CAPACITY: usize = 1000;

/// Longest time, in milliseconds, that a single send attempt may take.
pub const SEND_TIMEOUT_MILLIS: u64 = 30000;

/// Fixed delay, in milliseconds, between a failure and the next attempt.
pub const RETRY_DELAY_MILLIS: u64 = 1000;

/// Why a message was not accepted into the queue.
#[derive(Clone, Copy, Debug, PartialEq, Eq, Structural)]
pub enum QueueError {
    /// The queue holds as many messages as its capacity allows.
    QueueFull,
    /// The queue was closed: no further messages are taken.
    QueueClosed,
}

/// What the driver of a dispatcher must do next.
#[derive(Clone, Copy, Debug, PartialEq, Eq, Structural)]
pub enum Action {
    /// Sleep until the given instant, then poll again.
    WaitUntil(u64),
    /// Nothing is ready: wait until a message is enqueued or the queue closes.
    Receive,
    /// Create a connection through the factory, then report the outcome.
    Connect,
    /// Send the current message, bounded by the send timeout, then report.
    Send,
    /// The queue is closed and drained: the loop ends.
    Stop,
}

/// The retry slot: empty, or one failed message with the instant from which
/// it may be attempted again.
pub enum RetryState<M> {
    Idle,
    PendingRetry { message: M, deadline: u64 },
}

/// Mathematical picture of a dispatcher.
pub struct DispatcherState<M> {
    /// Messages accepted and not yet taken out, oldest first.
    pub queue: Seq<M>,
    pub capacity: nat,
    /// The message awaiting retry and its deadline.
    pub retry: Option<(M, u64)>,
    /// The message taken out for delivery and not yet settled.
    pub in_flight: Option<M>,
    pub connected: bool,
    pub closed: bool,
    /// Every message ever accepted, in order of acceptance.
    pub accepted: Seq<M>,
    /// Every message whose send succeeded, in order of success.
    pub delivered: Seq<M>,
}

/// Deadline for the next attempt after a failure at `now`.
pub open spec fn retry_deadline(now: u64) -> u64 {
    if now + RETRY_DELAY_MILLIS > u64::MAX {
        u64::MAX
    } else {
        (now + RETRY_DELAY_MILLIS) as u64
    }
}

impl<M> DispatcherState<M> {
    /// The message of the retry slot, as a sequence of zero or one.
    pub open spec fn retry_part(self) -> Seq<M> {
        match self.retry {
            Some((m, _)) => seq![m],
            None => Seq::empty(),
        }
    }

    /// The in-flight message, as a sequence of zero or one.
    pub open spec fn in_flight_part(self) -> Seq<M> {
        match self.in_flight {
            Some(m) => seq![m],
            None => Seq::empty(),
        }
    }

    /// Accepted messages not yet delivered, in the order they will be sent.
    pub open spec fn outstanding(self) -> Seq<M> {
        self.retry_part() + self.in_flight_part() + self.queue
    }

    pub open spec fn wf(self) -> bool {
        &&& self.capacity > 0
        &&& self.queue.len() <= self.capacity
        &&& !(self.retry is Some && self.in_flight is Some)
        &&& self.accepted == self.delivered + self.outstanding()
    }

    /// Whether an accepted message still awaits delivery.
    pub open spec fn has_pending(self) -> bool {
        self.outstanding().len() > 0
    }

    /// What the driver is asked to do when it polls at `now`.
    pub open spec fn next_action(self, now: u64) -> Action {
        let ready = if self.connected {
            Action::Send
        } else {
            Action::Connect
        };
        match self.in_flight {
            Some(_) => ready,
            None => match self.retry {
                Some((_, deadline)) => if now < deadline {
                    Action::WaitUntil(deadline)
                } else {
                    ready
                },
                None => if self.queue.len() > 0 {
                    ready
                } else if self.closed {
                    Action::Stop
                } else {
                    Action::Receive
                },
            },
        }
    }

    /// The state after a poll at `now`: a due retry, or else the oldest queued
    /// message, becomes the in-flight message when none is in flight.
    pub open spec fn after_poll(self, now: u64) -> Self {
        match self.in_flight {
            Some(_) => self,
            None => match self.retry {
                Some((m, deadline)) => if now < deadline {
                    self
                } else {
                    DispatcherState { retry: None, in_flight: Some(m), ..self }
                },
                None => if self.queue.len() > 0 {
                    DispatcherState {
                        queue: self.queue.drop_first(),
                        in_flight: Some(self.queue[0]),
                        ..self
                    }
                } else {
                    self
                },
            },
        }
    }

    /// Outcome of offering `m` to the queue without waiting.
    pub open spec fn enqueue_result(self, m: M) -> Result<(), QueueError> {
        if self.closed {
            Err(QueueError::QueueClosed)
        } else if self.queue.len() >= self.capacity {
            Err(QueueError::QueueFull)
        } else {
            Ok(())
        }
    }

    /// The state after offering `m` to the queue without waiting.
    pub open spec fn after_enqueue(self, m: M) -> Self {
        if self.enqueue_result(m) is Ok {
            DispatcherState {
                queue: self.queue.push(m),
                accepted: self.accepted.push(m),
                ..self
            }
        } else {
            self
        }
    }

    /// The state after the queue is closed.
    pub open spec fn after_close(self) -> Self {
        DispatcherState { closed: true, ..self }
    }

    /// The state after the factory produced a connection.
    pub open spec fn after_connected(self) -> Self {
        DispatcherState { connected: true, ..self }
    }

    /// The in-flight message goes back to the retry slot, due at
    /// `retry_deadline(now)`.
    pub open spec fn rescheduled(self, now: u64) -> Self {
        match self.in_flight {
            Some(m) => DispatcherState {
                retry: Some((m, retry_deadline(now))),
                in_flight: None,
                ..self
            },
            None => self,
        }
    }

    /// The state after the factory failed at `now`.
    pub open spec fn after_connection_failed(self, now: u64) -> Self {
        DispatcherState { connected: false, ..self.rescheduled(now) }
    }

    /// The state after a send failed or timed out at `now`: the connection is
    /// presumed broken and the message awaits retry.
    pub open spec fn after_send_failed(self, now: u64) -> Self {
        DispatcherState { connected: false, ..self.rescheduled(now) }
    }

    /// The state after the in-flight message was sent.
    pub open spec fn after_send_succeeded(self) -> Self {
        match self.in_flight {
            Some(m) => DispatcherState {
                in_flight: None,
                delivered: self.delivered.push(m),
                ..self
            },
            None => self,
        }
    }
}


/// The dispatch engine of one publisher handle.
pub struct Dispatcher<M> {
    queue: VecDeque<M>,
    capacity: usize,
    retry: RetryState<M>,
    in_flight: Option<M>,
    connected: bool,
    closed: bool,
    accepted: Ghost<Seq<M>>,
    delivered: Ghost<Seq<M>>,
}

impl<M> View for Dispatcher<M> {
    type V = DispatcherState<M>;

    closed spec fn view(&self) -> DispatcherState<M> {
        DispatcherState {
            queue: self.queue@,
            capacity: self.capacity as nat,
            retry: match self.retry {
                RetryState::Idle => None,
                RetryState::PendingRetry { message, deadline } => Some((message, deadline)),
            },
            in_flight: self.in_flight,
            connected: self.connected,
            closed: self.closed,
            accepted: self.accepted@,
            delivered: self.delivered@,
        }
    }
}

impl<M> Dispatcher<M> {
    /// A dispatcher whose queue holds at most `capacity` messages. `connected`
    /// tells whether a live connection is already held.
    pub fn with_capacity(capacity: usize, connected: bool) -> (r: Self)
        requires
            capacity > 0,
        ensures
            r@.wf(),
            r@.queue.len() == 0,
            r@.capacity == capacity,
            r@.retry is None,
            r@.in_flight is None,
            r@.connected == connected,
            !r@.closed,
            r@.accepted.len() == 0,
            r@.delivered.len() == 0,
    {
        let r = Dispatcher {
            queue: VecDeque::new(),
            capacity,
            retry: RetryState::Idle,
            in_flight: None,
            connected,
            closed: false,
            accepted: Ghost(Seq::empty()),
            delivered: Ghost(Seq::empty()),
        };
        proof {
            assert(r@.accepted =~= r@.delivered + r@.outstanding());
        }
        r
    }

    /// A dispatcher with the default queue capacity, for a connection that
    /// was created at start-up.
    pub fn new() -> (r: Self)
        ensures
            r@.wf(),
            r@.queue.len() == 0,
            r@.capacity == QUEUE_CAPACITY,
            r@.retry is None,
            r@.in_flight is None,
            r@.connected,
            !r@.closed,
            r@.accepted.len() == 0,
            r@.delivered.len() == 0,
    {
        Dispatcher::with_capacity(QUEUE_CAPACITY, true)
    }

    /// Offers `m` to the queue without waiting: `QueueFull` when it is at
    /// capacity, `QueueClosed` once it was closed. A refused message is
    /// handed back.
    pub fn enqueue(&mut self, m: M) -> (r: Result<(), (QueueError, M)>)
        requires
            old(self)@.wf(),
        ensures
            match r {
                Ok(()) => old(self)@.enqueue_result(m) is Ok,
                Err((e, back)) => old(self)@.enqueue_result(m) == Err::<(), QueueError>(e)
                    && back == m,
            },
            final(self)@ == old(self)@.after_enqueue(m),
            final(self)@.wf(),
    {
        if self.closed {
            return Err((QueueError::QueueClosed, m));
        }
        if self.queue.len() >= self.capacity {
            return Err((QueueError::QueueFull, m));
        }
        self.queue.push_back(m);
        self.accepted = Ghost(self.accepted@.push(m));
        proof {
            assert(self@.accepted =~= self@.delivered + self@.outstanding());
        }
        Ok(())
    }

    /// Marks the queue closed: every handle is gone.
    pub fn close(&mut self)
        requires
            old(self)@.wf(),
        ensures
            final(self)@ == old(self)@.after_close(),
            final(self)@.wf(),
    {
        self.closed = true;
    }

    /// Whether an accepted message has not been sent yet.
    pub fn has_pending_messages(&self) -> (r: bool)
        requires
            self@.wf(),
        ensures
            r == self@.has_pending(),
    {
        self.in_flight.is_some() || !matches!(self.retry, RetryState::Idle) || self.queue.len() > 0
    }

    /// Number of messages waiting in the queue.
    pub fn queued(&self) -> (r: usize)
        ensures
            r == self@.queue.len(),
    {
        self.queue.len()
    }

    /// The message to hand to the connection when `Send` was asked for.
    pub fn current(&self) -> (r: Option<&M>)
        ensures
            match r {
                Some(m) => self@.in_flight == Some(*m),
                None => self@.in_flight is None,
            },
    {
        self.in_flight.as_ref()
    }
}

impl<M> Dispatcher<M> {
    /// Decides what the driver does next at `now`. When no message is in
    /// flight, a retry whose deadline has passed takes priority over the
    /// queue; its message, or else the oldest queued one, goes in flight.
    pub fn poll(&mut self, now: u64) -> (r: Action)
        requires
            old(self)@.wf(),
        ensures
            r == old(self)@.next_action(now),
            final(self)@ == old(self)@.after_poll(now),
            final(self)@.wf(),
    {
        if self.in_flight.is_none() {
            let mut retry = RetryState::Idle;
            std::mem::swap(&mut self.retry, &mut retry);
            match retry {
                RetryState::PendingRetry { message, deadline } => {
                    if now < deadline {
                        self.retry = RetryState::PendingRetry { message, deadline };
                        return Action::WaitUntil(deadline);
                    }
                    self.in_flight = Some(message);
                },
                RetryState::Idle => {
                    match self.queue.pop_front() {
                        Some(message) => {
                            self.in_flight = Some(message);
                        },
                        None => {
                            if self.closed {
                                return Action::Stop;
                            }
                            return Action::Receive;
                        },
                    }
                },
            }
            proof {
                assert(self@.accepted =~= self@.delivered + self@.outstanding());
            }
        }
        if self.connected {
            Action::Send
        } else {
            Action::Connect
        }
    }

    /// Records that the factory produced a live connection.
    pub fn connection_created(&mut self)
        requires
            old(self)@.wf(),
        ensures
            final(self)@ == old(self)@.after_connected(),
            final(self)@.wf(),
    {
        self.connected = true;
    }

    /// Puts the in-flight message back into the retry slot, due after the
    /// retry delay.
    fn reschedule(&mut self, now: u64)
        requires
            old(self)@.wf(),
        ensures
            final(self)@ == old(self)@.rescheduled(now),
            final(self)@.wf(),
    {
        match self.in_flight.take() {
            Some(message) => {
                self.retry = RetryState::PendingRetry {
                    message,
                    deadline: now.saturating_add(RETRY_DELAY_MILLIS),
                };
                proof {
                    assert(self@.accepted =~= self@.delivered + self@.outstanding());
                }
            },
            None => {},
        }
    }

    /// Records that the factory failed at `now`: the message waits out the
    /// retry delay before another connection attempt.
    pub fn connection_failed(&mut self, now: u64)
        requires
            old(self)@.wf(),
        ensures
            final(self)@ == old(self)@.after_connection_failed(now),
            final(self)@.wf(),
    {
        self.reschedule(now);
        self.connected = false;
    }

    /// Records that sending the in-flight message failed or timed out at
    /// `now`: the connection is dropped and the message awaits retry.
    pub fn send_failed(&mut self, now: u64)
        requires
            old(self)@.wf(),
        ensures
            final(self)@ == old(self)@.after_send_failed(now),
            final(self)@.wf(),
    {
        self.reschedule(now);
        self.connected = false;
    }

    /// Records that the in-flight message was sent; it is dropped.
    pub fn send_succeeded(&mut self)
        requires
            old(self)@.wf(),
        ensures
            final(self)@ == old(self)@.after_send_succeeded(),
            final(self)@.wf(),
    {
        match self.in_flight.take() {
            Some(message) => {
                self.delivered = Ghost(self.delivered@.push(message));
                proof {
                    assert(self@.accepted =~= self@.delivered + self@.outstanding());
                }
            },
            None => {},
        }
    }
}

/// Delivery follows acceptance: the messages sent so far are the oldest
/// accepted ones, in the order they were accepted, and whenever a poll puts a
/// message in flight it is the oldest accepted message not yet sent.
pub proof fn lemma_delivery_order<M>(s: DispatcherState<M>, now: u64)
    requires
        s.wf(),
    ensures
        s.delivered.len() <= s.accepted.len(),
        s.delivered == s.accepted.subrange(0, s.delivered.len() as int),
        s.after_poll(now).wf(),
        s.after_poll(now).accepted == s.accepted,
        s.after_poll(now).delivered == s.delivered,
        s.after_poll(now).in_flight is Some ==> s.after_poll(now).in_flight == Some(
            s.accepted[s.delivered.len() as int],
        ),
        s.in_flight is Some ==> s.after_send_succeeded().delivered == s.delivered.push(
            s.accepted[s.delivered.len() as int],
        ),
{
    assert(s.delivered =~= s.accepted.subrange(0, s.delivered.len() as int));
    let p = s.after_poll(now);
    if s.in_flight is None && s.retry is None && s.queue.len() > 0 {
        assert(p.outstanding() =~= s.outstanding());
    }
    if s.in_flight is None && s.retry is Some {
        assert(p.outstanding() =~= s.outstanding());
    }
    assert(p.outstanding() =~= s.outstanding());
    if s.outstanding().len() > 0 {
        assert(s.accepted[s.delivered.len() as int] == s.outstanding()[0]);
    }
    if s.in_flight is Some {
        assert(s.after_send_succeeded().delivered =~= s.delivered.push(
            s.accepted[s.delivered.len() as int],
        ));
    }
}

/// A message whose send fails is kept, not dropped: it waits in the retry
/// slot until the fixed delay after the failure has passed and is then the
/// next message attempted, ahead of everything queued behind it. This holds
/// after every failure, however many there are.
pub proof fn lemma_failed_send_is_retried<M>(s: DispatcherState<M>, now: u64, t: u64)
    requires
        s.wf(),
        s.in_flight is Some,
    ensures
        ({
            let f = s.after_send_failed(now);
            &&& f.wf()
            &&& f.accepted == s.accepted
            &&& f.delivered == s.delivered
            &&& f.outstanding() == s.outstanding()
            &&& f.retry == Some((s.in_flight->0, retry_deadline(now)))
            &&& t < retry_deadline(now) ==> f.next_action(t) == Action::WaitUntil(
                retry_deadline(now),
            ) && f.after_poll(t) == f
            &&& t >= retry_deadline(now) ==> f.after_poll(t).in_flight == s.in_flight
                && f.after_poll(t).outstanding() == s.outstanding()
        }),
        now + RETRY_DELAY_MILLIS <= u64::MAX ==> retry_deadline(now) == now + RETRY_DELAY_MILLIS,
{
    let f = s.after_send_failed(now);
    assert(f.outstanding() =~= s.outstanding());
    assert(f.after_poll(t).outstanding() =~= s.outstanding());
}

/// Only a connection reported by the factory allows a send: a failed send or
/// a failed factory call leaves the dispatcher without a connection, no
/// transition but `after_connected` gives one back, and without one a poll
/// never asks for a send.
pub proof fn lemma_send_needs_connection<M>(s: DispatcherState<M>, now: u64, t: u64, m: M)
    ensures
        !s.after_send_failed(now).connected,
        !s.after_connection_failed(now).connected,
        s.after_connected().connected,
        !s.connected ==> {
            &&& s.next_action(t) != Action::Send
            &&& !s.after_poll(t).connected
            &&& !s.after_enqueue(m).connected
            &&& !s.after_close().connected
            &&& !s.after_send_succeeded().connected
        },
{
}

/// When the factory fails, the message stays scheduled and the next factory
/// call waits for the retry delay: before the deadline a poll asks only to
/// wait, and from the deadline on it asks to connect.
pub proof fn lemma_factory_failure_waits<M>(s: DispatcherState<M>, now: u64, t: u64)
    requires
        s.wf(),
        s.in_flight is Some,
    ensures
        ({
            let f = s.after_connection_failed(now);
            &&& f.wf()
            &&& f.accepted == s.accepted
            &&& f.delivered == s.delivered
            &&& f.outstanding() == s.outstanding()
            &&& f.retry == Some((s.in_flight->0, retry_deadline(now)))
            &&& t < retry_deadline(now) ==> f.next_action(t) == Action::WaitUntil(
                retry_deadline(now),
            ) && f.after_poll(t) == f
            &&& t >= retry_deadline(now) ==> f.next_action(t) == Action::Connect
        }),
        now + RETRY_DELAY_MILLIS <= u64::MAX ==> retry_deadline(now) == now + RETRY_DELAY_MILLIS,
{
    let f = s.after_connection_failed(now);
    assert(f.outstanding() =~= s.outstanding());
}

/// A full queue refuses a message at once and is left as it was; as soon as
/// a poll takes a message out of the queue, there is room again.
pub proof fn lemma_full_queue_refuses<M>(s: DispatcherState<M>, m: M, now: u64)
    requires
        s.wf(),
        !s.closed,
        s.queue.len() == s.capacity,
    ensures
        s.enqueue_result(m) == Err::<(), QueueError>(QueueError::QueueFull),
        s.after_enqueue(m) == s,
        s.after_poll(now).queue.len() < s.queue.len() ==> s.after_poll(now).enqueue_result(m) is Ok,
        s.in_flight is None && s.retry is None ==> s.after_poll(now).queue.len() < s.queue.len(),
{
}

/// The state after `n` rounds, starting at `now`, in each of which the send
/// of the in-flight message fails, the dispatcher waits until the retry
/// comes due, and the factory reconnects.
pub open spec fn after_failed_rounds<M>(s: DispatcherState<M>, now: u64, n: nat) -> DispatcherState<M>
    decreases n,
{
    if n == 0 {
        s
    } else {
        let due = retry_deadline(now);
        after_failed_rounds(
            s.after_send_failed(now).after_poll(due).after_connected(),
            due,
            (n - 1) as nat,
        )
    }
}

/// However many times a send fails, the message is never dropped: each
/// round of failure, wait and reconnection leads back to the very state it
/// started from, with the same message in flight and nothing lost or added.
pub proof fn lemma_failures_never_drop<M>(s: DispatcherState<M>, now: u64, n: nat)
    requires
        s.wf(),
        s.in_flight is Some,
        s.connected,
    ensures
        after_failed_rounds(s, now, n) == s,
    decreases n,
{
    if n > 0 {
        let due = retry_deadline(now);
        assert(s.after_send_failed(now).after_poll(due).after_connected() == s);
        lemma_failures_never_drop(s, due, (n - 1) as nat);
    }
}

} // verus!
