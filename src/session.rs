use vstd::prelude::*;

verus! {

/// Delay before the first reconnect attempt, in seconds.
pub const BASE_BACKOFF_SECS: u64 = 5;

/// Largest delay between reconnect attempts, in seconds.
pub const MAX_BACKOFF_SECS: u64 = 60;

/// Period of the keepalive sent to a device, in seconds.
pub const HEARTBEAT_SECS: u64 = 10;

/// The delay that follows `d` after one more failure: doubled, at most the cap.
pub open spec fn next_delay(d: u64) -> u64 {
    if d >= MAX_BACKOFF_SECS / 2 {
        MAX_BACKOFF_SECS
    } else {
        (2 * d) as u64
    }
}

/// The wait before the reconnect that follows `k` earlier failures in a row.
pub open spec fn backoff_delay(k: nat) -> u64
    decreases k,
{
    if k == 0 {
        BASE_BACKOFF_SECS
    } else {
        next_delay(backoff_delay((k - 1) as nat))
    }
}

/// Where a device session stands.
#[derive(Debug, Clone, Copy, PartialEq, Eq, Structural)]
pub enum SessionPhase {
    /// Not connected; the next step is a connection attempt.
    Connecting,
    /// Connected: heartbeats, polls, readings and commands flow.
    Active,
}

/// What happened to a device session.
#[derive(Debug, Clone, Copy, PartialEq, Eq, Structural)]
pub enum SessionEvent {
    Connected,
    ConnectFailed,
    HeartbeatDue,
    HeartbeatFailed,
    PollDue,
    QueryFailed,
    /// Messages came from the device.
    MessagesReceived,
    /// The device's message stream ended.
    StreamEnded,
    /// The device's message stream reported a transport error.
    StreamError,
    /// A command arrived for the device.
    CommandReceived,
    /// Writing a command to the device failed.
    CommandWriteFailed,
}

/// What the session runner does next.
#[derive(Debug, Clone, Copy, PartialEq, Eq, Structural)]
pub enum SessionAction {
    /// Ask the device for all its datapoints.
    QueryAll,
    SendHeartbeat,
    /// Translate the received readings and send them on.
    ForwardReadings,
    /// Write the received command to the device.
    WriteCommand,
    /// Wait this many seconds, then connect again.
    Reconnect { delay_secs: u64 },
    /// Nothing to do.
    Continue,
}

/// Events on which an active session ends.
pub open spec fn ends_session(ev: SessionEvent) -> bool {
    ev == SessionEvent::ConnectFailed || ev == SessionEvent::HeartbeatFailed || ev
        == SessionEvent::QueryFailed || ev == SessionEvent::StreamEnded || ev
        == SessionEvent::StreamError
}

/// Connection supervision of one device: its phase and the current backoff delay.
#[derive(Debug, Clone, Copy)]
pub struct DeviceSession {
    pub phase: SessionPhase,
    pub delay_secs: u64,
}

impl DeviceSession {
    /// The session state and action that follow an event.
    pub open spec fn step(self, ev: SessionEvent) -> (DeviceSession, SessionAction) {
        if ends_session(ev) && (self.phase == SessionPhase::Active || ev
            == SessionEvent::ConnectFailed) {
            (
                DeviceSession { phase: SessionPhase::Connecting, delay_secs: next_delay(self.delay_secs) },
                SessionAction::Reconnect { delay_secs: self.delay_secs },
            )
        } else if ev == SessionEvent::Connected {
            (
                DeviceSession { phase: SessionPhase::Active, delay_secs: BASE_BACKOFF_SECS },
                SessionAction::QueryAll,
            )
        } else if self.phase == SessionPhase::Active {
            (
                self,
                match ev {
                    SessionEvent::HeartbeatDue => SessionAction::SendHeartbeat,
                    SessionEvent::PollDue => SessionAction::QueryAll,
                    SessionEvent::MessagesReceived => SessionAction::ForwardReadings,
                    SessionEvent::CommandReceived => SessionAction::WriteCommand,
                    _ => SessionAction::Continue,
                },
            )
        } else {
            (self, SessionAction::Continue)
        }
    }

    /// A session that is about to make its first connection attempt.
    pub fn new() -> (r: DeviceSession)
        ensures
            r.phase == SessionPhase::Connecting,
            r.delay_secs == BASE_BACKOFF_SECS,
    {
        DeviceSession { phase: SessionPhase::Connecting, delay_secs: BASE_BACKOFF_SECS }
    }

    /// Takes one event and says what to do. A failure to connect, to send a
    /// heartbeat or to query, or the end of the device's stream, ends the session
    /// and waits the current delay, which then doubles up to the cap. Connecting
    /// resets the delay and asks for all datapoints. A failed command write is
    /// not fatal.
    pub fn on_event(&mut self, ev: SessionEvent) -> (action: SessionAction)
        ensures
            (*final(self), action) == old(self).step(ev),
    {
        let ends = match ev {
            SessionEvent::ConnectFailed => true,
            SessionEvent::HeartbeatFailed => true,
            SessionEvent::QueryFailed => true,
            SessionEvent::StreamEnded => true,
            SessionEvent::StreamError => true,
            _ => false,
        };
        let active = match self.phase {
            SessionPhase::Active => true,
            SessionPhase::Connecting => false,
        };
        if ends && (active || matches!(ev, SessionEvent::ConnectFailed)) {
            let wait = self.delay_secs;
            self.delay_secs = if wait >= MAX_BACKOFF_SECS / 2 {
                MAX_BACKOFF_SECS
            } else {
                2 * wait
            };
            self.phase = SessionPhase::Connecting;
            return SessionAction::Reconnect { delay_secs: wait };
        }
        if matches!(ev, SessionEvent::Connected) {
            self.phase = SessionPhase::Active;
            self.delay_secs = BASE_BACKOFF_SECS;
            return SessionAction::QueryAll;
        }
        if !active {
            return SessionAction::Continue;
        }
        match ev {
            SessionEvent::HeartbeatDue => SessionAction::SendHeartbeat,
            SessionEvent::PollDue => SessionAction::QueryAll,
            SessionEvent::MessagesReceived => SessionAction::ForwardReadings,
            SessionEvent::CommandReceived => SessionAction::WriteCommand,
            _ => SessionAction::Continue,
        }
    }
}

/// Reconnect waits: 5, 10, 20, 40 seconds, then 60 seconds for every further
/// failure in a row.
pub proof fn lemma_backoff_sequence(k: nat)
    ensures
        backoff_delay(0) == 5,
        backoff_delay(1) == 10,
        backoff_delay(2) == 20,
        backoff_delay(3) == 40,
        k >= 4 ==> backoff_delay(k) == 60,
    decreases k,
{
    reveal_with_fuel(backoff_delay, 5);
    if k > 4 {
        lemma_backoff_sequence((k - 1) as nat);
    }
}

/// Repeated failures from a session whose delay was reset (as connecting does)
/// wait `backoff_delay(0)`, `backoff_delay(1)`, ... in turn: each step of the
/// trace is an event that ended the session and asked for a reconnect.
pub proof fn lemma_failures_follow_backoff(
    trace: Seq<DeviceSession>,
    events: Seq<SessionEvent>,
    waits: Seq<u64>,
)
    requires
        trace.len() == waits.len() + 1,
        events.len() == waits.len(),
        trace[0].delay_secs == BASE_BACKOFF_SECS,
        forall|i: int|
            0 <= i < waits.len() ==> #[trigger] trace[i].step(events[i]) == (
                trace[i + 1],
                SessionAction::Reconnect { delay_secs: waits[i] },
            ),
    ensures
        forall|i: int| 0 <= i < waits.len() ==> #[trigger] waits[i] == backoff_delay(i as nat),
{
    assert forall|i: int| 0 <= i < waits.len() implies #[trigger] waits[i] == backoff_delay(
        i as nat,
    ) by {
        lemma_delay_at(trace, events, waits, i);
        assert(trace[i].step(events[i]) == (
            trace[i + 1],
            SessionAction::Reconnect { delay_secs: waits[i] },
        ));
    }
}

proof fn lemma_delay_at(
    trace: Seq<DeviceSession>,
    events: Seq<SessionEvent>,
    waits: Seq<u64>,
    i: int,
)
    requires
        trace.len() == waits.len() + 1,
        events.len() == waits.len(),
        trace[0].delay_secs == BASE_BACKOFF_SECS,
        forall|j: int|
            0 <= j < waits.len() ==> #[trigger] trace[j].step(events[j]) == (
                trace[j + 1],
                SessionAction::Reconnect { delay_secs: waits[j] },
            ),
        0 <= i <= waits.len(),
    ensures
        trace[i].delay_secs == backoff_delay(i as nat),
    decreases i,
{
    if i > 0 {
        lemma_delay_at(trace, events, waits, i - 1);
        assert(trace[i - 1].step(events[i - 1]) == (
            trace[i],
            SessionAction::Reconnect { delay_secs: waits[i - 1] },
        ));
    }
}

/// After a connection, however long it lasted, the next failure waits the base
/// delay again.
pub proof fn lemma_reset_after_active(s: DeviceSession, ev: SessionEvent)
    requires
        ends_session(ev),
    ensures
        s.step(SessionEvent::Connected).0.step(ev).1 == (SessionAction::Reconnect {
            delay_secs: BASE_BACKOFF_SECS,
        }),
{
}

} // verus!
