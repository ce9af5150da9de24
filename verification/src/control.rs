//! The running session: a state machine that the I/O loop drives. Each
//! event (terminal output, a client message, a watchdog tick, the client
//! program exiting) yields the next state and one action to perform.

use vstd::prelude::*;
use crate::session::PtyDimensions;

verus! {

/// What `serde_json` reads as the string member `key` of the JSON document
/// `text`: `None` unless `text` parses, is an object, and has that member
/// holding a string.
pub uninterp spec fn json_string_member(text: Seq<char>, key: Seq<char>) -> Option<Seq<char>>;

/// What `serde_json` reads as the unsigned integer member `key` of the JSON
/// document `text`: `None` unless `text` parses, is an object, and has that
/// member holding a number written as an integer (no fraction, no exponent:
/// `40.0` and `4e1` give `None`) that is non-negative and fits in 64 bits.
pub uninterp spec fn json_u64_member(text: Seq<char>, key: Seq<char>) -> Option<u64>;

/// Reads a string member of a JSON text.
///
/// Calls `serde_json::from_str::<serde_json::Value>`, indexes the value with
/// `key` (`Value`'s `Index<&str>`, which gives `Null` for a missing member
/// or a non-object) and reads it with `Value::as_str`. The contract claims
/// only that the result is the name `json_string_member` of the arguments:
/// the JSON grammar itself is not restated.
#[verifier::external_body]
fn json_str_member(text: &str, key: &str) -> (r: Option<String>)
    ensures
        r.deep_view() == json_string_member(text@, key@),
{
    match serde_json::from_str::<serde_json::Value>(text) {
        Ok(v) => match v[key].as_str() {
            Some(s) => Some(s.to_string()),
            None => None,
        },
        Err(_) => None,
    }
}

/// Reads an unsigned integer member of a JSON text.
///
/// Calls `serde_json::from_str::<serde_json::Value>`, indexes the value with
/// `key` and reads it with `Value::as_u64`. The contract claims only that
/// the result is the name `json_u64_member` of the arguments.
#[verifier::external_body]
fn json_u64_member_of(text: &str, key: &str) -> (r: Option<u64>)
    ensures
        r == json_u64_member(text@, key@),
{
    match serde_json::from_str::<serde_json::Value>(text) {
        Ok(v) => v[key].as_u64(),
        Err(_) => None,
    }
}

/// The resize a text message asks for, given its `type`, `cols` and `rows`
/// members: only `"resize"` with both numbers present asks for one, and each
/// number is truncated to 16 bits.
pub open spec fn spec_resize_request(
    kind: Option<Seq<char>>,
    cols: Option<u64>,
    rows: Option<u64>,
) -> Option<PtyDimensions> {
    match (kind, cols, rows) {
        (Some(k), Some(c), Some(r)) => if k == "resize"@ {
            Some(PtyDimensions { rows: r as u16, cols: c as u16 })
        } else {
            None
        },
        _ => None,
    }
}

/// The resize a text message asks for, from its `type`, `cols` and `rows`
/// members.
pub fn resize_request(kind: Option<String>, cols: Option<u64>, rows: Option<u64>) -> (r: Option<
    PtyDimensions,
>)
    ensures
        r == spec_resize_request(kind.deep_view(), cols, rows),
{
    match (kind, cols, rows) {
        (Some(k), Some(c), Some(r)) => {
            let resize = String::from_str("resize");
            if k == resize {
                Some(PtyDimensions { rows: r as u16, cols: c as u16 })
            } else {
                None
            }
        },
        _ => None,
    }
}

/// The resize a client text message asks for.
pub open spec fn spec_text_resize(text: Seq<char>) -> Option<PtyDimensions> {
    spec_resize_request(
        json_string_member(text, "type"@),
        json_u64_member(text, "cols"@),
        json_u64_member(text, "rows"@),
    )
}

/// The resize a client text message asks for: a JSON object such as
/// `{"type":"resize","cols":120,"rows":40}`. Anything else asks for none.
pub fn text_resize(text: &str) -> (r: Option<PtyDimensions>)
    ensures
        r == spec_text_resize(text@),
{
    let kind = json_str_member(text, "type");
    let cols = json_u64_member_of(text, "cols");
    let rows = json_u64_member_of(text, "rows");
    resize_request(kind, cols, rows)
}

/// How long a session may go without terminal output or client input
/// before it is ended, in nanoseconds (30 minutes). Times on the session's
/// clock are in nanoseconds, the resolution at which the clock is read, so
/// the timeout compares exact durations.
pub const INACTIVITY_TIMEOUT_NANOS: u64 = 1_800_000_000_000;

/// How often the watchdog looks at the session's idle time, in seconds.
pub const WATCHDOG_PERIOD_SECS: u64 = 60;

/// Something that happened to a running session.
pub enum SessionEvent {
    /// A read from the terminal returned these bytes; none means end of file.
    PtyOutput(Vec<u8>),
    /// A read from the terminal failed.
    PtyFailed,
    /// The browser sent a binary message (keystrokes).
    ClientBinary(Vec<u8>),
    /// The browser sent a text message (control messages such as resize).
    ClientText(String),
    /// The browser sent a close frame.
    ClientClose,
    /// The browser sent a ping or pong.
    ClientOther,
    /// The browser's message stream ended or failed.
    ClientGone,
    /// The watchdog woke up.
    WatchdogTick,
    /// The client program exited.
    ChildExited,
}

/// What the I/O loop is to do after an event.
pub enum SessionAction {
    Nothing,
    /// Send these bytes to the browser as a binary message.
    SendToClient(Vec<u8>),
    /// Write these bytes to the terminal.
    WriteToPty(Vec<u8>),
    /// Resize the terminal.
    ResizePty(PtyDimensions),
    /// Send the browser a close frame and end the session.
    Close,
}

/// The state of a running session: whether it is still open, and when (in
/// nanoseconds on the session's clock) it last saw activity.
pub struct SessionState {
    pub open: bool,
    pub last_activity: u64,
}

/// Nanoseconds since the last activity at time `now`; zero if `now` is not
/// later (a clock reading cannot make a session idle for negative time).
pub open spec fn idle_nanos(s: SessionState, now: u64) -> nat {
    if now >= s.last_activity {
        (now - s.last_activity) as nat
    } else {
        0
    }
}

/// The same session, ended.
pub open spec fn ended(s: SessionState) -> SessionState {
    SessionState { open: false, last_activity: s.last_activity }
}

/// The same session, with activity at `now`.
pub open spec fn touched(s: SessionState, now: u64) -> SessionState {
    SessionState { open: s.open, last_activity: now }
}

/// One step of a session: the next state and the action, for an event that
/// happens at time `now`.
///
/// An ended session ignores everything. Terminal output is forwarded to the
/// browser and counts as activity; an empty read (end of file) or a failed
/// read ends the session. Binary input is written to the terminal and
/// counts as activity. A text message may resize the terminal and never
/// counts as activity. A close frame, the end of the browser's stream and
/// the exit of the client program end the session. Pings and pongs are
/// ignored. A watchdog tick ends the session once it has been idle for the
/// whole timeout.
pub open spec fn spec_step(s: SessionState, now: u64, e: SessionEvent) -> (SessionState, SessionAction) {
    if !s.open {
        (s, SessionAction::Nothing)
    } else {
        match e {
            SessionEvent::PtyOutput(data) => if data@.len() == 0 {
                (ended(s), SessionAction::Close)
            } else {
                (touched(s, now), SessionAction::SendToClient(data))
            },
            SessionEvent::PtyFailed => (ended(s), SessionAction::Close),
            SessionEvent::ClientBinary(data) => (touched(s, now), SessionAction::WriteToPty(data)),
            SessionEvent::ClientText(text) => match spec_text_resize(text@) {
                Some(d) => (s, SessionAction::ResizePty(d)),
                None => (s, SessionAction::Nothing),
            },
            SessionEvent::ClientClose => (ended(s), SessionAction::Close),
            SessionEvent::ClientOther => (s, SessionAction::Nothing),
            SessionEvent::ClientGone => (ended(s), SessionAction::Close),
            SessionEvent::WatchdogTick => if idle_nanos(s, now) >= INACTIVITY_TIMEOUT_NANOS {
                (ended(s), SessionAction::Close)
            } else {
                (s, SessionAction::Nothing)
            },
            SessionEvent::ChildExited => (ended(s), SessionAction::Close),
        }
    }
}

impl SessionState {
    /// A session that starts at time `now`.
    pub fn new(now: u64) -> (s: SessionState)
        ensures
            s.open,
            s.last_activity == now,
    {
        SessionState { open: true, last_activity: now }
    }

    /// Whether the session is still running.
    pub fn is_open(&self) -> (b: bool)
        ensures
            b == self.open,
    {
        self.open
    }

    /// Takes one event that happened at time `now` and says what to do.
    pub fn step(&mut self, now: u64, event: SessionEvent) -> (action: SessionAction)
        ensures
            (*final(self), action) == spec_step(*old(self), now, event),
    {
        if !self.open {
            return SessionAction::Nothing;
        }
        match event {
            SessionEvent::PtyOutput(data) => {
                if data.len() == 0 {
                    self.open = false;
                    SessionAction::Close
                } else {
                    self.last_activity = now;
                    SessionAction::SendToClient(data)
                }
            },
            SessionEvent::PtyFailed => {
                self.open = false;
                SessionAction::Close
            },
            SessionEvent::ClientBinary(data) => {
                self.last_activity = now;
                SessionAction::WriteToPty(data)
            },
            SessionEvent::ClientText(text) => match text_resize(text.as_str()) {
                Some(d) => SessionAction::ResizePty(d),
                None => SessionAction::Nothing,
            },
            SessionEvent::ClientClose => {
                self.open = false;
                SessionAction::Close
            },
            SessionEvent::ClientOther => SessionAction::Nothing,
            SessionEvent::ClientGone => {
                self.open = false;
                SessionAction::Close
            },
            SessionEvent::WatchdogTick => {
                let idle: u64 = if now >= self.last_activity {
                    now - self.last_activity
                } else {
                    0
                };
                if idle >= INACTIVITY_TIMEOUT_NANOS {
                    self.open = false;
                    SessionAction::Close
                } else {
                    SessionAction::Nothing
                }
            },
            SessionEvent::ChildExited => {
                self.open = false;
                SessionAction::Close
            },
        }
    }
}

/// Runs a session through a sequence of timed events, from state `s`:
/// the final state and the action taken for each event, in order.
pub open spec fn run(s: SessionState, events: Seq<(u64, SessionEvent)>) -> (SessionState, Seq<
    SessionAction,
>)
    decreases events.len(),
{
    if events.len() == 0 {
        (s, Seq::empty())
    } else {
        let (t, actions) = run(s, events.drop_last());
        let (u, a) = spec_step(t, events.last().0, events.last().1);
        (u, actions.push(a))
    }
}

/// An event that counts as activity: terminal output that is not end of
/// file, or binary input from the browser.
pub open spec fn is_activity(e: SessionEvent) -> bool {
    match e {
        SessionEvent::PtyOutput(data) => data@.len() > 0,
        SessionEvent::ClientBinary(_) => true,
        _ => false,
    }
}

/// Once a session has ended, no event changes it or makes it act.
pub proof fn lemma_ended_session_is_inert(s: SessionState, now: u64, e: SessionEvent)
    requires
        !s.open,
    ensures
        spec_step(s, now, e) == (s, SessionAction::Nothing),
{
}

/// A step answers `Close` exactly when it ends an open session, and a
/// session never reopens.
pub proof fn lemma_close_exactly_when_ending(s: SessionState, now: u64, e: SessionEvent)
    ensures
        (spec_step(s, now, e).1 is Close) <==> (s.open && !spec_step(s, now, e).0.open),
        spec_step(s, now, e).0.open ==> s.open,
{
}

/// Over any run, the browser is sent at most one close frame, and only a
/// run that ends the session sends it.
pub proof fn lemma_close_sent_at_most_once(s: SessionState, events: Seq<(u64, SessionEvent)>)
    ensures
        run(s, events).1.len() == events.len(),
        forall|i: int, j: int|
            0 <= i < j < events.len() ==> !(#[trigger] run(s, events).1[i] is Close
                && #[trigger] run(s, events).1[j] is Close),
        forall|i: int|
            0 <= i < events.len() && #[trigger] run(s, events).1[i] is Close ==> !run(
                s,
                events,
            ).0.open,
        run(s, events).0.open ==> s.open,
    decreases events.len(),
{
    if events.len() > 0 {
        let prev = events.drop_last();
        lemma_close_sent_at_most_once(s, prev);
        let (t, actions) = run(s, prev);
        let (u, a) = spec_step(t, events.last().0, events.last().1);
        lemma_close_exactly_when_ending(t, events.last().0, events.last().1);
        assert(run(s, events).1 == actions.push(a));
        assert forall|i: int, j: int|
            0 <= i < j < events.len() implies !(#[trigger] run(s, events).1[i] is Close
            && #[trigger] run(s, events).1[j] is Close) by {
            if j < prev.len() {
                assert(run(s, events).1[i] == actions[i]);
                assert(run(s, events).1[j] == actions[j]);
            } else {
                assert(run(s, events).1[i] == actions[i]);
                if actions[i] is Close {
                    assert(!t.open);
                }
            }
        }
        assert forall|i: int|
            0 <= i < events.len() && #[trigger] run(s, events).1[i] is Close implies !run(
            s,
            events,
        ).0.open by {
            if i < prev.len() {
                assert(run(s, events).1[i] == actions[i]);
                assert(!t.open);
            }
        }
    }
}

/// Activity keeps a session alive: after terminal output or browser input
/// at time `t`, a watchdog tick less than the timeout later leaves the
/// session running and does nothing.
pub proof fn lemma_activity_defers_watchdog(s: SessionState, t: u64, e: SessionEvent, now: u64)
    requires
        s.open,
        is_activity(e),
        t <= now,
        now < t + INACTIVITY_TIMEOUT_NANOS,
    ensures
        spec_step(s, t, e).0.open,
        spec_step(spec_step(s, t, e).0, now, SessionEvent::WatchdogTick) == (
            spec_step(s, t, e).0,
            SessionAction::Nothing,
        ),
{
}

/// An open session that has been idle for the whole timeout is ended by the
/// next watchdog tick.
pub proof fn lemma_idle_session_ends(s: SessionState, now: u64)
    requires
        s.open,
        idle_nanos(s, now) >= INACTIVITY_TIMEOUT_NANOS,
    ensures
        spec_step(s, now, SessionEvent::WatchdogTick) == (ended(s), SessionAction::Close),
{
}

/// A text message never counts as activity and never ends the session; at
/// most it resizes the terminal, as its resize request says.
pub proof fn lemma_text_only_resizes(s: SessionState, now: u64, text: String)
    requires
        s.open,
    ensures
        spec_step(s, now, SessionEvent::ClientText(text)).0 == s,
        spec_step(s, now, SessionEvent::ClientText(text)).1 == match spec_text_resize(text@) {
            Some(d) => SessionAction::ResizePty(d),
            None => SessionAction::Nothing,
        },
{
}

/// A resize message carries its two numbers over to the new size, each
/// changed only by truncation to 16 bits (so numbers that fit are kept
/// exactly); a message of another type, or one missing a number, asks for
/// no resize.
pub proof fn lemma_resize_carries_members(kind: Option<Seq<char>>, cols: Option<u64>, rows: Option<u64>)
    ensures
        kind == Some("resize"@) && cols is Some && rows is Some ==> {
            &&& spec_resize_request(kind, cols, rows) is Some
            &&& spec_resize_request(kind, cols, rows)->0.cols as int == cols->0 % 65536
            &&& spec_resize_request(kind, cols, rows)->0.rows as int == rows->0 % 65536
            &&& cols->0 <= u16::MAX ==> spec_resize_request(kind, cols, rows)->0.cols == cols->0
            &&& rows->0 <= u16::MAX ==> spec_resize_request(kind, cols, rows)->0.rows == rows->0
        },
        kind != Some("resize"@) ==> spec_resize_request(kind, cols, rows) is None,
        cols is None || rows is None ==> spec_resize_request(kind, cols, rows) is None,
{
    if kind == Some("resize"@) && cols is Some && rows is Some {
        let c = cols->0;
        let r = rows->0;
        assert((c as u16) as int == c % 65536) by (bit_vector);
        assert((r as u16) as int == r % 65536) by (bit_vector);
    }
}

/// A client text message asks for a resize exactly when its `type` member
/// is the string `"resize"` and its `cols` and `rows` members are unsigned
/// integers; the size is then those two numbers, truncated to 16 bits.
pub proof fn lemma_text_resize_from_members(text: Seq<char>)
    ensures
        spec_text_resize(text) is Some <==> (json_string_member(text, "type"@) == Some("resize"@)
            && json_u64_member(text, "cols"@) is Some && json_u64_member(text, "rows"@) is Some),
        spec_text_resize(text) is Some ==> {
            &&& spec_text_resize(text)->0.cols as int == json_u64_member(text, "cols"@)->0 % 65536
            &&& spec_text_resize(text)->0.rows as int == json_u64_member(text, "rows"@)->0 % 65536
        },
{
    lemma_resize_carries_members(
        json_string_member(text, "type"@),
        json_u64_member(text, "cols"@),
        json_u64_member(text, "rows"@),
    );
}

/// The inactivity timeout is thirty minutes.
pub proof fn lemma_timeout_is_thirty_minutes()
    ensures
        INACTIVITY_TIMEOUT_NANOS == 30 * 60 * 1_000_000_000,
{
}

/// What each event does to an open session, action by action: terminal
/// output of one or more bytes is sent to the browser exactly as read and
/// records activity at `now`; browser input is written to the terminal
/// exactly as received and records activity at `now`; an empty read, a
/// failed read, a close frame, the end of the browser's stream and the exit
/// of the client program end the session with a close frame and leave the
/// last activity as it was; pings and pongs change nothing.
pub proof fn lemma_open_session_events(s: SessionState, now: u64, data: Vec<u8>)
    requires
        s.open,
    ensures
        data@.len() > 0 ==> spec_step(s, now, SessionEvent::PtyOutput(data)) == (
            SessionState { open: true, last_activity: now },
            SessionAction::SendToClient(data),
        ),
        data@.len() == 0 ==> spec_step(s, now, SessionEvent::PtyOutput(data)) == (
            SessionState { open: false, last_activity: s.last_activity },
            SessionAction::Close,
        ),
        spec_step(s, now, SessionEvent::ClientBinary(data)) == (
            SessionState { open: true, last_activity: now },
            SessionAction::WriteToPty(data),
        ),
        spec_step(s, now, SessionEvent::PtyFailed) == (
            SessionState { open: false, last_activity: s.last_activity },
            SessionAction::Close,
        ),
        spec_step(s, now, SessionEvent::ClientClose) == (
            SessionState { open: false, last_activity: s.last_activity },
            SessionAction::Close,
        ),
        spec_step(s, now, SessionEvent::ClientGone) == (
            SessionState { open: false, last_activity: s.last_activity },
            SessionAction::Close,
        ),
        spec_step(s, now, SessionEvent::ChildExited) == (
            SessionState { open: false, last_activity: s.last_activity },
            SessionAction::Close,
        ),
        spec_step(s, now, SessionEvent::ClientOther) == (s, SessionAction::Nothing),
{
}

/// The watchdog ends an open session exactly when at least thirty minutes
/// have passed since its last activity, and otherwise changes nothing.
pub proof fn lemma_watchdog_threshold(s: SessionState, now: u64)
    requires
        s.open,
    ensures
        now >= s.last_activity && now - s.last_activity >= 1_800_000_000_000 ==> spec_step(
            s,
            now,
            SessionEvent::WatchdogTick,
        ) == (SessionState { open: false, last_activity: s.last_activity }, SessionAction::Close),
        !(now >= s.last_activity && now - s.last_activity >= 1_800_000_000_000) ==> spec_step(
            s,
            now,
            SessionEvent::WatchdogTick,
        ) == (s, SessionAction::Nothing),
{
}

} // verus!
