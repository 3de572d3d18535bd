//! The per-connection session state machine, the telemetry envelopes it
//! sends, and the hub that owns the connection registry.
use vstd::prelude::*;
use crate::deps::{fresh_session_id, json_quoted, quote_json, utc_now_rfc3339};
use crate::registry::{AlreadyRegistered, ConnectionRegistry, Session};

verus! {

/// The JSON envelope `{"type": kind, "timestamp": ts, "data": data}`, where
/// `data` is already JSON text.
pub open spec fn envelope_text(kind: Seq<char>, ts: Seq<char>, data: Seq<char>) -> Seq<char> {
    "{\"type\":"@ + json_quoted(kind) + ",\"timestamp\":"@ + json_quoted(ts) + ",\"data\":"@ + data
        + "}"@
}

/// The JSON envelope of a named network event:
/// `{"type": "network_event", "event": event, "timestamp": ts, "data": data}`.
pub open spec fn event_envelope_text(event: Seq<char>, ts: Seq<char>, data: Seq<char>) -> Seq<
    char,
> {
    "{\"type\":"@ + json_quoted("network_event"@) + ",\"event\":"@ + json_quoted(event)
        + ",\"timestamp\":"@ + json_quoted(ts) + ",\"data\":"@ + data + "}"@
}

/// Builds `{"type": kind, "timestamp": ts, "data": data}`.
pub fn envelope(kind: &str, timestamp: &str, data: &str) -> (r: String)
    ensures
        r@ == envelope_text(kind@, timestamp@, data@),
{
    let mut out = String::from_str("{\"type\":");
    let k = quote_json(kind);
    out.append(k.as_str());
    out.append(",\"timestamp\":");
    let t = quote_json(timestamp);
    out.append(t.as_str());
    out.append(",\"data\":");
    out.append(data);
    out.append("}");
    out
}

/// The periodic telemetry envelope, of type `network_update`.
pub fn network_update_envelope(timestamp: &str, snapshot: &str) -> (r: String)
    ensures
        r@ == envelope_text("network_update"@, timestamp@, snapshot@),
{
    envelope("network_update", timestamp, snapshot)
}

/// The envelope announcing a created block, of type `block_created`.
pub fn block_created_envelope(timestamp: &str, block: &str) -> (r: String)
    ensures
        r@ == envelope_text("block_created"@, timestamp@, block@),
{
    envelope("block_created", timestamp, block)
}

/// The envelope announcing a named network event, of type `network_event`.
pub fn network_event_envelope(event: &str, timestamp: &str, data: &str) -> (r: String)
    ensures
        r@ == event_envelope_text(event@, timestamp@, data@),
{
    let mut out = String::from_str("{\"type\":");
    let k = quote_json("network_event");
    out.append(k.as_str());
    out.append(",\"event\":");
    let e = quote_json(event);
    out.append(e.as_str());
    out.append(",\"timestamp\":");
    let t = quote_json(timestamp);
    out.append(t.as_str());
    out.append(",\"data\":");
    out.append(data);
    out.append("}");
    out
}

/// Where a session is in its life. A session that is closing deregisters
/// and releases its transport in one step, so it passes from `Active`
/// straight to `Closed`.
#[derive(Clone, Copy, PartialEq, Eq, Structural, Debug)]
pub enum SessionState {
    /// Accepted, not yet registered.
    Connecting,
    /// Registered; inbound frames and timer ticks are handled.
    Active,
    /// Deregistered; nothing more is sent.
    Closed,
}

/// What a running session observes.
pub enum SessionEvent {
    /// The client sent a close frame.
    CloseFrame,
    /// The client sent a data frame; no command protocol is defined for it.
    DataFrame(String),
    /// Reading from the client failed.
    InboundError,
    /// The inbound stream ended without a close frame.
    InboundEnded,
    /// The broadcast timer elapsed; carries the current time and the JSON
    /// text of the telemetry snapshot.
    TimerElapsed { timestamp: String, snapshot: String },
    /// Sending to the client failed.
    SendFailed,
}

/// What the session's driver must do next.
pub enum SessionAction {
    /// Nothing.
    Nothing,
    /// Send this text frame to the client.
    Send(String),
    /// The session is deregistered: release the transport and stop.
    Release,
}

/// The event ends the session.
pub open spec fn ends_session(e: SessionEvent) -> bool {
    match e {
        SessionEvent::CloseFrame => true,
        SessionEvent::InboundError => true,
        SessionEvent::InboundEnded => true,
        SessionEvent::SendFailed => true,
        _ => false,
    }
}

/// The control state of one connection.
pub struct SessionLoop {
    /// The identifier the session is registered under.
    pub id: u128,
    /// When the connection was accepted, in milliseconds since the epoch.
    pub connected_at: u64,
    pub state: SessionState,
}

impl SessionLoop {
    /// A freshly accepted connection, not yet registered.
    pub fn new(id: u128, connected_at: u64) -> (r: SessionLoop)
        ensures
            r.id == id,
            r.connected_at == connected_at,
            r.state == SessionState::Connecting,
    {
        SessionLoop { id, connected_at, state: SessionState::Connecting }
    }
}

/// Accepts connections and owns the registry of live sessions.
pub struct WebSocketManager {
    pub connections: ConnectionRegistry,
}

impl WebSocketManager {
    pub open spec fn wf(&self) -> bool {
        self.connections.wf()
    }

    pub fn new() -> (r: WebSocketManager)
        ensures
            r.wf(),
            r.connections@ == Map::<u128, Session>::empty(),
    {
        WebSocketManager { connections: ConnectionRegistry::new() }
    }

    /// Number of live sessions.
    pub fn connection_count(&self) -> (r: usize)
        ensures
            r == self.connections@.len(),
    {
        self.connections.count()
    }

    /// Registers a connecting session and makes it active. A session that
    /// is not connecting, or whose identifier is already live, is left as
    /// it is and the registry is unchanged.
    pub fn activate(&mut self, session: &mut SessionLoop) -> (r: Result<(), AlreadyRegistered>)
        requires
            old(self).wf(),
        ensures
            final(self).wf(),
            final(session).id == old(session).id,
            final(session).connected_at == old(session).connected_at,
            old(session).state != SessionState::Connecting ==> (r is Ok && *final(session)
                == *old(session) && final(self).connections@ == old(self).connections@),
            old(session).state == SessionState::Connecting ==> {
                &&& r is Err <==> old(self).connections@.contains_key(old(session).id)
                &&& r is Err ==> *final(session) == *old(session) && final(self).connections@
                    == old(self).connections@
                &&& r is Ok ==> final(self).connections@.len() == old(self).connections@.len() + 1
                &&& r is Ok ==> final(session).state == SessionState::Active
                    && final(self).connections@ == old(self).connections@.insert(
                    old(session).id,
                    Session { id: old(session).id, connected_at: old(session).connected_at },
                )
            },
    {
        if session.state != SessionState::Connecting {
            return Ok(());
        }
        let entry = Session { id: session.id, connected_at: session.connected_at };
        match self.connections.register(entry) {
            Ok(()) => {
                session.state = SessionState::Active;
                Ok(())
            },
            Err(e) => Err(e),
        }
    }

    /// Accepts a new connection: draws a fresh identifier and registers an
    /// active session under it. Fails, changing nothing, only when the
    /// drawn identifier is already live.
    pub fn accept(&mut self, connected_at: u64) -> (r: Result<SessionLoop, AlreadyRegistered>)
        requires
            old(self).wf(),
        ensures
            final(self).wf(),
            r is Err ==> final(self).connections@ == old(self).connections@,
            r is Err ==> exists|k: u128| old(self).connections@.contains_key(k),
            r matches Ok(s) ==> {
                &&& s.state == SessionState::Active
                &&& final(self).connections@.len() == old(self).connections@.len() + 1
                &&& s.connected_at == connected_at
                &&& !old(self).connections@.contains_key(s.id)
                &&& final(self).connections@ == old(self).connections@.insert(
                    s.id,
                    Session { id: s.id, connected_at },
                )
            },
    {
        let id = fresh_session_id();
        let mut session = SessionLoop::new(id, connected_at);
        match self.activate(&mut session) {
            Ok(()) => Ok(session),
            Err(e) => Err(e),
        }
    }

    /// One step of a session: decides what an observed event leads to.
    /// While active, a close frame, an inbound error, the end of the
    /// inbound stream or a failed send deregisters the session, closes it
    /// and asks for the transport to be released; a timer tick asks for
    /// one `network_update` envelope to be sent; a data frame changes
    /// nothing. A session that is not active ignores every event, so
    /// nothing is sent once deregistration has happened.
    pub fn handle_event(&mut self, session: &mut SessionLoop, event: SessionEvent) -> (r:
        SessionAction)
        requires
            old(self).wf(),
        ensures
            final(self).wf(),
            final(session).id == old(session).id,
            final(session).connected_at == old(session).connected_at,
            old(session).state != SessionState::Active ==> (r is Nothing && *final(session)
                == *old(session) && final(self).connections@ == old(self).connections@),
            old(session).state == SessionState::Active ==> if ends_session(event) {
                &&& r is Release
                &&& final(session).state == SessionState::Closed
                &&& final(self).connections@ == old(self).connections@.remove(old(session).id)
                &&& !final(self).connections@.contains_key(old(session).id)
                &&& final(self).connections@.len() == if old(self).connections@.contains_key(
                    old(session).id,
                ) {
                    old(self).connections@.len() - 1
                } else {
                    old(self).connections@.len() as int
                }
            } else {
                &&& final(session).state == SessionState::Active
                &&& final(self).connections@ == old(self).connections@
                &&& match event {
                    SessionEvent::TimerElapsed { timestamp, snapshot } => r matches SessionAction::Send(
                        text,
                    ) && text@ == envelope_text("network_update"@, timestamp@, snapshot@),
                    _ => r is Nothing,
                }
            },
    {
        if session.state != SessionState::Active {
            return SessionAction::Nothing;
        }
        match event {
            SessionEvent::DataFrame(_) => SessionAction::Nothing,
            SessionEvent::TimerElapsed { timestamp, snapshot } => {
                SessionAction::Send(network_update_envelope(timestamp.as_str(), snapshot.as_str()))
            },
            _ => {
                self.connections.deregister(session.id);
                session.state = SessionState::Closed;
                SessionAction::Release
            },
        }
    }

    /// A timer tick of a session, stamped with the current time: for an
    /// active session, the `network_update` envelope of `snapshot` to send.
    pub fn on_timer(&mut self, session: &mut SessionLoop, snapshot: String) -> (r: SessionAction)
        requires
            old(self).wf(),
        ensures
            final(self).wf(),
            *final(session) == *old(session),
            final(self).connections@ == old(self).connections@,
            old(session).state != SessionState::Active ==> r is Nothing,
            old(session).state == SessionState::Active ==> (r matches SessionAction::Send(text)
                && exists|ts: Seq<char>| text@ == envelope_text("network_update"@, ts, snapshot@)),
    {
        let timestamp = utc_now_rfc3339();
        let ghost ts = timestamp@;
        let r = self.handle_event(session, SessionEvent::TimerElapsed { timestamp, snapshot });
        proof {
            if old(session).state == SessionState::Active {
                assert(r matches SessionAction::Send(text) && text@ == envelope_text(
                    "network_update"@,
                    ts,
                    snapshot@,
                ));
            }
        }
        r
    }

    /// The `block_created` envelope for a block given as JSON text, stamped
    /// with the current time. It is built only: no session is sent it.
    pub fn broadcast_block_created(&self, block: &str) -> (r: String)
        ensures
            exists|ts: Seq<char>| r@ == envelope_text("block_created"@, ts, block@),
    {
        let timestamp = utc_now_rfc3339();
        block_created_envelope(timestamp.as_str(), block)
    }

    /// The `network_event` envelope for a named event, stamped with the
    /// current time. It is built only: no session is sent it.
    pub fn broadcast_network_event(&self, event: &str, data: &str) -> (r: String)
        ensures
            exists|ts: Seq<char>| r@ == event_envelope_text(event@, ts, data@),
    {
        let timestamp = utc_now_rfc3339();
        network_event_envelope(event, timestamp.as_str(), data)
    }
}

impl Default for WebSocketManager {
    fn default() -> (r: WebSocketManager)
        ensures
            r.wf(),
            r.connections@ == Map::<u128, Session>::empty(),
    {
        WebSocketManager::new()
    }
}

} // verus!
