//! The decisions of one WebSocket connection: protocol frames, heartbeat
//! and lifecycle, as a step function from state and event to the next
//! state and at most one action. The transport and the timers stay outside.
use crate::ids::random_id;
use crate::messages::{PostOfficeMessage, WsMessageToClient, WsMessageToServer, WsSessionMessage};
use crate::presence::ConnectionHandle;
use vstd::prelude::*;

verus! {

/// The heartbeat settings, in milliseconds: how often the connection is
/// checked, and how long it may stay silent.
#[derive(Clone, Copy, Debug, PartialEq, Eq, Structural)]
pub struct HeartbeatConfig {
    pub interval_ms: u64,
    pub timeout_ms: u64,
}

/// Where a connection is in its life.
#[derive(Clone, Copy, Debug, PartialEq, Eq, Structural)]
pub enum SessionPhase {
    Starting,
    Active,
    Stopping,
    Stopped,
}

/// What happens to a connection. `now` is a monotonic clock in
/// milliseconds; `time` is the wall clock in milliseconds, as mail carries it.
#[derive(Clone, Debug)]
pub enum SessionEvent {
    /// The transport was upgraded; `addr` is this connection's mailbox.
    Started { now: u64, addr: ConnectionHandle },
    Ping { now: u64, payload: Vec<u8> },
    Pong { now: u64 },
    /// A text frame, parsed as a client envelope; `None` when malformed.
    Text { now: u64, time: u32, message: Option<WsMessageToServer> },
    /// Any other frame: binary, continuation, no-op.
    Other { now: u64 },
    Close { now: u64 },
    /// The heartbeat timer fired.
    HeartbeatTick { now: u64 },
    /// The broker pushed a message for this connection.
    Push(WsSessionMessage),
    /// The transport is gone, whatever the cause.
    Stopped,
}

/// What the connection asks of the world outside.
#[derive(Clone, Debug)]
pub enum SessionAction {
    /// Send this command to the broker.
    Office(PostOfficeMessage),
    Pong(Vec<u8>),
    Ping,
    /// Write this message to the client.
    Write(WsMessageToClient),
    /// Echo the close frame and close the transport.
    Close,
    /// Stop the connection: the client timed out.
    Stop,
}

/// One connection's state.
#[derive(Clone, Debug)]
pub struct WsSession {
    pub user_id: String,
    pub session_id: String,
    /// When the last inbound activity was seen (monotonic milliseconds).
    pub heartbeat_time: u64,
    pub phase: SessionPhase,
    pub config: HeartbeatConfig,
}

/// Whether the client has been silent for longer than the timeout at `now`.
pub open spec fn timed_out(s: WsSession, now: u64) -> bool {
    now > s.heartbeat_time && now - s.heartbeat_time > s.config.timeout_ms
}

/// `s` with activity seen at `now`.
pub open spec fn touched(s: WsSession, now: u64) -> WsSession {
    WsSession { heartbeat_time: now, ..s }
}

/// `s` in phase `p`.
pub open spec fn in_phase(s: WsSession, p: SessionPhase) -> WsSession {
    WsSession { phase: p, ..s }
}

/// The next state and the action for one event.
pub open spec fn step_spec(s: WsSession, ev: SessionEvent) -> (WsSession, Option<SessionAction>) {
    match ev {
        SessionEvent::Stopped => if s.phase == SessionPhase::Stopped {
            (s, None)
        } else {
            (
                in_phase(s, SessionPhase::Stopped),
                Some(
                    SessionAction::Office(
                        PostOfficeMessage::Disconnect {
                            user_id: s.user_id,
                            session_id: s.session_id,
                        },
                    ),
                ),
            )
        },
        SessionEvent::Started { now, addr } => if s.phase == SessionPhase::Starting {
            (
                in_phase(touched(s, now), SessionPhase::Active),
                Some(
                    SessionAction::Office(
                        PostOfficeMessage::Connect {
                            user_id: s.user_id,
                            session_id: s.session_id,
                            session_addr: addr,
                        },
                    ),
                ),
            )
        } else {
            (s, None)
        },
        _ => if s.phase != SessionPhase::Active {
            (s, None)
        } else {
            match ev {
                SessionEvent::Ping { now, payload } => (
                    touched(s, now),
                    Some(SessionAction::Pong(payload)),
                ),
                SessionEvent::Pong { now } => (touched(s, now), None),
                SessionEvent::Text { now, time, message } => (
                    touched(s, now),
                    match message {
                        Some(WsMessageToServer::Mail(mail)) => Some(
                            SessionAction::Office(
                                PostOfficeMessage::Mail { sender_id: s.user_id, time, mail },
                            ),
                        ),
                        None => None,
                    },
                ),
                SessionEvent::Other { now } => (touched(s, now), None),
                SessionEvent::Close { now } => (
                    in_phase(touched(s, now), SessionPhase::Stopping),
                    Some(SessionAction::Close),
                ),
                SessionEvent::HeartbeatTick { now } => if timed_out(s, now) {
                    (in_phase(s, SessionPhase::Stopping), Some(SessionAction::Stop))
                } else {
                    (s, Some(SessionAction::Ping))
                },
                SessionEvent::Push(WsSessionMessage::WsMessage(m)) => (
                    s,
                    Some(SessionAction::Write(m)),
                ),
                _ => (s, None),
            }
        },
    }
}


/// Whether an action is a Disconnect command to the broker.
pub open spec fn is_disconnect(a: Option<SessionAction>) -> bool {
    a matches Some(SessionAction::Office(PostOfficeMessage::Disconnect { .. }))
}

/// The state after a sequence of events, and how many Disconnect commands
/// the connection issued on the way.
pub open spec fn run_session(s: WsSession, evs: Seq<SessionEvent>) -> (WsSession, nat)
    decreases evs.len(),
{
    if evs.len() == 0 {
        (s, 0)
    } else {
        let (s1, a) = step_spec(s, evs[0]);
        let (s2, n) = run_session(s1, evs.subrange(1, evs.len() as int));
        (s2, n + if is_disconnect(a) {
            1nat
        } else {
            0nat
        })
    }
}

/// Over any sequence of events a connection issues one Disconnect if it
/// reaches `Stopped` from another phase, and none otherwise; `Stopped` is
/// final.
pub proof fn lemma_single_disconnect(s: WsSession, evs: Seq<SessionEvent>)
    ensures
        s.phase == SessionPhase::Stopped ==> run_session(s, evs).0.phase == SessionPhase::Stopped,
        run_session(s, evs).1 == if s.phase != SessionPhase::Stopped && run_session(s, evs).0.phase
            == SessionPhase::Stopped {
            1nat
        } else {
            0nat
        },
    decreases evs.len(),
{
    if evs.len() > 0 {
        let (s1, a) = step_spec(s, evs[0]);
        lemma_single_disconnect(s1, evs.subrange(1, evs.len() as int));
    }
}

/// Heartbeat timeout: an active connection that has been silent for longer
/// than its timeout stops itself at the next heartbeat tick, and once its
/// transport is gone it has issued exactly one Disconnect, whatever events
/// follow.
pub proof fn lemma_heartbeat_timeout(s: WsSession, now: u64, rest: Seq<SessionEvent>)
    requires
        s.phase == SessionPhase::Active,
        timed_out(s, now),
    ensures
        step_spec(s, SessionEvent::HeartbeatTick { now }) == (
            in_phase(s, SessionPhase::Stopping),
            Some(SessionAction::Stop),
        ),
        ({
            let r = run_session(
                s,
                seq![SessionEvent::HeartbeatTick { now }, SessionEvent::Stopped] + rest,
            );
            r.0.phase == SessionPhase::Stopped && r.1 == 1
        }),
{
    let evs = seq![SessionEvent::HeartbeatTick { now }, SessionEvent::Stopped] + rest;
    let s1 = in_phase(s, SessionPhase::Stopping);
    let s2 = in_phase(s1, SessionPhase::Stopped);
    assert(evs[0] == SessionEvent::HeartbeatTick { now });
    let tail = evs.subrange(1, evs.len() as int);
    assert(tail[0] == SessionEvent::Stopped);
    assert(tail.subrange(1, tail.len() as int) =~= rest);
    lemma_single_disconnect(s2, rest);
    assert(step_spec(s1, SessionEvent::Stopped).0 == s2);
    assert(run_session(s1, tail).0 == run_session(s2, rest).0);
    assert(run_session(s1, tail).1 == 1);
    assert(run_session(s, evs).0 == run_session(s1, tail).0);
    assert(run_session(s, evs).1 == run_session(s1, tail).1);
}

impl WsSession {
    /// A connection of `user_id` that has not started, with a fresh random
    /// connection id of 21 characters.
    pub fn new(user_id: String, config: HeartbeatConfig, now: u64) -> (r: WsSession)
        ensures
            r.user_id == user_id,
            r.session_id@.len() == 21,
            r.heartbeat_time == now,
            r.phase == SessionPhase::Starting,
            r.config == config,
    {
        WsSession {
            user_id,
            session_id: random_id(21),
            heartbeat_time: now,
            phase: SessionPhase::Starting,
            config,
        }
    }

    /// Records inbound activity at `now`.
    pub fn reset_heartbeat_time(&mut self, now: u64)
        ensures
            *final(self) == touched(*old(self), now),
    {
        self.heartbeat_time = now;
    }

    /// Whether the client has been silent too long at `now`.
    pub fn is_timed_out(&self, now: u64) -> (r: bool)
        ensures
            r == timed_out(*self, now),
    {
        now > self.heartbeat_time && now - self.heartbeat_time > self.config.timeout_ms
    }

    /// Takes one event: updates the state and returns the action to perform.
    pub fn handle(&mut self, ev: SessionEvent) -> (r: Option<SessionAction>)
        ensures
            (*final(self), r) == step_spec(*old(self), ev),
    {
        match ev {
            SessionEvent::Stopped => {
                if self.phase == SessionPhase::Stopped {
                    None
                } else {
                    self.phase = SessionPhase::Stopped;
                    Some(
                        SessionAction::Office(
                            PostOfficeMessage::Disconnect {
                                user_id: self.user_id.clone(),
                                session_id: self.session_id.clone(),
                            },
                        ),
                    )
                }
            },
            SessionEvent::Started { now, addr } => {
                if self.phase == SessionPhase::Starting {
                    self.reset_heartbeat_time(now);
                    self.phase = SessionPhase::Active;
                    Some(
                        SessionAction::Office(
                            PostOfficeMessage::Connect {
                                user_id: self.user_id.clone(),
                                session_id: self.session_id.clone(),
                                session_addr: addr,
                            },
                        ),
                    )
                } else {
                    None
                }
            },
            _ => {
                if self.phase != SessionPhase::Active {
                    return None;
                }
                match ev {
                    SessionEvent::Ping { now, payload } => {
                        self.reset_heartbeat_time(now);
                        Some(SessionAction::Pong(payload))
                    },
                    SessionEvent::Pong { now } => {
                        self.reset_heartbeat_time(now);
                        None
                    },
                    SessionEvent::Text { now, time, message } => {
                        self.reset_heartbeat_time(now);
                        match message {
                            Some(WsMessageToServer::Mail(mail)) => Some(
                                SessionAction::Office(
                                    PostOfficeMessage::Mail {
                                        sender_id: self.user_id.clone(),
                                        time,
                                        mail,
                                    },
                                ),
                            ),
                            None => None,
                        }
                    },
                    SessionEvent::Other { now } => {
                        self.reset_heartbeat_time(now);
                        None
                    },
                    SessionEvent::Close { now } => {
                        self.reset_heartbeat_time(now);
                        self.phase = SessionPhase::Stopping;
                        Some(SessionAction::Close)
                    },
                    SessionEvent::HeartbeatTick { now } => {
                        if self.is_timed_out(now) {
                            self.phase = SessionPhase::Stopping;
                            Some(SessionAction::Stop)
                        } else {
                            Some(SessionAction::Ping)
                        }
                    },
                    SessionEvent::Push(WsSessionMessage::WsMessage(m)) => Some(
                        SessionAction::Write(m),
                    ),
                    _ => None,
                }
            },
        }
    }
}

} // verus!
