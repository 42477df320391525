//! The connection state machine of one shard: its stage, session state and
//! heartbeat bookkeeping, and the pure decisions the driver executes.

use vstd::prelude::*;

use crate::error::Error;
use crate::event::{
    Event, IdentifyProperties, OpCode, ReceiveEventData, SendEventData,
};
use crate::dispatch::DispatchEvent;
use crate::intents::GatewayIntents;
use crate::json::JsonValue;

verus! {

/// Which partition of the event stream this connection carries: a
/// zero-based index and the total number of partitions.
///
/// On the wire the pair is always the two-element array `[id, total]`,
/// never an object.
#[derive(Debug, Clone, Copy, PartialEq, Eq, Structural, Hash)]
pub struct ShardInformation {
    /// The zero-based index of this shard.
    pub id: u64,
    /// The total number of shards.
    pub total: u64,
}

/// How a reconnect should re-enter the stream: by replaying the old
/// session or by starting a new one.
#[derive(Debug, Clone, Copy, PartialEq, Eq, Structural)]
pub enum ReconnectionKind {
    /// Start a new session.
    Identify,
    /// Replay the captured session.
    Resume,
}

/// What the state machine asks the driver to do after an inbound event.
#[derive(Debug, Clone, Copy, PartialEq, Eq, Structural)]
pub enum ShardAction {
    /// Send a heartbeat now.
    Heartbeat,
    /// Send an identify frame now.
    Identify,
    /// Tear the link down and reconnect the given way.
    Reconnect(ReconnectionKind),
}

/// Where in its lifecycle the connection stands.
#[derive(Debug, Clone, Copy, PartialEq, Eq, Structural)]
pub enum ConnectionStage {
    /// The transport is being opened.
    Connecting,
    /// A session is live: a `READY` or `RESUMED` dispatch arrived.
    Connected,
    /// The connection was torn down and waits for the driver to react.
    Disconnected,
    /// The transport is open and the remote end's hello is awaited.
    Handshake,
    /// An identify frame was sent and its `READY` is awaited.
    Identifying,
    /// A resume frame was sent and its replay is awaited.
    Resuming,
}

/// How a shard pair stands on the wire: the array `[id, total]`.
pub open spec fn is_shard_json(v: JsonValue, si: ShardInformation) -> bool {
    &&& v matches JsonValue::Array(items)
    &&& v->Array_0@.len() == 2
    &&& v->Array_0@[0] == JsonValue::UInt(si.id)
    &&& v->Array_0@[1] == JsonValue::UInt(si.total)
}

impl ShardInformation {
    /// The wire form of the pair: the array `[id, total]`.
    pub fn to_json(&self) -> (r: JsonValue)
        ensures
            is_shard_json(r, *self),
    {
        let mut items: Vec<JsonValue> = Vec::new();
        items.push(JsonValue::UInt(self.id));
        items.push(JsonValue::UInt(self.total));
        JsonValue::Array(items)
    }
}


/// One shard's connection state: everything the state machine reads and
/// writes, as plain values. The transport itself lives with the caller;
/// the fields are public so that specifications can speak of them.
#[derive(Debug)]
pub struct Shard {
    /// The address the connection was first opened at.
    pub websocket_url: String,
    /// Where in its lifecycle the connection stands.
    pub connection_stage: ConnectionStage,
    /// The heartbeat interval in milliseconds; unknown until a hello has
    /// been processed, and stable from then on until the next reset.
    pub heartbeat_interval: Option<u64>,
    /// When the last heartbeat, identify or resume was sent, as the
    /// caller's clock read in milliseconds.
    pub last_heartbeat_sent: Option<u64>,
    /// Whether the last heartbeat has been answered; false while one is in
    /// flight.
    pub last_heartbeat_received: bool,
    /// The highest dispatch sequence number seen since the last reset.
    pub sequence: u64,
    /// The session token a `READY` dispatch carried, if one ever did.
    pub session_id: Option<String>,
    /// The address a `READY` dispatch said to resume at, if one ever did.
    pub resume_url: Option<String>,
    /// This connection's partition of the stream.
    pub shard_information: Option<ShardInformation>,
    /// The caller's authentication token.
    pub token: String,
    /// The intent bits this connection identifies with.
    pub intents: GatewayIntents,
    /// The static client identification sent when identifying.
    pub properties: IdentifyProperties,
}

/// What the driver must do to resume a session: reopen the link at `url`,
/// then send `frame`.
#[derive(Debug)]
pub struct ResumePlan {
    /// Where to reopen the link.
    pub url: String,
    /// The resume envelope to send once the link is open.
    pub frame: Event,
}

/// What the driver must do to carry an action out: optionally reopen the
/// link first, then send one frame.
#[derive(Debug)]
pub struct ActionPlan {
    /// Reopen the link at this address first, when set.
    pub connect_to: Option<String>,
    /// The envelope to send.
    pub frame: Event,
}

/// The stored sequence after a dispatch carrying `s`: the maximum of the
/// stored value and the new one, so it never decreases.
pub open spec fn seq_after(cur: u64, s: Option<u64>) -> u64 {
    match s {
        Some(n) => if n > cur {
            n
        } else {
            cur
        },
        None => cur,
    }
}

/// The state after a reset: heartbeat bookkeeping cleared, the stage
/// `Disconnected`, the sequence zeroed; the captured session survives
/// exactly when the reset prepares a resume.
pub open spec fn reset_state(pre: Shard, resuming: bool, now_ms: u64) -> Shard {
    Shard {
        last_heartbeat_sent: Some(now_ms),
        last_heartbeat_received: true,
        heartbeat_interval: None,
        connection_stage: ConnectionStage::Disconnected,
        sequence: 0,
        session_id: if resuming {
            pre.session_id
        } else {
            None
        },
        resume_url: if resuming {
            pre.resume_url
        } else {
            None
        },
        ..pre
    }
}

/// The state after sending a heartbeat at `now_ms`.
pub open spec fn heartbeat_state(pre: Shard, now_ms: u64) -> Shard {
    Shard { last_heartbeat_sent: Some(now_ms), last_heartbeat_received: false, ..pre }
}

/// The state after sending an identify frame at `now_ms`.
pub open spec fn identify_state(pre: Shard, now_ms: u64) -> Shard {
    Shard { last_heartbeat_sent: Some(now_ms), connection_stage: ConnectionStage::Identifying, ..pre }
}

/// Whether the clock reading `now` still falls inside the heartbeat
/// interval that started at `last`; an unknown start does not.
pub open spec fn within_interval(last: Option<u64>, interval: u64, now: u64) -> bool {
    match last {
        Some(t) => now as int <= t as int + interval as int,
        None => false,
    }
}

/// The transition of the state machine on one received envelope: the next
/// state and the action the driver must carry out, if any.
pub open spec fn shard_step(pre: Shard, ev: Event, now_ms: u64) -> (Shard, Option<ShardAction>) {
    match ev.receive_data {
        None => (pre, None),
        Some(data) => match data {
            ReceiveEventData::Dispatch(de) => (
                match de {
                    DispatchEvent::Ready(ready) => Shard {
                        resume_url: Some(ready.resume_gateway_url),
                        session_id: Some(ready.session_id),
                        connection_stage: ConnectionStage::Connected,
                        last_heartbeat_received: true,
                        sequence: seq_after(pre.sequence, ev.sequence),
                        ..pre
                    },
                    DispatchEvent::Resumed => Shard {
                        connection_stage: ConnectionStage::Connected,
                        last_heartbeat_received: true,
                        last_heartbeat_sent: Some(now_ms),
                        sequence: seq_after(pre.sequence, ev.sequence),
                        ..pre
                    },
                    _ => Shard { sequence: seq_after(pre.sequence, ev.sequence), ..pre },
                },
                None,
            ),
            ReceiveEventData::Heartbeat => if pre.connection_stage == ConnectionStage::Handshake {
                (
                    Shard { connection_stage: ConnectionStage::Identifying, ..pre },
                    Some(ShardAction::Identify),
                )
            } else {
                (pre, Some(ShardAction::Heartbeat))
            },
            ReceiveEventData::Reconnect => (
                pre,
                Some(ShardAction::Reconnect(ReconnectionKind::Resume)),
            ),
            ReceiveEventData::InvalidSession(resumable) => (
                pre,
                Some(
                    ShardAction::Reconnect(
                        if resumable {
                            ReconnectionKind::Resume
                        } else {
                            ReconnectionKind::Identify
                        },
                    ),
                ),
            ),
            ReceiveEventData::Hello { heartbeat_interval } => {
                let st = Shard { heartbeat_interval: Some(heartbeat_interval), ..pre };
                if pre.connection_stage == ConnectionStage::Handshake {
                    (
                        Shard { connection_stage: ConnectionStage::Identifying, ..st },
                        Some(ShardAction::Identify),
                    )
                } else {
                    (
                        st,
                        Some(
                            ShardAction::Reconnect(
                                if pre.resume_url is Some {
                                    ReconnectionKind::Resume
                                } else {
                                    ReconnectionKind::Identify
                                },
                            ),
                        ),
                    )
                }
            },
            ReceiveEventData::HeartbeatAck => (
                Shard { last_heartbeat_received: true, ..pre },
                None,
            ),
        },
    }
}

/// Whether `ev` is the heartbeat frame quoting the stored sequence `seq`.
pub open spec fn is_heartbeat_frame(ev: Event, seq: u64) -> bool {
    &&& ev.op == OpCode::Heartbeat
    &&& ev.send_data == Some(SendEventData::Heartbeat(Some(seq)))
    &&& ev.receive_data is None
    &&& ev.sequence is None
    &&& ev.event is None
}

/// Whether `ev` is the identify frame of the state `s`: its token,
/// properties, shard pair and intents, with the wholly optional fields
/// unset.
pub open spec fn is_identify_frame(ev: Event, s: Shard) -> bool {
    &&& ev.op == OpCode::Identify
    &&& ev.receive_data is None
    &&& ev.sequence is None
    &&& ev.event is None
    &&& (ev.send_data matches Some(
        SendEventData::Identify { token, properties, compress, large_threshold, shard, intents },
    ) && token == s.token && properties == s.properties && compress is None
        && large_threshold is None && shard == s.shard_information && intents == s.intents)
}

/// Whether `ev` is the resume frame of the state `s`, replaying the
/// session `sid`.
pub open spec fn is_resume_frame(ev: Event, s: Shard, sid: String) -> bool {
    &&& ev.op == OpCode::Resume
    &&& ev.receive_data is None
    &&& ev.sequence is None
    &&& ev.event is None
    &&& (ev.send_data matches Some(SendEventData::Resume { token, session_id, sequence })
        && token == s.token && session_id == sid && sequence == s.sequence)
}

/// Where a resume must reopen the link: the captured resume address, or
/// the original one when none was ever captured.
pub open spec fn resume_target(s: Shard) -> Seq<char> {
    match s.resume_url {
        Some(u) => u@,
        None => s.websocket_url@,
    }
}

impl Shard {
    /// A fresh connection over a just-opened transport: stage `Handshake`,
    /// no session, no heartbeat bookkeeping, stock client identification.
    pub fn new(
        websocket_url: &str,
        token: &str,
        shard_information: ShardInformation,
        intents: GatewayIntents,
    ) -> (r: Shard)
        ensures
            r.websocket_url@ == websocket_url@,
            r.connection_stage == ConnectionStage::Handshake,
            r.heartbeat_interval is None,
            r.last_heartbeat_sent is None,
            r.last_heartbeat_received == false,
            r.sequence == 0,
            r.session_id is None,
            r.resume_url is None,
            r.shard_information == Some(shard_information),
            r.token@ == token@,
            r.intents == intents,
            r.properties.os@ == "unknown"@,
            r.properties.browser@ == "discors"@,
            r.properties.device@ == "discors"@,
    {
        Shard {
            websocket_url: String::from_str(websocket_url),
            connection_stage: ConnectionStage::Handshake,
            heartbeat_interval: None,
            last_heartbeat_sent: None,
            last_heartbeat_received: false,
            sequence: 0,
            session_id: None,
            resume_url: None,
            shard_information: Some(shard_information),
            token: String::from_str(token),
            intents,
            properties: IdentifyProperties::default(),
        }
    }

    /// Replaces the client identification sent with later identify frames.
    pub fn set_identify_properties(&mut self, properties: IdentifyProperties)
        ensures
            *final(self) == (Shard { properties, ..*old(self) }),
    {
        self.properties = properties;
    }

    /// Begins reopening the transport: the stage becomes `Connecting` and
    /// the caller must reconnect to the returned address.
    pub fn init(&mut self) -> (url: String)
        ensures
            *final(self) == (Shard { connection_stage: ConnectionStage::Connecting, ..*old(self) }),
            url@ == resume_target(*old(self)),
    {
        self.connection_stage = ConnectionStage::Connecting;
        match &self.resume_url {
            Some(u) => u.clone(),
            None => self.websocket_url.clone(),
        }
    }

    /// Clears the connection for a new attempt; the captured session
    /// survives exactly when `resuming` is set.
    pub fn reset(&mut self, resuming: bool, now_ms: u64)
        ensures
            *final(self) == reset_state(*old(self), resuming, now_ms),
    {
        self.last_heartbeat_sent = Some(now_ms);
        self.last_heartbeat_received = true;
        self.heartbeat_interval = None;
        self.connection_stage = ConnectionStage::Disconnected;
        self.sequence = 0;
        if !resuming {
            self.session_id = None;
            self.resume_url = None;
        }
    }

    /// Feeds one decode outcome to the state machine: on an event, the
    /// state moves by `shard_step` and the step's action is returned; a
    /// decode failure changes nothing and is handed back.
    pub fn handle_event(&mut self, event: Result<&Event, Error>, now_ms: u64) -> (r: Result<
        Option<ShardAction>,
        Error,
    >)
        ensures
            match event {
                Ok(ev) => *final(self) == shard_step(*old(self), *ev, now_ms).0 && r == Ok::<
                    Option<ShardAction>,
                    Error,
                >(shard_step(*old(self), *ev, now_ms).1),
                Err(e) => *final(self) == *old(self) && r == Err::<Option<ShardAction>, Error>(e),
            },
    {
        match event {
            Ok(ev) => {
                match &ev.receive_data {
                    None => Ok(None),
                    Some(data) => match data {
                        ReceiveEventData::Dispatch(de) => {
                            match de {
                                DispatchEvent::Ready(ready) => {
                                    self.resume_url = Some(ready.resume_gateway_url.clone());
                                    self.session_id = Some(ready.session_id.clone());
                                    self.connection_stage = ConnectionStage::Connected;
                                    self.last_heartbeat_received = true;
                                },
                                DispatchEvent::Resumed => {
                                    self.connection_stage = ConnectionStage::Connected;
                                    self.last_heartbeat_received = true;
                                    self.last_heartbeat_sent = Some(now_ms);
                                },
                                _ => (),
                            }
                            match ev.sequence {
                                Some(n) => if n > self.sequence {
                                    self.sequence = n;
                                },
                                None => (),
                            }
                            Ok(None)
                        },
                        ReceiveEventData::Heartbeat => {
                            if self.connection_stage == ConnectionStage::Handshake {
                                self.connection_stage = ConnectionStage::Identifying;
                                Ok(Some(ShardAction::Identify))
                            } else {
                                Ok(Some(ShardAction::Heartbeat))
                            }
                        },
                        ReceiveEventData::Reconnect => Ok(
                            Some(ShardAction::Reconnect(ReconnectionKind::Resume)),
                        ),
                        ReceiveEventData::InvalidSession(resumable) => Ok(
                            Some(
                                ShardAction::Reconnect(
                                    if *resumable {
                                        ReconnectionKind::Resume
                                    } else {
                                        ReconnectionKind::Identify
                                    },
                                ),
                            ),
                        ),
                        ReceiveEventData::Hello { heartbeat_interval } => {
                            self.heartbeat_interval = Some(*heartbeat_interval);
                            if self.connection_stage == ConnectionStage::Handshake {
                                self.connection_stage = ConnectionStage::Identifying;
                                Ok(Some(ShardAction::Identify))
                            } else {
                                Ok(
                                    Some(
                                        ShardAction::Reconnect(
                                            if self.resume_url.is_some() {
                                                ReconnectionKind::Resume
                                            } else {
                                                ReconnectionKind::Identify
                                            },
                                        ),
                                    ),
                                )
                            }
                        },
                        ReceiveEventData::HeartbeatAck => {
                            self.last_heartbeat_received = true;
                            Ok(None)
                        },
                    },
                }
            },
            Err(err) => Err(err),
        }
    }

    /// Builds the heartbeat frame quoting the stored sequence and records
    /// that one is now in flight.
    pub fn heartbeat(&mut self, now_ms: u64) -> (ev: Event)
        ensures
            *final(self) == heartbeat_state(*old(self), now_ms),
            is_heartbeat_frame(ev, old(self).sequence),
    {
        let frame = Event {
            op: OpCode::Heartbeat,
            receive_data: None,
            send_data: Some(SendEventData::Heartbeat(Some(self.sequence))),
            sequence: None,
            event: None,
        };
        self.last_heartbeat_sent = Some(now_ms);
        self.last_heartbeat_received = false;
        frame
    }

    /// The heartbeat timing policy, evaluated once per driver tick.
    ///
    /// With no interval learned yet, or still inside the interval, the
    /// policy is satisfied and nothing is sent. Past the interval with the
    /// previous heartbeat unanswered, the first value is false: the caller
    /// must escalate. Otherwise a heartbeat frame is handed out to send,
    /// and the state records it as in flight.
    pub fn do_heartbeat_interval(&mut self, now_ms: u64) -> (r: (bool, Option<Event>))
        ensures
            match old(self).heartbeat_interval {
                None => r.0 == true && r.1 is None && *final(self) == *old(self),
                Some(interval) => {
                    if within_interval(old(self).last_heartbeat_sent, interval, now_ms) {
                        r.0 == true && r.1 is None && *final(self) == *old(self)
                    } else if !old(self).last_heartbeat_received {
                        r.0 == false && r.1 is None && *final(self) == *old(self)
                    } else {
                        r.0 == true && *final(self) == heartbeat_state(*old(self), now_ms) && (
                        r.1 matches Some(ev) && is_heartbeat_frame(ev, old(self).sequence))
                    }
                },
            },
    {
        let interval = match self.heartbeat_interval {
            Some(i) => i,
            None => {
                return (true, None);
            },
        };
        match self.last_heartbeat_sent {
            Some(t) => {
                if now_ms < t || now_ms - t <= interval {
                    return (true, None);
                }
            },
            None => (),
        }
        if !self.last_heartbeat_received {
            return (false, None);
        }
        let frame = self.heartbeat(now_ms);
        (true, Some(frame))
    }

    /// Builds the identify frame of this connection and records the send:
    /// the stage becomes `Identifying`.
    pub fn identify(&mut self, now_ms: u64) -> (ev: Event)
        ensures
            *final(self) == identify_state(*old(self), now_ms),
            is_identify_frame(ev, *old(self)),
    {
        let props = IdentifyProperties {
            os: self.properties.os.clone(),
            browser: self.properties.browser.clone(),
            device: self.properties.device.clone(),
        };
        let frame = Event {
            op: OpCode::Identify,
            receive_data: None,
            send_data: Some(
                SendEventData::Identify {
                    token: self.token.clone(),
                    properties: props,
                    compress: None,
                    large_threshold: None,
                    shard: self.shard_information,
                    intents: self.intents,
                },
            ),
            sequence: None,
            event: None,
        };
        self.last_heartbeat_sent = Some(now_ms);
        self.connection_stage = ConnectionStage::Identifying;
        frame
    }

    /// Plans a resume: the stage becomes `Resuming`, and the caller gets
    /// the address to reopen and the resume frame quoting the captured
    /// session and the stored sequence. Without a captured session — no
    /// `READY` was ever processed since the last identify-reset — this
    /// fails, whatever the transport's state.
    pub fn resume(&mut self) -> (r: Result<ResumePlan, Error>)
        ensures
            *final(self) == (Shard { connection_stage: ConnectionStage::Resuming, ..*old(self) }),
            match r {
                Ok(plan) => old(self).session_id matches Some(sid) && plan.url@ == resume_target(
                    *old(self),
                ) && is_resume_frame(plan.frame, *old(self), sid),
                Err(e) => e == Error::NoSessionToResume && old(self).session_id is None,
            },
    {
        let url = match &self.resume_url {
            Some(u) => u.clone(),
            None => self.websocket_url.clone(),
        };
        self.connection_stage = ConnectionStage::Resuming;
        let sid = match &self.session_id {
            Some(s) => s.clone(),
            None => {
                return Err(Error::NoSessionToResume);
            },
        };
        let frame = Event {
            op: OpCode::Resume,
            receive_data: None,
            send_data: Some(
                SendEventData::Resume {
                    token: self.token.clone(),
                    session_id: sid,
                    sequence: self.sequence,
                },
            ),
            sequence: None,
            event: None,
        };
        Ok(ResumePlan { url, frame })
    }

    /// Carries one action of the state machine out, as the driver's single
    /// reaction to a tick: a heartbeat or identify is built directly; a
    /// reconnect first resets the connection — keeping the session exactly
    /// when it will be resumed — and then plans the resume or identify.
    pub fn apply_action(&mut self, action: ShardAction, now_ms: u64) -> (r: Result<
        ActionPlan,
        Error,
    >)
        ensures
            match action {
                ShardAction::Heartbeat => *final(self) == heartbeat_state(*old(self), now_ms) && (
                r matches Ok(p) && p.connect_to is None && is_heartbeat_frame(
                    p.frame,
                    old(self).sequence,
                )),
                ShardAction::Identify => *final(self) == identify_state(*old(self), now_ms) && (
                r matches Ok(p) && p.connect_to is None && is_identify_frame(
                    p.frame,
                    *old(self),
                )),
                ShardAction::Reconnect(kind) => {
                    let cleared = reset_state(*old(self), kind == ReconnectionKind::Resume, now_ms);
                    match kind {
                        ReconnectionKind::Identify => *final(self) == identify_state(
                            cleared,
                            now_ms,
                        ) && (r matches Ok(p) && p.connect_to is None && is_identify_frame(
                            p.frame,
                            cleared,
                        )),
                        ReconnectionKind::Resume => {
                            *final(self) == (Shard {
                                connection_stage: ConnectionStage::Resuming,
                                ..cleared
                            }) && match r {
                                Ok(p) => cleared.session_id matches Some(sid) && (
                                p.connect_to matches Some(u) && u@ == resume_target(cleared))
                                    && is_resume_frame(p.frame, cleared, sid),
                                Err(e) => e == Error::NoSessionToResume && cleared.session_id
                                    is None,
                            }
                        },
                    }
                },
            },
    {
        match action {
            ShardAction::Heartbeat => {
                let frame = self.heartbeat(now_ms);
                Ok(ActionPlan { connect_to: None, frame })
            },
            ShardAction::Identify => {
                let frame = self.identify(now_ms);
                Ok(ActionPlan { connect_to: None, frame })
            },
            ShardAction::Reconnect(kind) => {
                let resuming = match kind {
                    ReconnectionKind::Resume => true,
                    ReconnectionKind::Identify => false,
                };
                self.reset(resuming, now_ms);
                match kind {
                    ReconnectionKind::Resume => match self.resume() {
                        Ok(plan) => Ok(
                            ActionPlan { connect_to: Some(plan.url), frame: plan.frame },
                        ),
                        Err(e) => Err(e),
                    },
                    ReconnectionKind::Identify => {
                        let frame = self.identify(now_ms);
                        Ok(ActionPlan { connect_to: None, frame })
                    },
                }
            },
        }
    }
}

/// The state after a run of received envelopes, each fed to the state
/// machine in order at the same clock reading.
pub open spec fn run_events(pre: Shard, evs: Seq<Event>, now_ms: u64) -> Shard
    decreases evs.len(),
{
    if evs.len() == 0 {
        pre
    } else {
        run_events(shard_step(pre, evs[0], now_ms).0, evs.drop_first(), now_ms)
    }
}

/// The running maximum of a starting sequence and the `s` values of a run
/// of envelopes.
pub open spec fn max_seq_fold(cur: u64, evs: Seq<Event>) -> u64
    decreases evs.len(),
{
    if evs.len() == 0 {
        cur
    } else {
        max_seq_fold(seq_after(cur, evs[0].sequence), evs.drop_first())
    }
}

/// A hello received during the handshake demands an identify and stores
/// the interval, moving the stage forward.
pub proof fn lemma_hello_in_handshake(pre: Shard, ev: Event, iv: u64, now_ms: u64)
    requires
        pre.connection_stage == ConnectionStage::Handshake,
        ev.receive_data == Some(ReceiveEventData::Hello { heartbeat_interval: iv }),
    ensures
        shard_step(pre, ev, now_ms).1 == Some(ShardAction::Identify),
        shard_step(pre, ev, now_ms).0.heartbeat_interval == Some(iv),
        shard_step(pre, ev, now_ms).0.connection_stage == ConnectionStage::Identifying,
{
}

/// No event other than a hello moves the stored interval: once learned it
/// stands until the next reset, which alone clears it.
pub proof fn lemma_interval_stable(pre: Shard, ev: Event, now_ms: u64)
    requires
        !(ev.receive_data matches Some(ReceiveEventData::Hello { .. })),
    ensures
        shard_step(pre, ev, now_ms).0.heartbeat_interval == pre.heartbeat_interval,
{
}

/// Once learned, the interval survives any run of events that holds no
/// hello: only a reset, or another hello, can move it.
pub proof fn lemma_interval_stable_over_run(pre: Shard, evs: Seq<Event>, now_ms: u64)
    requires
        forall|i: int|
            0 <= i < evs.len() ==> !(#[trigger] evs[i].receive_data matches Some(
                ReceiveEventData::Hello { .. },
            )),
    ensures
        run_events(pre, evs, now_ms).heartbeat_interval == pre.heartbeat_interval,
    decreases evs.len(),
{
    if evs.len() > 0 {
        assert(!(evs[0].receive_data matches Some(ReceiveEventData::Hello { .. })));
        let next = shard_step(pre, evs[0], now_ms).0;
        lemma_interval_stable(pre, evs[0], now_ms);
        assert(forall|i: int|
            0 <= i < evs.drop_first().len() ==> !(#[trigger] evs.drop_first()[i].receive_data
                matches Some(ReceiveEventData::Hello { .. })));
        lemma_interval_stable_over_run(next, evs.drop_first(), now_ms);
    }
}

/// No event ever lowers the stored sequence.
pub proof fn lemma_sequence_monotone(pre: Shard, ev: Event, now_ms: u64)
    ensures
        shard_step(pre, ev, now_ms).0.sequence >= pre.sequence,
{
}

/// Over any run of dispatches — whether or not each carries an `s` — the
/// stored sequence is exactly the maximum `s` observed so far, and so
/// never decreases.
pub proof fn lemma_sequence_is_max_observed(pre: Shard, evs: Seq<Event>, now_ms: u64)
    requires
        forall|i: int|
            0 <= i < evs.len() ==> #[trigger] evs[i].receive_data matches Some(
                ReceiveEventData::Dispatch(_),
            ),
    ensures
        run_events(pre, evs, now_ms).sequence == max_seq_fold(pre.sequence, evs),
    decreases evs.len(),
{
    if evs.len() > 0 {
        assert(evs[0].receive_data matches Some(ReceiveEventData::Dispatch(_)));
        let next = shard_step(pre, evs[0], now_ms).0;
        assert(next.sequence == seq_after(pre.sequence, evs[0].sequence));
        assert(forall|i: int|
            0 <= i < evs.drop_first().len() ==> #[trigger] evs.drop_first()[i].receive_data
                matches Some(ReceiveEventData::Dispatch(_)));
        lemma_sequence_is_max_observed(next, evs.drop_first(), now_ms);
    }
}

/// At most one heartbeat per interval: once one was sent at `t1`, every
/// further timing check at a `t2` still inside the interval is satisfied
/// and sends nothing.
pub proof fn lemma_heartbeat_once_per_interval(s: Shard, interval: u64, t1: u64, t2: u64)
    requires
        t1 <= t2,
        t2 as int - t1 as int <= interval as int,
    ensures
        within_interval(heartbeat_state(s, t1).last_heartbeat_sent, interval, t2),
{
}

} // verus!
