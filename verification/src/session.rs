//! Per-client web session logic: authentication state, the decisions for
//! each inbound client message, and the telemetry batcher whose stream
//! keeps timestamps in order.

use vstd::prelude::*;

use crate::auth::{authenticate, authenticate_spec};
use crate::merge::Value;
use crate::message::{Command, Message, TimestampedMessage};

verus! {

/// Why a client message was rejected.
#[derive(Debug, PartialEq, Eq, Structural, Clone, Copy)]
pub enum ErrorCode {
    ParseFailed,
    AuthRequired,
    UpdateConfigFailed,
}

/// An error reply to a client.
#[derive(Debug, PartialEq, Clone)]
pub struct ClientError {
    pub code: ErrorCode,
    pub message: Option<String>,
}

/// What a client sends, once parsed.
#[derive(Debug, PartialEq, Clone)]
pub enum MessageToServer {
    Auth(String),
    Command(Command),
    UpdateConfig(Value),
}

/// What the session sends back directly (outside the telemetry stream).
#[derive(Debug, PartialEq, Clone)]
pub enum MessageToClient {
    AuthStatus(bool),
    Error(ClientError),
}

/// A session's liveness and authentication flags.
#[derive(Debug, PartialEq, Eq, Structural, Clone, Copy)]
pub struct ClientFlags {
    pub alive: bool,
    pub authenticated: bool,
}

impl ClientFlags {
    /// A live, unauthenticated session.
    pub fn new() -> (r: ClientFlags)
        ensures
            r.alive,
            !r.authenticated,
    {
        ClientFlags { alive: true, authenticated: false }
    }

    /// End the session.
    pub fn kill(&mut self)
        ensures
            !final(self).alive,
            final(self).authenticated == old(self).authenticated,
    {
        self.alive = false;
    }

    /// Whether the session is still live.
    pub fn is_alive(&self) -> (r: bool)
        ensures
            r == self.alive,
    {
        self.alive
    }

    /// Mark the session authenticated.
    pub fn authenticate(&mut self)
        ensures
            final(self).authenticated,
            final(self).alive == old(self).alive,
    {
        self.authenticated = true;
    }

    /// Whether the client has proven the key.
    pub fn is_authenticated(&self) -> (r: bool)
        ensures
            r == self.authenticated,
    {
        self.authenticated
    }
}

/// What handling one client message decides: a direct reply, a message to
/// put on the controller's bus, or both.
#[derive(Debug, PartialEq, Clone)]
pub struct SessionOutcome {
    pub reply: Option<MessageToClient>,
    pub forward: Option<Message>,
}

/// One client's session: its flags and the challenge it must answer.
#[derive(Debug, PartialEq, Clone)]
pub struct ClientSession {
    pub flags: ClientFlags,
    pub challenge: String,
}

impl ClientSession {
    /// A fresh session around a server-chosen challenge.
    pub fn new(challenge: String) -> (r: ClientSession)
        ensures
            r.flags.alive,
            !r.flags.authenticated,
            r.challenge@ == challenge@,
    {
        ClientSession { flags: ClientFlags::new(), challenge }
    }

    /// Handle one parsed client message.  An `Auth` is checked against the
    /// challenge and answered with its status; privileged messages from an
    /// unauthenticated client earn an `AuthRequired` error and are never
    /// forwarded; from an authenticated client they go to the bus — except
    /// that a configuration update whose trial merge the transport layer
    /// could not adopt (`update_error` carries its reason) is answered
    /// with an `UpdateConfigFailed` error instead of being forwarded.
    pub fn handle_message(
        &mut self,
        msg: MessageToServer,
        secret_key: &str,
        update_error: Option<String>,
    ) -> (r: SessionOutcome)
        ensures
            final(self).flags.alive == old(self).flags.alive,
            final(self).challenge == old(self).challenge,
            match msg {
                MessageToServer::Auth(digest) => {
                    let ok = authenticate_spec(
                        old(self).challenge@,
                        secret_key@,
                        digest@,
                    );
                    &&& final(self).flags.authenticated == (old(self).flags.authenticated || ok)
                    &&& r.reply == Some(MessageToClient::AuthStatus(ok))
                    &&& r.forward is None
                },
                MessageToServer::Command(c) => {
                    &&& final(self).flags == old(self).flags
                    &&& if old(self).flags.authenticated {
                        r.reply is None && r.forward == Some(
                            Message::Command(c),
                        )
                    } else {
                        r.forward is None && r.reply == Some(
                            MessageToClient::Error(
                                ClientError { code: ErrorCode::AuthRequired, message: None },
                            ),
                        )
                    }
                },
                MessageToServer::UpdateConfig(v) => {
                    &&& final(self).flags == old(self).flags
                    &&& if !old(self).flags.authenticated {
                        r.forward is None && r.reply == Some(
                            MessageToClient::Error(
                                ClientError { code: ErrorCode::AuthRequired, message: None },
                            ),
                        )
                    } else {
                        match update_error {
                            None => r.reply is None && r.forward == Some(
                                Message::UpdateConfig(v),
                            ),
                            Some(reason) => r.forward is None && r.reply == Some(
                                MessageToClient::Error(
                                    ClientError {
                                        code: ErrorCode::UpdateConfigFailed,
                                        message: Some(reason),
                                    },
                                ),
                            ),
                        }
                    }
                },
            },
    {
        match msg {
            MessageToServer::Auth(digest) => {
                let ok = authenticate(self.challenge.as_str(), secret_key, digest.as_str());
                if ok {
                    self.flags.authenticate();
                }
                SessionOutcome {
                    reply: Some(MessageToClient::AuthStatus(ok)),
                    forward: None,
                }
            },
            MessageToServer::Command(c) => {
                if self.flags.is_authenticated() {
                    SessionOutcome { reply: None, forward: Some(Message::Command(c)) }
                } else {
                    SessionOutcome {
                        reply: Some(
                            MessageToClient::Error(
                                ClientError { code: ErrorCode::AuthRequired, message: None },
                            ),
                        ),
                        forward: None,
                    }
                }
            },
            MessageToServer::UpdateConfig(v) => {
                if !self.flags.is_authenticated() {
                    SessionOutcome {
                        reply: Some(
                            MessageToClient::Error(
                                ClientError { code: ErrorCode::AuthRequired, message: None },
                            ),
                        ),
                        forward: None,
                    }
                } else {
                    match update_error {
                        None => SessionOutcome {
                            reply: None,
                            forward: Some(Message::UpdateConfig(v)),
                        },
                        Some(reason) => SessionOutcome {
                            reply: Some(
                                MessageToClient::Error(
                                    ClientError {
                                        code: ErrorCode::UpdateConfigFailed,
                                        message: Some(reason),
                                    },
                                ),
                            ),
                            forward: None,
                        },
                    }
                }
            },
        }
    }
}

/// How often the sender pings, milliseconds.
pub const PING_INTERVAL_MILLIS: u64 = 100;

/// A client that answers no ping for this long is disconnected.
pub const PING_TIMEOUT_MILLIS: u64 = 10_000;

/// Bounds of the adaptive batch period, milliseconds.
pub const MIN_BATCH_PERIOD_MILLIS: u64 = 2;

/// Bounds of the adaptive batch period, milliseconds.
pub const MAX_BATCH_PERIOD_MILLIS: u64 = 300;

/// Stream batches pause once the client has not answered for this long.
pub const MAX_SEND_LATENCY_MILLIS: u64 = 400;

/// What the sender should do on one of its cycles.
#[derive(Debug, PartialEq, Eq, Structural, Clone, Copy)]
pub struct SenderDecision {
    /// Send a ping stamped with the current time.
    pub need_ping: bool,
    /// The client is answering recently enough to receive batches.
    pub can_send: bool,
    /// The client stopped answering: close the connection.
    pub timed_out: bool,
}

/// Per-connection flow control: ping cadence, pong freshness, and the
/// adaptive batch period.  All times are milliseconds from the moment the
/// connection opened.
#[derive(Debug, PartialEq, Eq, Structural, Clone, Copy)]
pub struct ClientFlowControl {
    pub last_ping: u64,
    pub last_pong: u64,
    pub last_pong_latency: u64,
    pub batch_period: u64,
}

impl ClientFlowControl {
    /// Fresh flow control: a ping is due at once, nothing owed yet.
    pub fn new() -> (r: ClientFlowControl)
        ensures
            r.last_ping == 0,
            r.last_pong == 0,
            r.batch_period == MIN_BATCH_PERIOD_MILLIS,
    {
        ClientFlowControl {
            last_ping: 0,
            last_pong: 0,
            last_pong_latency: 0,
            batch_period: MIN_BATCH_PERIOD_MILLIS,
        }
    }

    /// One sender cycle: ping when the interval elapsed, send batches only
    /// while the client answers, give up past the timeout.  The batch
    /// period chases 1.8 times the observed latency at three percent per
    /// cycle, within its bounds.
    pub fn sender_poll(&mut self, now_millis: u64) -> (d: SenderDecision)
        requires
            old(self).last_ping <= now_millis || old(self).last_ping == 0,
            old(self).last_pong <= now_millis,
        ensures
            d.need_ping == (now_millis >= old(self).last_ping + PING_INTERVAL_MILLIS || old(
                self,
            ).last_ping == 0),
            d.can_send == (now_millis - old(self).last_pong <= MAX_SEND_LATENCY_MILLIS),
            d.timed_out == (now_millis - old(self).last_pong >= PING_TIMEOUT_MILLIS),
            final(self).last_ping == if d.need_ping {
                now_millis
            } else {
                old(self).last_ping
            },
            final(self).last_pong == old(self).last_pong,
            final(self).last_pong_latency == old(self).last_pong_latency,
            MIN_BATCH_PERIOD_MILLIS <= final(self).batch_period <= MAX_BATCH_PERIOD_MILLIS,
    {
        let since_pong = now_millis - self.last_pong;
        let need_ping = self.last_ping == 0 || (self.last_ping <= u64::MAX
            - PING_INTERVAL_MILLIS && now_millis >= self.last_ping + PING_INTERVAL_MILLIS);
        let d = SenderDecision {
            need_ping,
            can_send: since_pong <= MAX_SEND_LATENCY_MILLIS,
            timed_out: since_pong >= PING_TIMEOUT_MILLIS,
        };
        if need_ping {
            self.last_ping = now_millis;
        }

        // Chase 1.8 times the filtered latency, three percent per cycle.
        let target = if self.last_pong_latency <= u64::MAX / 9 {
            self.last_pong_latency * 9 / 5
        } else {
            MAX_BATCH_PERIOD_MILLIS
        };
        let clamped_target = if target < MIN_BATCH_PERIOD_MILLIS {
            MIN_BATCH_PERIOD_MILLIS
        } else if target > MAX_BATCH_PERIOD_MILLIS {
            MAX_BATCH_PERIOD_MILLIS
        } else {
            target
        };
        let bp = if self.batch_period < MIN_BATCH_PERIOD_MILLIS {
            MIN_BATCH_PERIOD_MILLIS
        } else if self.batch_period > MAX_BATCH_PERIOD_MILLIS {
            MAX_BATCH_PERIOD_MILLIS
        } else {
            self.batch_period
        };
        let stepped = if clamped_target >= bp {
            bp + (clamped_target - bp) * 3 / 100
        } else {
            bp - (bp - clamped_target) * 3 / 100
        };
        self.batch_period = if stepped < MIN_BATCH_PERIOD_MILLIS {
            MIN_BATCH_PERIOD_MILLIS
        } else if stepped > MAX_BATCH_PERIOD_MILLIS {
            MAX_BATCH_PERIOD_MILLIS
        } else {
            stepped
        };
        d
    }

    /// A pong came back carrying the timestamp it echoes.  Echoes of pings
    /// never sent — timestamps from the future — are rejected, and the
    /// caller must close the connection.
    pub fn handle_pong(&mut self, echoed_millis: u64, now_millis: u64) -> (accepted: bool)
        ensures
            accepted == (echoed_millis <= old(self).last_ping),
            accepted ==> final(self).last_pong == echoed_millis && final(self).last_pong_latency
                == if now_millis >= echoed_millis {
                now_millis - echoed_millis
            } else {
                0int
            } && final(self).last_ping == old(self).last_ping && final(self).batch_period == old(
                self,
            ).batch_period,
            !accepted ==> *final(self) == *old(self),
    {
        if echoed_millis <= self.last_ping {
            self.last_pong = echoed_millis;
            self.last_pong_latency = if now_millis >= echoed_millis {
                now_millis - echoed_millis
            } else {
                0
            };
            true
        } else {
            false
        }
    }
}

/// Timestamps never decrease along the sequence.
pub open spec fn stream_sorted(s: Seq<TimestampedMessage>) -> bool {
    forall|i: int, j: int| 0 <= i <= j < s.len() ==> #[trigger] s[i].timestamp <= #[trigger] s[j].timestamp
}

/// The per-client telemetry batcher: bus messages queue up in arrival
/// order and leave in batches, timestamped relative to the connection.
pub struct TelemetryBatcher {
    /// When the connection opened, milliseconds.
    pub time_ref: u64,
    /// Messages awaiting the next batch, oldest first.
    pub pending: Vec<TimestampedMessage>,
}

impl TelemetryBatcher {
    /// An empty batcher for a connection opened at `time_ref`.
    pub fn new(time_ref: u64) -> (r: TelemetryBatcher)
        ensures
            r.time_ref == time_ref,
            r.pending@.len() == 0,
    {
        TelemetryBatcher { time_ref, pending: Vec::new() }
    }

    /// Queue one bus message.  Messages from before the connection opened
    /// cannot be delivered and are dropped.
    pub fn push(&mut self, msg: TimestampedMessage)
        ensures
            final(self).time_ref == old(self).time_ref,
            msg.timestamp >= old(self).time_ref ==> final(self).pending@ == old(
                self,
            ).pending@.push(msg),
            msg.timestamp < old(self).time_ref ==> final(self).pending == old(self).pending,
            // Law: a message no older than everything queued keeps the
            // stream sorted.
            stream_sorted(old(self).pending@) && (forall|i: int|
                0 <= i < old(self).pending@.len() ==> (#[trigger] old(
                    self,
                ).pending@[i]).timestamp <= msg.timestamp) ==> stream_sorted(final(self).pending@),
    {
        if msg.timestamp >= self.time_ref {
            self.pending.push(msg);
        }
    }

    /// Drain everything queued into one batch, in order, timestamps made
    /// relative to the connection's opening.
    pub fn take_batch(&mut self) -> (batch: Vec<(u64, Message)>)
        requires
            forall|i: int|
                0 <= i < old(self).pending@.len() ==> (#[trigger] old(
                    self,
                ).pending@[i]).timestamp >= old(self).time_ref,
        ensures
            final(self).time_ref == old(self).time_ref,
            final(self).pending@.len() == 0,
            batch@.len() == old(self).pending@.len(),
            forall|i: int|
                0 <= i < batch@.len() ==> (#[trigger] batch@[i]).0 == old(
                    self,
                ).pending@[i].timestamp - old(self).time_ref && batch@[i].1 == old(
                    self,
                ).pending@[i].message,
            // Law: a sorted queue leaves as a batch whose relative
            // timestamps never decrease.
            stream_sorted(old(self).pending@) ==> forall|i: int, j: int|
                0 <= i <= j < batch@.len() ==> (#[trigger] batch@[i]).0 <= (#[trigger] batch@[j]).0,
    {
        let mut batch: Vec<(u64, Message)> = Vec::new();
        let ghost orig = self.pending@;
        proof {
            assert(orig.subrange(0, orig.len() as int) =~= orig);
        }
        let n = self.pending.len();
        let mut i: usize = 0;
        while i < n
            invariant
                n == orig.len(),
                self.pending@ == orig.subrange(i as int, n as int),
                self.time_ref == old(self).time_ref,
                forall|k: int| 0 <= k < n ==> (#[trigger] orig[k]).timestamp >= self.time_ref,
                0 <= i <= n,
                batch@.len() == i,
                forall|k: int|
                    0 <= k < i ==> (#[trigger] batch@[k]).0 == orig[k].timestamp - self.time_ref
                        && batch@[k].1 == orig[k].message,
            decreases n - i,
        {
            proof {
                assert(self.pending@[0] == orig[i as int]);
            }
            let m = self.pending.remove(0);
            let rel = m.timestamp - self.time_ref;
            batch.push((rel, m.message));
            proof {
                assert(self.pending@ =~= orig.subrange(i + 1, n as int));
            }
            i = i + 1;
        }
        proof {
            assert(self.pending@ =~= Seq::<TimestampedMessage>::empty());
        }
        batch
    }
}

/// Law: telemetry timestamps are monotone within one subscriber's stream.
/// Feeding the batcher messages in non-decreasing timestamp order keeps
/// its queue sorted, so every batch it emits carries non-decreasing
/// relative timestamps.
pub proof fn lemma_batch_monotone(q: Seq<TimestampedMessage>, time_ref: u64)
    requires
        stream_sorted(q),
    ensures
        forall|i: int, j: int|
            0 <= i <= j < q.len() ==> #[trigger] q[i].timestamp - time_ref
                <= #[trigger] q[j].timestamp - time_ref,
{
}

} // verus!
