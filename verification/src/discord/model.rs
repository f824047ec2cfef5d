//! The voice-gateway link as a transition system over mathematical values.
//!
//! [`LinkView`] is everything a link knows; each function here gives the link
//! after one input together with what the link asks of its owner. The
//! executable link in [`super::link`] is proved to follow these functions step by
//! step.

use super::heartbeat::{saturating_sum, Beat, HeartbeatLoop};
use super::payloads::{
    Heartbeat, HeartbeatACK, Hello, IdentifyView, PayloadView, ReadyView, ResumeView,
    SelectProtocolDataView, SelectProtocolView, SessionDescriptionView,
};
use super::policy::{backoff_delay, preferred_mode};
use vstd::prelude::*;

verus! {

/// Where a link stands in its life.
#[derive(Debug, Clone, Copy, PartialEq, Eq, Structural)]
pub enum LinkState {
    /// No connection, and none being made.
    Disconnected,
    /// The connection to the endpoint is being opened.
    Connecting,
    /// The connection stands and Identify is on its way out.
    Identifying,
    /// Identify is out; Hello is awaited.
    AwaitingHello,
    /// Hello has arrived and heartbeats run; Ready is awaited.
    AwaitingReady,
    /// Ready has arrived and SelectProtocol is on its way out.
    SelectingProtocol,
    /// SelectProtocol is out; the session description is awaited.
    AwaitingSessionDescription,
    /// The link can carry media.
    Connected,
    /// The connection failed after the link had been connected, and the link
    /// tries to take the session up again.
    Resuming,
}

/// Why a link gave up or degraded.
#[derive(Debug, Clone, Copy, PartialEq, Eq, Structural)]
pub enum LinkError {
    /// A stage of the handshake saw no message within its window.
    HandshakeTimeout,
    /// Heartbeats went unanswered, or the connection broke.
    LivenessFailure,
    /// A message arrived that the current state does not allow.
    ProtocolViolation,
    /// The session could not be resumed.
    ResumeExhausted,
}

/// Where a resuming link stands.
#[derive(Debug, Clone, Copy, PartialEq, Eq, Structural)]
pub enum ResumePhase {
    /// The link is not resuming.
    Idle,
    /// A failed attempt is followed by a wait.
    Backoff,
    /// A new connection is being opened.
    Reconnecting,
    /// Resume is out; Resumed is awaited.
    AwaitingResumed,
}

/// The mathematical value of a link's credentials.
pub struct VoiceCredentialsView {
    pub session_id: Seq<char>,
    pub token: Seq<char>,
    pub endpoint: Option<Seq<char>>,
}

/// The mathematical value of a link's settings.
pub struct LinkConfigView {
    pub stage_timeout_ms: u64,
    pub max_resume_attempts: u32,
    pub backoff_base_ms: u64,
    pub backoff_cap_ms: u64,
    pub mode_preference: Seq<Seq<char>>,
}

/// The mathematical value of a resume token.
pub struct ResumeTokenView {
    pub server_id: Seq<char>,
    pub session_id: Seq<char>,
}

/// An input to a link.
pub enum LinkEventView {
    Established,
    Flushed,
    Lost,
    Message(PayloadView),
    Garbled,
    Tick,
}

/// What a link asks its owner to do with the connection.
pub enum LinkCommandView {
    Open(Seq<char>),
    Send(PayloadView),
    Close,
}

/// The answer of a link to one input.
pub struct LinkReplyView {
    pub commands: Seq<LinkCommandView>,
    pub failure: Option<LinkError>,
}

/// Everything a link knows, as a mathematical value.
pub struct LinkView {
    pub config: LinkConfigView,
    pub server_id: Seq<char>,
    pub user_id: Seq<char>,
    pub credentials: VoiceCredentialsView,
    pub state: LinkState,
    pub heartbeat: Option<HeartbeatLoop>,
    pub deadline: Option<u64>,
    pub ssrc: Option<u32>,
    pub modes: Seq<Seq<char>>,
    pub mode: Option<Seq<char>>,
    pub secret_key: Option<Seq<u32>>,
    pub resume_token: Option<ResumeTokenView>,
    pub resume_phase: ResumePhase,
    pub resume_failures: u32,
}

/// A reply that asks for nothing.
pub open spec fn quiet() -> LinkReplyView {
    LinkReplyView { commands: Seq::empty(), failure: None }
}

/// A reply that asks for `commands` and reports no failure.
pub open spec fn asking(commands: Seq<LinkCommandView>) -> LinkReplyView {
    LinkReplyView { commands, failure: None }
}

/// The reply of a link that gives up: it closes the connection and reports
/// why.
pub open spec fn giving_up(cause: LinkError) -> LinkReplyView {
    LinkReplyView { commands: seq![LinkCommandView::Close], failure: Some(cause) }
}

impl LinkView {
    /// A link that has not connected yet.
    pub open spec fn fresh(
        config: LinkConfigView,
        server_id: Seq<char>,
        user_id: Seq<char>,
        credentials: VoiceCredentialsView,
    ) -> LinkView {
        LinkView {
            config,
            server_id,
            user_id,
            credentials,
            state: LinkState::Disconnected,
            heartbeat: None,
            deadline: None,
            ssrc: None,
            modes: Seq::empty(),
            mode: None,
            secret_key: None,
            resume_token: None,
            resume_phase: ResumePhase::Idle,
            resume_failures: 0,
        }
    }

    /// The link without its connection and without anything it learned on
    /// it. Configuration, identity and credentials stay.
    pub open spec fn torn_down(self) -> LinkView {
        LinkView::fresh(self.config, self.server_id, self.user_id, self.credentials)
    }

    /// Whether heartbeats run in this state.
    pub open spec fn beating(self) -> bool {
        self.state == LinkState::AwaitingReady || self.state == LinkState::SelectingProtocol
            || self.state == LinkState::AwaitingSessionDescription || self.state
            == LinkState::Connected
    }

    /// The end of a wait that starts at `now_ms`.
    pub open spec fn stage_deadline(self, now_ms: u64) -> Option<u64> {
        Some(saturating_sum(now_ms, self.config.stage_timeout_ms))
    }

    /// Whether the current wait is over at `now_ms`.
    pub open spec fn expired(self, now_ms: u64) -> bool {
        self.deadline matches Some(d) && d <= now_ms
    }

    /// The Identify message of this link.
    pub open spec fn identify(self) -> PayloadView {
        PayloadView::Identify(
            IdentifyView {
                server_id: self.server_id,
                user_id: self.user_id,
                session_id: self.credentials.session_id,
                token: self.credentials.token,
            },
        )
    }

    /// The Resume message for `token`, with the current secret.
    pub open spec fn resume(self, token: ResumeTokenView) -> PayloadView {
        PayloadView::Resume(
            ResumeView {
                server_id: token.server_id,
                session_id: token.session_id,
                token: self.credentials.token,
            },
        )
    }

    /// Starts the handshake: a disconnected link whose credentials name an
    /// endpoint opens a connection to it. Any other link stays as it is.
    pub open spec fn connect(self) -> (LinkView, LinkReplyView) {
        match self.credentials.endpoint {
            Some(endpoint) if self.state == LinkState::Disconnected => (
                LinkView { state: LinkState::Connecting, ..self },
                asking(seq![LinkCommandView::Open(endpoint)]),
            ),
            _ => (self, quiet()),
        }
    }

    /// Ends the link without retry. Closing a disconnected link changes
    /// nothing.
    pub open spec fn close(self) -> (LinkView, LinkReplyView) {
        if self.state == LinkState::Disconnected {
            (self, quiet())
        } else {
            (self.torn_down(), asking(seq![LinkCommandView::Close]))
        }
    }

    /// Replaces the credentials and starts over: the old connection is
    /// closed, and a new handshake begins if the new credentials name an
    /// endpoint.
    pub open spec fn rebuild(self, credentials: VoiceCredentialsView) -> (LinkView, LinkReplyView) {
        let (closed, first) = self.close();
        let (opened, second) = (LinkView { credentials, ..closed }).connect();
        (opened, asking(first.commands + second.commands))
    }

    /// Replaces the secret of the credentials and nothing else.
    pub open spec fn refresh(self, token: Seq<char>) -> LinkView {
        LinkView { credentials: VoiceCredentialsView { token, ..self.credentials }, ..self }
    }

    /// The link gives up on resuming.
    pub open spec fn abandon(self) -> (LinkView, LinkReplyView) {
        (self.torn_down(), giving_up(LinkError::ResumeExhausted))
    }

    /// A failure of the connection or of the peer. A link that holds a
    /// resume token closes the connection, opens a new one and enters
    /// `Resuming`; a link without one is torn down and reports `cause`.
    pub open spec fn degrade(self, cause: LinkError, now_ms: u64) -> (LinkView, LinkReplyView) {
        if self.state == LinkState::Disconnected {
            (self, quiet())
        } else {
            match (self.resume_token, self.credentials.endpoint) {
                (Some(_), Some(endpoint)) => (
                    LinkView {
                        state: LinkState::Resuming,
                        resume_phase: ResumePhase::Reconnecting,
                        resume_failures: 0,
                        deadline: self.stage_deadline(now_ms),
                        ..self
                    },
                    asking(seq![LinkCommandView::Close, LinkCommandView::Open(endpoint)]),
                ),
                _ => (self.torn_down(), giving_up(cause)),
            }
        }
    }

    /// The number of failed attempts after one more.
    pub open spec fn failures_after(self) -> u32 {
        if self.resume_failures == u32::MAX {
            u32::MAX
        } else {
            (self.resume_failures + 1) as u32
        }
    }

    /// An attempt to resume has failed. When the failures in a row reach the
    /// configured number the link gives up; before that it closes the
    /// connection and waits, each time twice as long, up to the configured cap.
    pub open spec fn resume_failed(self, now_ms: u64) -> (LinkView, LinkReplyView) {
        let failures = self.failures_after();
        if failures >= self.config.max_resume_attempts {
            self.abandon()
        } else {
            (
                LinkView {
                    resume_phase: ResumePhase::Backoff,
                    resume_failures: failures,
                    deadline: Some(
                        saturating_sum(
                            now_ms,
                            backoff_delay(
                                self.config.backoff_base_ms,
                                self.config.backoff_cap_ms,
                                failures,
                            ),
                        ),
                    ),
                    ..self
                },
                asking(seq![LinkCommandView::Close]),
            )
        }
    }

    /// Hello starts the heartbeats, and the first one goes out at once.
    pub open spec fn greeted(self, hello: Hello, now_ms: u64) -> (LinkView, LinkReplyView) {
        if hello.heartbeat_interval == 0 {
            self.degrade(LinkError::ProtocolViolation, now_ms)
        } else {
            let (heartbeat, beat) = HeartbeatLoop::started(hello.heartbeat_interval, now_ms).ticked(
                now_ms,
            );
            (
                LinkView {
                    state: LinkState::AwaitingReady,
                    heartbeat: Some(heartbeat),
                    deadline: self.stage_deadline(now_ms),
                    ..self
                },
                asking(
                    seq![LinkCommandView::Send(PayloadView::Heartbeat(Heartbeat { nonce: 0 }))],
                ),
            )
        }
    }

    /// Ready brings the stream identifier and the modes on offer. The link
    /// asks for the preferred one among them, over UDP, at the address that
    /// Ready announced. With no acceptable mode on offer the peer is at fault.
    pub open spec fn readied(self, ready: ReadyView, now_ms: u64) -> (LinkView, LinkReplyView) {
        match preferred_mode(self.config.mode_preference, ready.modes) {
            Some(mode) => (
                LinkView {
                    state: LinkState::SelectingProtocol,
                    ssrc: Some(ready.ssrc),
                    modes: ready.modes,
                    mode: Some(mode),
                    deadline: None,
                    ..self
                },
                asking(
                    seq![
                        LinkCommandView::Send(
                            PayloadView::SelectProtocol(
                                SelectProtocolView {
                                    protocol: "udp"@,
                                    data: SelectProtocolDataView {
                                        address: ready.ip,
                                        port: ready.port,
                                        mode,
                                    },
                                },
                            ),
                        ),
                    ],
                ),
            ),
            None => self.degrade(LinkError::ProtocolViolation, now_ms),
        }
    }

    /// The session description completes the handshake: the link stores the
    /// negotiated mode and the key, and from now on it can resume.
    pub open spec fn described(self, description: SessionDescriptionView) -> (
        LinkView,
        LinkReplyView,
    ) {
        (
            LinkView {
                state: LinkState::Connected,
                mode: Some(description.mode),
                secret_key: Some(description.secret_key),
                resume_token: Some(
                    ResumeTokenView {
                        server_id: self.server_id,
                        session_id: self.credentials.session_id,
                    },
                ),
                deadline: None,
                ..self
            },
            quiet(),
        )
    }

    /// An acknowledgement must bear the nonce of the outstanding heartbeat;
    /// any other is a violation of the protocol and degrades the link.
    pub open spec fn acknowledged(self, ack: HeartbeatACK, now_ms: u64) -> (
        LinkView,
        LinkReplyView,
    ) {
        match self.heartbeat {
            Some(heartbeat) if heartbeat.acked(ack.nonce, now_ms).1 => (
                LinkView { heartbeat: Some(heartbeat.acked(ack.nonce, now_ms).0), ..self },
                quiet(),
            ),
            _ => self.degrade(LinkError::ProtocolViolation, now_ms),
        }
    }

    /// Resumed brings the link back to `Connected` with everything it knew;
    /// heartbeats start again at once.
    pub open spec fn resumed(self, now_ms: u64) -> (LinkView, LinkReplyView) {
        let restored = LinkView {
            state: LinkState::Connected,
            resume_phase: ResumePhase::Idle,
            resume_failures: 0,
            deadline: None,
            ..self
        };
        match self.heartbeat {
            Some(heartbeat) => {
                let (next, beat) = heartbeat.restarted(now_ms).ticked(now_ms);
                (
                    LinkView { heartbeat: Some(next), ..restored },
                    asking(
                        seq![
                            LinkCommandView::Send(
                                PayloadView::Heartbeat(Heartbeat { nonce: heartbeat.next_nonce }),
                            ),
                        ],
                    ),
                )
            },
            None => (restored, quiet()),
        }
    }

    /// A heartbeat tick in a state in which heartbeats run.
    pub open spec fn beat(self, now_ms: u64) -> (LinkView, LinkReplyView) {
        match self.heartbeat {
            Some(heartbeat) => {
                let (next, beat) = heartbeat.ticked(now_ms);
                match beat {
                    Beat::Idle => (LinkView { heartbeat: Some(next), ..self }, quiet()),
                    Beat::Send(nonce) => (
                        LinkView { heartbeat: Some(next), ..self },
                        asking(
                            seq![LinkCommandView::Send(PayloadView::Heartbeat(Heartbeat { nonce }))],
                        ),
                    ),
                    Beat::Dead => (LinkView { heartbeat: Some(next), ..self }).degrade(
                        LinkError::LivenessFailure,
                        now_ms,
                    ),
                }
            },
            None => (self, quiet()),
        }
    }

    /// A message of the gateway.
    pub open spec fn on_message(self, message: PayloadView, now_ms: u64) -> (
        LinkView,
        LinkReplyView,
    ) {
        if message is ClientDisconnect {
            self.close()
        } else {
            match self.state {
                LinkState::Disconnected => (self, quiet()),
                LinkState::Resuming => match message {
                    PayloadView::Resumed => self.resumed(now_ms),
                    _ => self.abandon(),
                },
                LinkState::Identifying | LinkState::AwaitingHello => match message {
                    PayloadView::Hello(hello) => self.greeted(hello, now_ms),
                    _ => self.degrade(LinkError::ProtocolViolation, now_ms),
                },
                LinkState::AwaitingReady => match message {
                    PayloadView::Ready(ready) => self.readied(ready, now_ms),
                    PayloadView::HeartbeatACK(ack) => self.acknowledged(ack, now_ms),
                    _ => self.degrade(LinkError::ProtocolViolation, now_ms),
                },
                LinkState::SelectingProtocol | LinkState::AwaitingSessionDescription => match message {
                    PayloadView::SessionDescription(description) => self.described(description),
                    PayloadView::HeartbeatACK(ack) => self.acknowledged(ack, now_ms),
                    _ => self.degrade(LinkError::ProtocolViolation, now_ms),
                },
                LinkState::Connected => match message {
                    PayloadView::HeartbeatACK(ack) => self.acknowledged(ack, now_ms),
                    PayloadView::Speaking(_) => (self, quiet()),
                    _ => self.degrade(LinkError::ProtocolViolation, now_ms),
                },
                LinkState::Connecting => self.degrade(LinkError::ProtocolViolation, now_ms),
            }
        }
    }

    /// The gateway sent something that is no message of the protocol. That
    /// is a violation of the protocol; while resuming it counts as any message
    /// that is not Resumed.
    pub open spec fn on_garbled(self, now_ms: u64) -> (LinkView, LinkReplyView) {
        match self.state {
            LinkState::Disconnected => (self, quiet()),
            LinkState::Resuming => self.abandon(),
            _ => self.degrade(LinkError::ProtocolViolation, now_ms),
        }
    }

    /// The connection has been established.
    pub open spec fn on_established(self, now_ms: u64) -> (LinkView, LinkReplyView) {
        match self.state {
            LinkState::Connecting => (
                LinkView { state: LinkState::Identifying, ..self },
                asking(seq![LinkCommandView::Send(self.identify())]),
            ),
            LinkState::Resuming if self.resume_phase == ResumePhase::Reconnecting => {
                match self.resume_token {
                    Some(token) => (
                        LinkView {
                            resume_phase: ResumePhase::AwaitingResumed,
                            deadline: self.stage_deadline(now_ms),
                            ..self
                        },
                        asking(seq![LinkCommandView::Send(self.resume(token))]),
                    ),
                    None => self.abandon(),
                }
            },
            _ => (self, quiet()),
        }
    }

    /// The message that was on its way out has been written.
    pub open spec fn on_flushed(self, now_ms: u64) -> (LinkView, LinkReplyView) {
        match self.state {
            LinkState::Identifying => (
                LinkView {
                    state: LinkState::AwaitingHello,
                    deadline: self.stage_deadline(now_ms),
                    ..self
                },
                quiet(),
            ),
            LinkState::SelectingProtocol => (
                LinkView {
                    state: LinkState::AwaitingSessionDescription,
                    deadline: self.stage_deadline(now_ms),
                    ..self
                },
                quiet(),
            ),
            _ => (self, quiet()),
        }
    }

    /// The connection broke, or could not be opened.
    pub open spec fn on_lost(self, now_ms: u64) -> (LinkView, LinkReplyView) {
        match self.state {
            LinkState::Disconnected => (self, quiet()),
            LinkState::Resuming => if self.resume_phase == ResumePhase::Backoff {
                (self, quiet())
            } else {
                self.resume_failed(now_ms)
            },
            _ => self.degrade(LinkError::LivenessFailure, now_ms),
        }
    }

    /// Time has passed. A wait that is over counts as a failure of the
    /// connection; otherwise a heartbeat may be due.
    pub open spec fn on_tick(self, now_ms: u64) -> (LinkView, LinkReplyView) {
        match self.state {
            LinkState::Resuming => if !self.expired(now_ms) {
                (self, quiet())
            } else if self.resume_phase == ResumePhase::Backoff {
                match self.credentials.endpoint {
                    Some(endpoint) => (
                        LinkView {
                            resume_phase: ResumePhase::Reconnecting,
                            deadline: self.stage_deadline(now_ms),
                            ..self
                        },
                        asking(seq![LinkCommandView::Open(endpoint)]),
                    ),
                    None => self.abandon(),
                }
            } else {
                self.resume_failed(now_ms)
            },
            LinkState::AwaitingHello => if self.expired(now_ms) {
                self.degrade(LinkError::HandshakeTimeout, now_ms)
            } else {
                (self, quiet())
            },
            LinkState::AwaitingReady | LinkState::AwaitingSessionDescription => if self.expired(
                now_ms,
            ) {
                self.degrade(LinkError::HandshakeTimeout, now_ms)
            } else {
                self.beat(now_ms)
            },
            LinkState::SelectingProtocol | LinkState::Connected => self.beat(now_ms),
            _ => (self, quiet()),
        }
    }

    /// The link and its reply after one input at `now_ms`.
    pub open spec fn step(self, event: LinkEventView, now_ms: u64) -> (LinkView, LinkReplyView) {
        match event {
            LinkEventView::Established => self.on_established(now_ms),
            LinkEventView::Flushed => self.on_flushed(now_ms),
            LinkEventView::Lost => self.on_lost(now_ms),
            LinkEventView::Message(message) => self.on_message(message, now_ms),
            LinkEventView::Garbled => self.on_garbled(now_ms),
            LinkEventView::Tick => self.on_tick(now_ms),
        }
    }

    /// The earliest time at which a tick can change anything, if there is
    /// one: the end of the current wait, or the next heartbeat.
    pub open spec fn next_wakeup(self) -> Option<u64> {
        let beat = if self.beating() {
            match self.heartbeat {
                Some(heartbeat) => Some(heartbeat.next_due_ms),
                None => None,
            }
        } else {
            None
        };
        match (self.deadline, beat) {
            (Some(d), Some(b)) => Some(if d <= b {
                d
            } else {
                b
            }),
            (Some(d), None) => Some(d),
            (None, b) => b,
        }
    }

    /// What holds of every link that was made by [`LinkView::fresh`] and
    /// moved by the functions above.
    pub open spec fn wf(self) -> bool {
        &&& self.state == LinkState::Disconnected ==> self == self.torn_down()
        &&& self.state != LinkState::Disconnected ==> self.credentials.endpoint is Some
        &&& self.beating() || self.state == LinkState::Resuming ==> self.heartbeat is Some
        &&& self.negotiated() ==> self.ssrc is Some && self.mode is Some
        &&& self.state == LinkState::Connected || self.state == LinkState::Resuming <==> {
            &&& self.secret_key is Some
            &&& self.resume_token is Some
        }
        &&& self.secret_key is Some <==> self.resume_token is Some
        &&& self.state == LinkState::Resuming <==> self.resume_phase != ResumePhase::Idle
        &&& self.state != LinkState::Resuming ==> self.resume_failures == 0
        &&& self.resume_failures == 0 || self.resume_failures < self.config.max_resume_attempts
        &&& self.beating() ==> self.heartbeat->0.healthy()
    }

    /// Whether a mode has been chosen on the current connection or on the
    /// one that is being resumed.
    pub open spec fn negotiated(self) -> bool {
        self.state == LinkState::SelectingProtocol || self.state
            == LinkState::AwaitingSessionDescription || self.state == LinkState::Connected
            || self.state == LinkState::Resuming
    }
}

} // verus!
