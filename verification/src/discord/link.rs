//! One upstream connection to the voice gateway, for one guild.
//!
//! A [`VoiceGatewayLink`] owns no socket. Its owner reports what happened on
//! the connection as [`LinkEvent`]s, each with the current time in milliseconds,
//! and carries out the [`LinkCommand`]s of the reply in order. Only events of
//! the connection that was opened last may be reported.

use super::heartbeat::{Beat, HeartbeatLoop};
use super::model::{
    asking, giving_up, quiet, LinkCommandView, LinkConfigView, LinkError, LinkEventView,
    LinkReplyView, LinkState, LinkView, ResumePhase, ResumeTokenView, VoiceCredentialsView,
};
use super::payloads::{
    Heartbeat, HeartbeatACK, Hello, Identify, Payload, Ready, Resume, SelectProtocol,
    SelectProtocolData, SessionDescription,
};
use super::policy::{backoff, choose_mode};
use crate::json::{copy_opt_text, copy_texts};
use vstd::prelude::*;

verus! {

/// What a voice update tells about the voice server of a guild. Without an
/// endpoint no server is assigned, and nothing can be connected to.
#[derive(Debug, Clone, PartialEq, Eq)]
pub struct VoiceCredentials {
    pub session_id: String,
    pub token: String,
    pub endpoint: Option<String>,
}

/// The settings of a link.
#[derive(Debug, Clone, PartialEq, Eq)]
pub struct LinkConfig {
    /// How long each stage of the handshake may wait for its message.
    pub stage_timeout_ms: u64,
    /// After how many failed attempts in a row resuming is given up.
    pub max_resume_attempts: u32,
    /// The wait after the first failed attempt to resume.
    pub backoff_base_ms: u64,
    /// The longest wait between two attempts.
    pub backoff_cap_ms: u64,
    /// The encryption modes this node accepts, strongest first.
    pub mode_preference: Vec<String>,
}

/// What identifies the gateway session that a link can take up again.
#[derive(Debug, Clone, PartialEq, Eq)]
pub struct ResumeToken {
    pub server_id: String,
    pub session_id: String,
}

/// What happened on the connection.
#[derive(Debug, Clone, PartialEq, Eq)]
pub enum LinkEvent {
    /// The connection that was asked for stands.
    Established,
    /// The message that was handed over last has been written out.
    Flushed,
    /// The connection broke, or could not be opened.
    Lost,
    /// The gateway sent a message.
    Message(Payload),
    /// The gateway sent something that is no message of the protocol.
    Garbled,
    /// Time has passed.
    Tick,
}

/// What the owner is to do with the connection.
#[derive(Debug, Clone, PartialEq, Eq)]
pub enum LinkCommand {
    /// Open a connection to this endpoint.
    Open(String),
    /// Send this message.
    Send(Payload),
    /// Close the connection.
    Close,
}

/// The answer to one input: commands to carry out in order, and the failure
/// with which the link gave up, if it did.
#[derive(Debug, Clone, PartialEq, Eq)]
pub struct LinkReply {
    pub commands: Vec<LinkCommand>,
    pub failure: Option<LinkError>,
}

/// The link of one guild to the voice gateway: the handshake, the
/// heartbeats and the resuming of a session. Its mathematical value is a
/// [`LinkView`].
pub struct VoiceGatewayLink {
    config: LinkConfig,
    server_id: String,
    user_id: String,
    credentials: VoiceCredentials,
    state: LinkState,
    heartbeat: Option<HeartbeatLoop>,
    deadline: Option<u64>,
    ssrc: Option<u32>,
    modes: Vec<String>,
    mode: Option<String>,
    secret_key: Option<Vec<u32>>,
    resume_token: Option<ResumeToken>,
    resume_phase: ResumePhase,
    resume_failures: u32,
}

impl View for VoiceCredentials {
    type V = VoiceCredentialsView;

    open spec fn view(&self) -> VoiceCredentialsView {
        VoiceCredentialsView {
            session_id: self.session_id@,
            token: self.token@,
            endpoint: self.endpoint.deep_view(),
        }
    }
}

impl View for LinkConfig {
    type V = LinkConfigView;

    open spec fn view(&self) -> LinkConfigView {
        LinkConfigView {
            stage_timeout_ms: self.stage_timeout_ms,
            max_resume_attempts: self.max_resume_attempts,
            backoff_base_ms: self.backoff_base_ms,
            backoff_cap_ms: self.backoff_cap_ms,
            mode_preference: self.mode_preference.deep_view(),
        }
    }
}

impl View for ResumeToken {
    type V = ResumeTokenView;

    open spec fn view(&self) -> ResumeTokenView {
        ResumeTokenView { server_id: self.server_id@, session_id: self.session_id@ }
    }
}

impl View for LinkEvent {
    type V = LinkEventView;

    open spec fn view(&self) -> LinkEventView {
        match self {
            LinkEvent::Established => LinkEventView::Established,
            LinkEvent::Flushed => LinkEventView::Flushed,
            LinkEvent::Lost => LinkEventView::Lost,
            LinkEvent::Message(p) => LinkEventView::Message(p@),
            LinkEvent::Garbled => LinkEventView::Garbled,
            LinkEvent::Tick => LinkEventView::Tick,
        }
    }
}

impl View for LinkCommand {
    type V = LinkCommandView;

    open spec fn view(&self) -> LinkCommandView {
        match self {
            LinkCommand::Open(endpoint) => LinkCommandView::Open(endpoint@),
            LinkCommand::Send(p) => LinkCommandView::Send(p@),
            LinkCommand::Close => LinkCommandView::Close,
        }
    }
}

impl DeepView for LinkCommand {
    type V = LinkCommandView;

    open spec fn deep_view(&self) -> LinkCommandView {
        self@
    }
}

impl View for LinkReply {
    type V = LinkReplyView;

    open spec fn view(&self) -> LinkReplyView {
        LinkReplyView { commands: self.commands.deep_view(), failure: self.failure }
    }
}

impl View for VoiceGatewayLink {
    type V = LinkView;

    closed spec fn view(&self) -> LinkView {
        LinkView {
            config: self.config@,
            server_id: self.server_id@,
            user_id: self.user_id@,
            credentials: self.credentials@,
            state: self.state,
            heartbeat: self.heartbeat,
            deadline: self.deadline,
            ssrc: self.ssrc,
            modes: self.modes.deep_view(),
            mode: self.mode.deep_view(),
            secret_key: match self.secret_key {
                Some(key) => Some(key@),
                None => None,
            },
            resume_token: match self.resume_token {
                Some(token) => Some(token@),
                None => None,
            },
            resume_phase: self.resume_phase,
            resume_failures: self.resume_failures,
        }
    }
}

impl VoiceCredentials {
    pub fn copy(&self) -> (r: VoiceCredentials)
        ensures
            r@ == self@,
    {
        VoiceCredentials {
            session_id: self.session_id.clone(),
            token: self.token.clone(),
            endpoint: copy_opt_text(&self.endpoint),
        }
    }
}

impl LinkConfig {
    /// The usual settings around a list of accepted modes: five seconds for
    /// each stage, resuming given up at the second failure in a row, and
    /// waits between one and thirty seconds.
    pub fn standard(mode_preference: Vec<String>) -> (r: LinkConfig)
        ensures
            r@ == (LinkConfigView {
                stage_timeout_ms: 5000,
                max_resume_attempts: 2,
                backoff_base_ms: 1000,
                backoff_cap_ms: 30000,
                mode_preference: mode_preference.deep_view(),
            }),
    {
        LinkConfig {
            stage_timeout_ms: 5000,
            max_resume_attempts: 2,
            backoff_base_ms: 1000,
            backoff_cap_ms: 30000,
            mode_preference,
        }
    }

    pub fn copy(&self) -> (r: LinkConfig)
        ensures
            r@ == self@,
    {
        LinkConfig {
            stage_timeout_ms: self.stage_timeout_ms,
            max_resume_attempts: self.max_resume_attempts,
            backoff_base_ms: self.backoff_base_ms,
            backoff_cap_ms: self.backoff_cap_ms,
            mode_preference: copy_texts(&self.mode_preference),
        }
    }
}

fn quiet_reply() -> (r: LinkReply)
    ensures
        r@ == quiet(),
{
    let r = LinkReply { commands: Vec::new(), failure: None };
    assert(r@.commands =~= Seq::empty());
    r
}

fn reply_with(command: LinkCommand) -> (r: LinkReply)
    ensures
        r@ == asking(seq![command@]),
{
    let mut commands: Vec<LinkCommand> = Vec::new();
    commands.push(command);
    let r = LinkReply { commands, failure: None };
    assert(r@.commands =~= seq![command@]);
    r
}

fn reply_with_two(first: LinkCommand, second: LinkCommand) -> (r: LinkReply)
    ensures
        r@ == asking(seq![first@, second@]),
{
    let mut commands: Vec<LinkCommand> = Vec::new();
    commands.push(first);
    commands.push(second);
    let r = LinkReply { commands, failure: None };
    assert(r@.commands =~= seq![first@, second@]);
    r
}

fn reply_giving_up(cause: LinkError) -> (r: LinkReply)
    ensures
        r@ == giving_up(cause),
{
    let mut commands: Vec<LinkCommand> = Vec::new();
    commands.push(LinkCommand::Close);
    let r = LinkReply { commands, failure: Some(cause) };
    assert(r@.commands =~= seq![LinkCommandView::Close]);
    r
}

fn send_heartbeat(nonce: u64) -> (r: LinkReply)
    ensures
        r@ == asking(
            seq![
                LinkCommandView::Send(
                    crate::discord::payloads::PayloadView::Heartbeat(Heartbeat { nonce }),
                ),
            ],
        ),
{
    reply_with(LinkCommand::Send(Payload::Heartbeat(Heartbeat { nonce })))
}

impl VoiceGatewayLink {
    /// A link for the guild `server_id` and the user `user_id`. It is
    /// disconnected until [`VoiceGatewayLink::connect`] is called.
    pub fn new(
        config: LinkConfig,
        server_id: String,
        user_id: String,
        credentials: VoiceCredentials,
    ) -> (r: VoiceGatewayLink)
        ensures
            r@ == LinkView::fresh(config@, server_id@, user_id@, credentials@),
    {
        let r = VoiceGatewayLink {
            config,
            server_id,
            user_id,
            credentials,
            state: LinkState::Disconnected,
            heartbeat: None,
            deadline: None,
            ssrc: None,
            modes: Vec::new(),
            mode: None,
            secret_key: None,
            resume_token: None,
            resume_phase: ResumePhase::Idle,
            resume_failures: 0,
        };
        assert(r@.modes =~= Seq::empty());
        r
    }

    /// Where the link stands.
    pub fn state(&self) -> (r: LinkState)
        ensures
            r == self@.state,
    {
        self.state
    }

    /// Whether the link can carry media.
    pub fn is_connected(&self) -> (r: bool)
        ensures
            r == (self@.state == LinkState::Connected),
    {
        self.state == LinkState::Connected
    }

    /// Whether there is a connection, or one is being made.
    pub fn is_live(&self) -> (r: bool)
        ensures
            r == (self@.state != LinkState::Disconnected),
    {
        self.state != LinkState::Disconnected
    }

    /// The credentials in force.
    pub fn credentials(&self) -> (r: &VoiceCredentials)
        ensures
            r@ == self@.credentials,
    {
        &self.credentials
    }

    /// The stream identifier that the gateway assigned.
    pub fn ssrc(&self) -> (r: Option<u32>)
        ensures
            r == self@.ssrc,
    {
        self.ssrc
    }

    /// The encryption mode in force, once one is chosen.
    pub fn mode(&self) -> (r: Option<&String>)
        ensures
            r.deep_view() == self@.mode,
    {
        self.mode.as_ref()
    }

    /// The key for the media transport, once the handshake is complete.
    pub fn secret_key(&self) -> (r: Option<&Vec<u32>>)
        ensures
            match r {
                Some(key) => self@.secret_key == Some(key@),
                None => self@.secret_key is None,
            },
    {
        self.secret_key.as_ref()
    }

    /// When the link wants its next tick.
    pub fn next_wakeup(&self) -> (r: Option<u64>)
        ensures
            r == self@.next_wakeup(),
    {
        let beating = self.state == LinkState::AwaitingReady || self.state
            == LinkState::SelectingProtocol || self.state == LinkState::AwaitingSessionDescription
            || self.state == LinkState::Connected;
        let beat = if beating {
            match self.heartbeat {
                Some(heartbeat) => Some(heartbeat.next_due_ms),
                None => None,
            }
        } else {
            None
        };
        match (self.deadline, beat) {
            (Some(d), Some(b)) => Some(if d <= b {
                d
            } else {
                b
            }),
            (Some(d), None) => Some(d),
            (None, b) => b,
        }
    }

    fn tear_down(&mut self)
        ensures
            final(self)@ == old(self)@.torn_down(),
    {
        self.state = LinkState::Disconnected;
        self.heartbeat = None;
        self.deadline = None;
        self.ssrc = None;
        self.modes = Vec::new();
        self.mode = None;
        self.secret_key = None;
        self.resume_token = None;
        self.resume_phase = ResumePhase::Idle;
        self.resume_failures = 0;
        assert(self@.modes =~= Seq::empty());
    }

    fn stage_deadline(&self, now_ms: u64) -> (r: Option<u64>)
        ensures
            r == self@.stage_deadline(now_ms),
    {
        Some(now_ms.saturating_add(self.config.stage_timeout_ms))
    }

    fn expired(&self, now_ms: u64) -> (r: bool)
        ensures
            r == self@.expired(now_ms),
    {
        match self.deadline {
            Some(d) => d <= now_ms,
            None => false,
        }
    }

    /// Starts the handshake if the link is disconnected and an endpoint is
    /// known.
    pub fn connect(&mut self) -> (reply: LinkReply)
        ensures
            (final(self)@, reply@) == old(self)@.connect(),
    {
        if self.state != LinkState::Disconnected {
            return quiet_reply();
        }
        match copy_opt_text(&self.credentials.endpoint) {
            Some(endpoint) => {
                self.state = LinkState::Connecting;
                reply_with(LinkCommand::Open(endpoint))
            },
            None => quiet_reply(),
        }
    }

    /// Ends the link without retry.
    pub fn close(&mut self) -> (reply: LinkReply)
        ensures
            (final(self)@, reply@) == old(self)@.close(),
    {
        if self.state == LinkState::Disconnected {
            quiet_reply()
        } else {
            self.tear_down();
            reply_with(LinkCommand::Close)
        }
    }

    /// Takes new credentials and starts over from a new connection.
    pub fn rebuild(&mut self, credentials: VoiceCredentials) -> (reply: LinkReply)
        ensures
            (final(self)@, reply@) == old(self)@.rebuild(credentials@),
    {
        let first = self.close();
        self.credentials = credentials;
        let second = self.connect();
        let mut commands = first.commands;
        let mut rest = second.commands;
        let ghost head = commands.deep_view();
        let ghost tail = rest.deep_view();
        commands.append(&mut rest);
        let reply = LinkReply { commands, failure: None };
        assert(reply@.commands =~= head + tail);
        reply
    }

    /// Takes a new secret for the session that is running.
    pub fn refresh(&mut self, token: String)
        ensures
            final(self)@ == old(self)@.refresh(token@),
    {
        self.credentials.token = token;
    }

    fn abandon(&mut self) -> (reply: LinkReply)
        ensures
            (final(self)@, reply@) == old(self)@.abandon(),
    {
        self.tear_down();
        reply_giving_up(LinkError::ResumeExhausted)
    }

    fn degrade(&mut self, cause: LinkError, now_ms: u64) -> (reply: LinkReply)
        ensures
            (final(self)@, reply@) == old(self)@.degrade(cause, now_ms),
    {
        if self.state == LinkState::Disconnected {
            return quiet_reply();
        }
        if self.resume_token.is_some() {
            match copy_opt_text(&self.credentials.endpoint) {
                Some(endpoint) => {
                    self.deadline = self.stage_deadline(now_ms);
                    self.state = LinkState::Resuming;
                    self.resume_phase = ResumePhase::Reconnecting;
                    self.resume_failures = 0;
                    return reply_with_two(LinkCommand::Close, LinkCommand::Open(endpoint));
                },
                None => {},
            }
        }
        self.tear_down();
        reply_giving_up(cause)
    }

    fn resume_failed(&mut self, now_ms: u64) -> (reply: LinkReply)
        ensures
            (final(self)@, reply@) == old(self)@.resume_failed(now_ms),
    {
        let failures = if self.resume_failures == u32::MAX {
            u32::MAX
        } else {
            self.resume_failures + 1
        };
        if failures >= self.config.max_resume_attempts {
            self.abandon()
        } else {
            let wait = backoff(self.config.backoff_base_ms, self.config.backoff_cap_ms, failures);
            self.resume_phase = ResumePhase::Backoff;
            self.resume_failures = failures;
            self.deadline = Some(now_ms.saturating_add(wait));
            reply_with(LinkCommand::Close)
        }
    }

    fn greeted(&mut self, hello: Hello, now_ms: u64) -> (reply: LinkReply)
        ensures
            (final(self)@, reply@) == old(self)@.greeted(hello, now_ms),
    {
        if hello.heartbeat_interval == 0 {
            return self.degrade(LinkError::ProtocolViolation, now_ms);
        }
        let mut heartbeat = HeartbeatLoop::new(hello.heartbeat_interval, now_ms);
        let _ = heartbeat.tick(now_ms);
        self.deadline = self.stage_deadline(now_ms);
        self.state = LinkState::AwaitingReady;
        self.heartbeat = Some(heartbeat);
        send_heartbeat(0)
    }

    fn readied(&mut self, ready: Ready, now_ms: u64) -> (reply: LinkReply)
        ensures
            (final(self)@, reply@) == old(self)@.readied(ready@, now_ms),
    {
        match choose_mode(&self.config.mode_preference, &ready.modes) {
            Some(mode) => {
                let select = SelectProtocol {
                    protocol: "udp".to_string(),
                    data: SelectProtocolData {
                        address: ready.ip,
                        port: ready.port,
                        mode: mode.clone(),
                    },
                };
                self.state = LinkState::SelectingProtocol;
                self.ssrc = Some(ready.ssrc);
                self.modes = ready.modes;
                self.mode = Some(mode);
                self.deadline = None;
                reply_with(LinkCommand::Send(Payload::SelectProtocol(select)))
            },
            None => self.degrade(LinkError::ProtocolViolation, now_ms),
        }
    }

    fn described(&mut self, description: SessionDescription) -> (reply: LinkReply)
        ensures
            (final(self)@, reply@) == old(self)@.described(description@),
    {
        self.state = LinkState::Connected;
        self.mode = Some(description.mode);
        self.secret_key = Some(description.secret_key);
        self.resume_token = Some(
            ResumeToken {
                server_id: self.server_id.clone(),
                session_id: self.credentials.session_id.clone(),
            },
        );
        self.deadline = None;
        quiet_reply()
    }

    fn acknowledged(&mut self, ack: HeartbeatACK, now_ms: u64) -> (reply: LinkReply)
        ensures
            (final(self)@, reply@) == old(self)@.acknowledged(ack, now_ms),
    {
        match self.heartbeat {
            Some(heartbeat) => {
                let mut next = heartbeat;
                if next.ack(ack.nonce, now_ms) {
                    self.heartbeat = Some(next);
                    quiet_reply()
                } else {
                    self.degrade(LinkError::ProtocolViolation, now_ms)
                }
            },
            None => self.degrade(LinkError::ProtocolViolation, now_ms),
        }
    }

    fn resumed(&mut self, now_ms: u64) -> (reply: LinkReply)
        ensures
            (final(self)@, reply@) == old(self)@.resumed(now_ms),
    {
        self.state = LinkState::Connected;
        self.resume_phase = ResumePhase::Idle;
        self.resume_failures = 0;
        self.deadline = None;
        match self.heartbeat {
            Some(heartbeat) => {
                let mut next = heartbeat;
                next.restart(now_ms);
                let _ = next.tick(now_ms);
                self.heartbeat = Some(next);
                send_heartbeat(heartbeat.next_nonce)
            },
            None => quiet_reply(),
        }
    }

    fn beat(&mut self, now_ms: u64) -> (reply: LinkReply)
        ensures
            (final(self)@, reply@) == old(self)@.beat(now_ms),
    {
        match self.heartbeat {
            Some(heartbeat) => {
                let mut next = heartbeat;
                let beat = next.tick(now_ms);
                self.heartbeat = Some(next);
                match beat {
                    Beat::Idle => quiet_reply(),
                    Beat::Send(nonce) => send_heartbeat(nonce),
                    Beat::Dead => self.degrade(LinkError::LivenessFailure, now_ms),
                }
            },
            None => quiet_reply(),
        }
    }

    fn on_message(&mut self, message: Payload, now_ms: u64) -> (reply: LinkReply)
        ensures
            (final(self)@, reply@) == old(self)@.on_message(message@, now_ms),
    {
        match message {
            Payload::ClientDisconnect(_) => self.close(),
            other => match self.state {
                LinkState::Disconnected => quiet_reply(),
                LinkState::Resuming => match other {
                    Payload::Resumed => self.resumed(now_ms),
                    _ => self.abandon(),
                },
                LinkState::Identifying | LinkState::AwaitingHello => match other {
                    Payload::Hello(hello) => self.greeted(hello, now_ms),
                    _ => self.degrade(LinkError::ProtocolViolation, now_ms),
                },
                LinkState::AwaitingReady => match other {
                    Payload::Ready(ready) => self.readied(ready, now_ms),
                    Payload::HeartbeatACK(ack) => self.acknowledged(ack, now_ms),
                    _ => self.degrade(LinkError::ProtocolViolation, now_ms),
                },
                LinkState::SelectingProtocol | LinkState::AwaitingSessionDescription => match other {
                    Payload::SessionDescription(description) => self.described(description),
                    Payload::HeartbeatACK(ack) => self.acknowledged(ack, now_ms),
                    _ => self.degrade(LinkError::ProtocolViolation, now_ms),
                },
                LinkState::Connected => match other {
                    Payload::HeartbeatACK(ack) => self.acknowledged(ack, now_ms),
                    Payload::Speaking(_) => quiet_reply(),
                    _ => self.degrade(LinkError::ProtocolViolation, now_ms),
                },
                LinkState::Connecting => self.degrade(LinkError::ProtocolViolation, now_ms),
            },
        }
    }

    fn on_garbled(&mut self, now_ms: u64) -> (reply: LinkReply)
        ensures
            (final(self)@, reply@) == old(self)@.on_garbled(now_ms),
    {
        match self.state {
            LinkState::Disconnected => quiet_reply(),
            LinkState::Resuming => self.abandon(),
            _ => self.degrade(LinkError::ProtocolViolation, now_ms),
        }
    }

    fn on_established(&mut self, now_ms: u64) -> (reply: LinkReply)
        ensures
            (final(self)@, reply@) == old(self)@.on_established(now_ms),
    {
        match self.state {
            LinkState::Connecting => {
                let identify = Identify {
                    server_id: self.server_id.clone(),
                    user_id: self.user_id.clone(),
                    session_id: self.credentials.session_id.clone(),
                    token: self.credentials.token.clone(),
                };
                self.state = LinkState::Identifying;
                reply_with(LinkCommand::Send(Payload::Identify(identify)))
            },
            LinkState::Resuming => {
                if self.resume_phase != ResumePhase::Reconnecting {
                    return quiet_reply();
                }
                let resume = match &self.resume_token {
                    Some(token) => Some(
                        Resume {
                            server_id: token.server_id.clone(),
                            session_id: token.session_id.clone(),
                            token: self.credentials.token.clone(),
                        },
                    ),
                    None => None,
                };
                match resume {
                    Some(resume) => {
                        self.deadline = self.stage_deadline(now_ms);
                        self.resume_phase = ResumePhase::AwaitingResumed;
                        reply_with(LinkCommand::Send(Payload::Resume(resume)))
                    },
                    None => self.abandon(),
                }
            },
            _ => quiet_reply(),
        }
    }

    fn on_flushed(&mut self, now_ms: u64) -> (reply: LinkReply)
        ensures
            (final(self)@, reply@) == old(self)@.on_flushed(now_ms),
    {
        match self.state {
            LinkState::Identifying => {
                self.deadline = self.stage_deadline(now_ms);
                self.state = LinkState::AwaitingHello;
            },
            LinkState::SelectingProtocol => {
                self.deadline = self.stage_deadline(now_ms);
                self.state = LinkState::AwaitingSessionDescription;
            },
            _ => {},
        }
        quiet_reply()
    }

    fn on_lost(&mut self, now_ms: u64) -> (reply: LinkReply)
        ensures
            (final(self)@, reply@) == old(self)@.on_lost(now_ms),
    {
        match self.state {
            LinkState::Disconnected => quiet_reply(),
            LinkState::Resuming => {
                if self.resume_phase == ResumePhase::Backoff {
                    quiet_reply()
                } else {
                    self.resume_failed(now_ms)
                }
            },
            _ => self.degrade(LinkError::LivenessFailure, now_ms),
        }
    }

    fn on_tick(&mut self, now_ms: u64) -> (reply: LinkReply)
        ensures
            (final(self)@, reply@) == old(self)@.on_tick(now_ms),
    {
        match self.state {
            LinkState::Resuming => {
                if !self.expired(now_ms) {
                    quiet_reply()
                } else if self.resume_phase == ResumePhase::Backoff {
                    match copy_opt_text(&self.credentials.endpoint) {
                        Some(endpoint) => {
                            self.deadline = self.stage_deadline(now_ms);
                            self.resume_phase = ResumePhase::Reconnecting;
                            reply_with(LinkCommand::Open(endpoint))
                        },
                        None => self.abandon(),
                    }
                } else {
                    self.resume_failed(now_ms)
                }
            },
            LinkState::AwaitingHello => {
                if self.expired(now_ms) {
                    self.degrade(LinkError::HandshakeTimeout, now_ms)
                } else {
                    quiet_reply()
                }
            },
            LinkState::AwaitingReady | LinkState::AwaitingSessionDescription => {
                if self.expired(now_ms) {
                    self.degrade(LinkError::HandshakeTimeout, now_ms)
                } else {
                    self.beat(now_ms)
                }
            },
            LinkState::SelectingProtocol | LinkState::Connected => self.beat(now_ms),
            _ => quiet_reply(),
        }
    }

    /// Takes one input at `now_ms` and answers with what to do.
    pub fn step(&mut self, event: LinkEvent, now_ms: u64) -> (reply: LinkReply)
        ensures
            (final(self)@, reply@) == old(self)@.step(event@, now_ms),
    {
        match event {
            LinkEvent::Established => self.on_established(now_ms),
            LinkEvent::Flushed => self.on_flushed(now_ms),
            LinkEvent::Lost => self.on_lost(now_ms),
            LinkEvent::Message(message) => self.on_message(message, now_ms),
            LinkEvent::Garbled => self.on_garbled(now_ms),
            LinkEvent::Tick => self.on_tick(now_ms),
        }
    }
}

} // verus!
