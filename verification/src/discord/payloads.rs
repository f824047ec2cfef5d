//! Messages of the voice gateway, in both directions.

use vstd::prelude::*;

verus! {

/// Every message of the voice gateway.
#[derive(Debug, Clone, PartialEq, Eq)]
pub enum Payload {
    Identify(Identify),
    SelectProtocol(SelectProtocol),
    Ready(Ready),
    Heartbeat(Heartbeat),
    SessionDescription(SessionDescription),
    Speaking(Speaking),
    HeartbeatACK(HeartbeatACK),
    Resume(Resume),
    Hello(Hello),
    /// Sent by the gateway when a resume succeeded; it has no body.
    Resumed,
    ClientDisconnect(ClientDisconnect),
}

/// Opens a gateway session for a user in a guild.
#[derive(Debug, Clone, PartialEq, Eq)]
pub struct Identify {
    pub server_id: String,
    pub user_id: String,
    pub session_id: String,
    pub token: String,
}

/// Tells the gateway how media will be sent.
#[derive(Debug, Clone, PartialEq, Eq)]
pub struct SelectProtocol {
    pub protocol: String,
    pub data: SelectProtocolData,
}

/// The address and the encryption mode of the media transport.
#[derive(Debug, Clone, PartialEq, Eq)]
pub struct SelectProtocolData {
    pub address: String,
    pub port: u16,
    pub mode: String,
}

/// The gateway accepted the session: where to send media, and the
/// encryption modes on offer.
#[derive(Debug, Clone, PartialEq, Eq)]
pub struct Ready {
    pub ssrc: u32,
    pub ip: String,
    pub port: u16,
    pub modes: Vec<String>,
    pub heartbeat_interval: u64,
}

/// Asks the gateway for a sign of life.
#[derive(Debug, Clone, Copy, PartialEq, Eq, Structural)]
pub struct Heartbeat {
    pub nonce: u64,
}

/// The encryption mode and key of the media transport.
#[derive(Debug, Clone, PartialEq, Eq)]
pub struct SessionDescription {
    pub mode: String,
    pub secret_key: Vec<u32>,
}

/// Tells who is sending audio.
#[derive(Debug, Clone, Copy, PartialEq, Eq, Structural)]
pub struct Speaking {
    pub speaking: u8,
    pub delay: u8,
    pub ssrc: u32,
}

/// The gateway's answer to a heartbeat, with the nonce of that heartbeat.
#[derive(Debug, Clone, Copy, PartialEq, Eq, Structural)]
pub struct HeartbeatACK {
    pub nonce: u64,
}

/// Takes up a gateway session on a new connection.
#[derive(Debug, Clone, PartialEq, Eq)]
pub struct Resume {
    pub server_id: String,
    pub session_id: String,
    pub token: String,
}

/// The first message of the gateway: how often it wants heartbeats.
#[derive(Debug, Clone, Copy, PartialEq, Eq, Structural)]
pub struct Hello {
    pub heartbeat_interval: u64,
}

/// The gateway ended the session.
#[derive(Debug, Clone, PartialEq, Eq)]
pub struct ClientDisconnect {
    pub reason: String,
}

pub struct IdentifyView {
    pub server_id: Seq<char>,
    pub user_id: Seq<char>,
    pub session_id: Seq<char>,
    pub token: Seq<char>,
}

pub struct SelectProtocolDataView {
    pub address: Seq<char>,
    pub port: u16,
    pub mode: Seq<char>,
}

pub struct SelectProtocolView {
    pub protocol: Seq<char>,
    pub data: SelectProtocolDataView,
}

pub struct ReadyView {
    pub ssrc: u32,
    pub ip: Seq<char>,
    pub port: u16,
    pub modes: Seq<Seq<char>>,
    pub heartbeat_interval: u64,
}

pub struct SessionDescriptionView {
    pub mode: Seq<char>,
    pub secret_key: Seq<u32>,
}

pub struct ResumeView {
    pub server_id: Seq<char>,
    pub session_id: Seq<char>,
    pub token: Seq<char>,
}

pub struct ClientDisconnectView {
    pub reason: Seq<char>,
}

/// The mathematical value of a [`Payload`].
pub enum PayloadView {
    Identify(IdentifyView),
    SelectProtocol(SelectProtocolView),
    Ready(ReadyView),
    Heartbeat(Heartbeat),
    SessionDescription(SessionDescriptionView),
    Speaking(Speaking),
    HeartbeatACK(HeartbeatACK),
    Resume(ResumeView),
    Hello(Hello),
    Resumed,
    ClientDisconnect(ClientDisconnectView),
}

impl View for Identify {
    type V = IdentifyView;

    open spec fn view(&self) -> IdentifyView {
        IdentifyView {
            server_id: self.server_id@,
            user_id: self.user_id@,
            session_id: self.session_id@,
            token: self.token@,
        }
    }
}

impl View for SelectProtocolData {
    type V = SelectProtocolDataView;

    open spec fn view(&self) -> SelectProtocolDataView {
        SelectProtocolDataView { address: self.address@, port: self.port, mode: self.mode@ }
    }
}

impl View for SelectProtocol {
    type V = SelectProtocolView;

    open spec fn view(&self) -> SelectProtocolView {
        SelectProtocolView { protocol: self.protocol@, data: self.data@ }
    }
}

impl View for Ready {
    type V = ReadyView;

    open spec fn view(&self) -> ReadyView {
        ReadyView {
            ssrc: self.ssrc,
            ip: self.ip@,
            port: self.port,
            modes: self.modes.deep_view(),
            heartbeat_interval: self.heartbeat_interval,
        }
    }
}

impl View for SessionDescription {
    type V = SessionDescriptionView;

    open spec fn view(&self) -> SessionDescriptionView {
        SessionDescriptionView { mode: self.mode@, secret_key: self.secret_key@ }
    }
}

impl View for Resume {
    type V = ResumeView;

    open spec fn view(&self) -> ResumeView {
        ResumeView { server_id: self.server_id@, session_id: self.session_id@, token: self.token@ }
    }
}

impl View for ClientDisconnect {
    type V = ClientDisconnectView;

    open spec fn view(&self) -> ClientDisconnectView {
        ClientDisconnectView { reason: self.reason@ }
    }
}

impl View for Payload {
    type V = PayloadView;

    open spec fn view(&self) -> PayloadView {
        match self {
            Payload::Identify(p) => PayloadView::Identify(p@),
            Payload::SelectProtocol(p) => PayloadView::SelectProtocol(p@),
            Payload::Ready(p) => PayloadView::Ready(p@),
            Payload::Heartbeat(p) => PayloadView::Heartbeat(*p),
            Payload::SessionDescription(p) => PayloadView::SessionDescription(p@),
            Payload::Speaking(p) => PayloadView::Speaking(*p),
            Payload::HeartbeatACK(p) => PayloadView::HeartbeatACK(*p),
            Payload::Resume(p) => PayloadView::Resume(p@),
            Payload::Hello(p) => PayloadView::Hello(*p),
            Payload::Resumed => PayloadView::Resumed,
            Payload::ClientDisconnect(p) => PayloadView::ClientDisconnect(p@),
        }
    }
}

impl DeepView for Payload {
    type V = PayloadView;

    open spec fn deep_view(&self) -> PayloadView {
        self@
    }
}

} // verus!
