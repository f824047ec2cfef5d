//! What holds of every link, whatever it is fed.

use super::heartbeat::saturating_sum;
use super::model::{
    LinkCommandView, LinkConfigView, LinkError, LinkEventView, LinkState, LinkView, ResumePhase,
    VoiceCredentialsView,
};
use super::payloads::{
    Heartbeat, Hello, PayloadView, ReadyView, SelectProtocolDataView, SelectProtocolView,
    SessionDescriptionView,
};
use super::policy::preferred_mode;
use vstd::prelude::*;

verus! {

/// A new link is well formed.
pub proof fn lemma_fresh_is_wf(
    config: LinkConfigView,
    server_id: Seq<char>,
    user_id: Seq<char>,
    credentials: VoiceCredentialsView,
)
    ensures
        LinkView::fresh(config, server_id, user_id, credentials).wf(),
{
}

/// No input takes a well-formed link to one that is not.
pub proof fn lemma_step_preserves_wf(link: LinkView, event: LinkEventView, now_ms: u64)
    requires
        link.wf(),
    ensures
        link.step(event, now_ms).0.wf(),
{
}

/// Connecting, closing, rebuilding and refreshing keep a link well formed.
pub proof fn lemma_control_preserves_wf(
    link: LinkView,
    credentials: VoiceCredentialsView,
    token: Seq<char>,
)
    requires
        link.wf(),
    ensures
        link.connect().0.wf(),
        link.close().0.wf(),
        link.rebuild(credentials).0.wf(),
        link.refresh(token).wf(),
{
}

/// The handshake, whatever the gateway sends in it: a new link whose
/// credentials name an endpoint opens a connection, identifies itself once the
/// connection stands, starts its heartbeats on Hello with the first one sent
/// at once, asks on Ready for the preferred mode among those on offer, and is
/// connected on the session description, holding the key and the negotiated
/// mode.
pub proof fn lemma_handshake_reaches_connected(
    config: LinkConfigView,
    server_id: Seq<char>,
    user_id: Seq<char>,
    credentials: VoiceCredentialsView,
    hello: Hello,
    ready: ReadyView,
    description: SessionDescriptionView,
    t0: u64,
    t1: u64,
    t2: u64,
    t3: u64,
)
    requires
        credentials.endpoint is Some,
        hello.heartbeat_interval > 0,
        preferred_mode(config.mode_preference, ready.modes) is Some,
    ensures
        ({
            let fresh = LinkView::fresh(config, server_id, user_id, credentials);
            let (connecting, opened) = fresh.connect();
            let (identifying, identified) = connecting.step(LinkEventView::Established, t0);
            let (awaiting, greeted) = identifying.step(
                LinkEventView::Message(PayloadView::Hello(hello)),
                t1,
            );
            let (selecting, selected) = awaiting.step(
                LinkEventView::Message(PayloadView::Ready(ready)),
                t2,
            );
            let (connected, described) = selecting.step(
                LinkEventView::Message(PayloadView::SessionDescription(description)),
                t3,
            );
            &&& connecting.state == LinkState::Connecting
            &&& opened.commands == seq![LinkCommandView::Open(credentials.endpoint->0)]
            &&& identifying.state == LinkState::Identifying
            &&& identified.commands == seq![LinkCommandView::Send(fresh.identify())]
            &&& awaiting.state == LinkState::AwaitingReady
            &&& greeted.commands == seq![
                LinkCommandView::Send(PayloadView::Heartbeat(Heartbeat { nonce: 0 })),
            ]
            &&& awaiting.heartbeat->0.next_due_ms == saturating_sum(t1, hello.heartbeat_interval)
            &&& selecting.state == LinkState::SelectingProtocol
            &&& selected.commands == seq![
                LinkCommandView::Send(
                    PayloadView::SelectProtocol(
                        SelectProtocolView {
                            protocol: "udp"@,
                            data: SelectProtocolDataView {
                                address: ready.ip,
                                port: ready.port,
                                mode: preferred_mode(config.mode_preference, ready.modes)->0,
                            },
                        },
                    ),
                ),
            ]
            &&& connected.state == LinkState::Connected
            &&& described.commands == Seq::<LinkCommandView>::empty()
            &&& connected.secret_key == Some(description.secret_key)
            &&& connected.mode == Some(description.mode)
            &&& connected.ssrc == Some(ready.ssrc)
            &&& opened.failure is None && identified.failure is None && greeted.failure is None
                && selected.failure is None && described.failure is None
        }),
{
}

/// A link reports a failure only when it gives up, and then it is
/// disconnected and has asked for the connection to be closed.
pub proof fn lemma_failure_means_disconnected(link: LinkView, event: LinkEventView, now_ms: u64)
    requires
        link.wf(),
    ensures
        link.step(event, now_ms).1.failure is Some ==> {
            &&& link.step(event, now_ms).0.state == LinkState::Disconnected
            &&& link.state != LinkState::Disconnected
            &&& link.step(event, now_ms).1.commands == seq![LinkCommandView::Close]
        },
{
}

/// Two missed acknowledgements in a row take a connected link to `Resuming`.
///
/// The link is connected and nothing is outstanding. Three heartbeats fall
/// due, at `t0`, `t1` and `t2`, and no acknowledgement arrives in between. The
/// first two ticks send a heartbeat each and leave the link connected. The
/// third finds two heartbeats unanswered: the link closes the connection,
/// opens a new one and is `Resuming`, with the key, the mode and the stream
/// identifier it had.
pub proof fn lemma_two_missed_acks_enter_resuming(link: LinkView, t0: u64, t1: u64, t2: u64)
    requires
        link.wf(),
        link.state == LinkState::Connected,
        link.heartbeat->0.awaiting is None,
        link.heartbeat->0.due(t0),
        link.on_tick(t0).0.heartbeat->0.due(t1),
        link.on_tick(t0).0.on_tick(t1).0.heartbeat->0.due(t2),
    ensures
        link.on_tick(t0).0.state == LinkState::Connected,
        link.on_tick(t0).1.commands.len() == 1 && link.on_tick(t0).1.commands[0] is Send,
        link.on_tick(t0).0.on_tick(t1).0.state == LinkState::Connected,
        link.on_tick(t0).0.on_tick(t1).1.commands.len() == 1 && link.on_tick(t0).0.on_tick(
            t1,
        ).1.commands[0] is Send,
        ({
            let (after, reply) = link.on_tick(t0).0.on_tick(t1).0.on_tick(t2);
            &&& after.state == LinkState::Resuming
            &&& after.resume_phase == ResumePhase::Reconnecting
            &&& reply.failure is None
            &&& reply.commands == seq![
                LinkCommandView::Close,
                LinkCommandView::Open(link.credentials.endpoint->0),
            ]
            &&& after.secret_key == link.secret_key
            &&& after.mode == link.mode
            &&& after.ssrc == link.ssrc
            &&& after.resume_token == link.resume_token
        }),
{
}

/// The same from the moment one heartbeat is outstanding: if it is still
/// unanswered when the next falls due at `t1`, the link sends that one and
/// stays connected, and if that one is unanswered in turn when the next falls
/// due at `t2`, the link is `Resuming`.
pub proof fn lemma_unanswered_heartbeats_enter_resuming(link: LinkView, t1: u64, t2: u64)
    requires
        link.wf(),
        link.state == LinkState::Connected,
        link.heartbeat->0.awaiting is Some,
        link.heartbeat->0.missed == 0,
        link.heartbeat->0.due(t1),
        link.on_tick(t1).0.heartbeat->0.due(t2),
    ensures
        link.on_tick(t1).0.state == LinkState::Connected,
        link.on_tick(t1).1.commands == seq![
            LinkCommandView::Send(
                PayloadView::Heartbeat(Heartbeat { nonce: link.heartbeat->0.next_nonce }),
            ),
        ],
        link.on_tick(t1).0.on_tick(t2).0.state == LinkState::Resuming,
        link.on_tick(t1).0.on_tick(t2).1.commands == seq![
            LinkCommandView::Close,
            LinkCommandView::Open(link.credentials.endpoint->0),
        ],
        link.on_tick(t1).0.on_tick(t2).1.failure is None,
{
}

/// An acknowledgement in between keeps the link connected: if the
/// outstanding heartbeat is acknowledged before the next falls due, that tick
/// sends a heartbeat and the link stays connected with nothing missed.
pub proof fn lemma_acknowledged_heartbeat_keeps_link(link: LinkView, t_ack: u64, t1: u64)
    requires
        link.wf(),
        link.state == LinkState::Connected,
        link.heartbeat->0.awaiting is Some,
    ensures
        ({
            let ack = PayloadView::HeartbeatACK(
                super::payloads::HeartbeatACK { nonce: link.heartbeat->0.awaiting->0 },
            );
            let (acked, reply) = link.on_message(ack, t_ack);
            &&& acked.state == LinkState::Connected
            &&& reply == super::model::quiet()
            &&& acked.heartbeat->0.missed == 0
            &&& acked.heartbeat->0.awaiting is None
            &&& acked.heartbeat->0.last_ack_ms == Some(t_ack)
            &&& acked.heartbeat->0.due(t1) ==> acked.on_tick(t1).0.state == LinkState::Connected
        }),
{
}

/// Resumed brings a resuming link back to `Connected` without a failure and
/// with the key, the mode, the stream identifier and the credentials it had.
pub proof fn lemma_resumed_restores_connected(link: LinkView, now_ms: u64)
    requires
        link.wf(),
        link.state == LinkState::Resuming,
    ensures
        ({
            let (after, reply) = link.step(LinkEventView::Message(PayloadView::Resumed), now_ms);
            &&& after.state == LinkState::Connected
            &&& reply.failure is None
            &&& after.secret_key == link.secret_key
            &&& after.mode == link.mode
            &&& after.ssrc == link.ssrc
            &&& after.credentials == link.credentials
            &&& after.resume_token == link.resume_token
        }),
{
}

/// While resuming, any message but Resumed and ClientDisconnect ends the
/// link with `ResumeExhausted`.
pub proof fn lemma_resume_rejects_other_messages(link: LinkView, message: PayloadView, now_ms: u64)
    requires
        link.state == LinkState::Resuming,
        !(message is Resumed),
        !(message is ClientDisconnect),
    ensures
        link.on_message(message, now_ms).0.state == LinkState::Disconnected,
        link.on_message(message, now_ms).1.failure == Some(LinkError::ResumeExhausted),
{
}

/// ClientDisconnect ends a link in any state, without retry and without a
/// failure being reported.
pub proof fn lemma_client_disconnect_ends_link(link: LinkView, message: PayloadView, now_ms: u64)
    requires
        message is ClientDisconnect,
    ensures
        link.on_message(message, now_ms).0.state == LinkState::Disconnected,
        link.on_message(message, now_ms).1.failure is None,
{
}

/// The attempts to resume are bounded: a failed attempt that brings the
/// failures in a row to the configured number ends the link with
/// `ResumeExhausted`, and before that each failure is followed by a wait.
pub proof fn lemma_resume_attempts_are_bounded(link: LinkView, now_ms: u64)
    requires
        link.wf(),
        link.state == LinkState::Resuming,
    ensures
        link.failures_after() >= link.config.max_resume_attempts ==> {
            &&& link.resume_failed(now_ms).0.state == LinkState::Disconnected
            &&& link.resume_failed(now_ms).1.failure == Some(LinkError::ResumeExhausted)
        },
        link.failures_after() < link.config.max_resume_attempts ==> {
            &&& link.resume_failed(now_ms).0.state == LinkState::Resuming
            &&& link.resume_failed(now_ms).0.resume_phase == ResumePhase::Backoff
            &&& link.resume_failed(now_ms).0.resume_failures == link.resume_failures + 1
            &&& link.resume_failed(now_ms).1.failure is None
        },
{
}

/// A wait that runs out in a stage of the handshake ends a link that has
/// never been connected: it is torn down and reports the timeout.
pub proof fn lemma_handshake_timeout(link: LinkView, now_ms: u64)
    requires
        link.wf(),
        link.state == LinkState::AwaitingHello || link.state == LinkState::AwaitingReady
            || link.state == LinkState::AwaitingSessionDescription,
        link.expired(now_ms),
    ensures
        link.on_tick(now_ms).0.state == LinkState::Disconnected,
        link.on_tick(now_ms).1.failure == Some(LinkError::HandshakeTimeout),
{
}

/// A violation of the protocol is handled like a broken connection: a link
/// that is up and not resuming ends up in the same state and asks for the same,
/// whether the gateway sent something unreadable or the connection broke. Only
/// the failure that a link without a resume token reports bears another name.
pub proof fn lemma_violation_is_handled_like_a_broken_connection(link: LinkView, now_ms: u64)
    requires
        link.state != LinkState::Resuming,
    ensures
        link.on_garbled(now_ms).0 == link.on_lost(now_ms).0,
        link.on_garbled(now_ms).1.commands == link.on_lost(now_ms).1.commands,
        link.on_garbled(now_ms).1.failure is Some <==> link.on_lost(now_ms).1.failure is Some,
{
}

/// A tick before the time that the link names as its next wakeup changes
/// nothing and asks for nothing; so does any tick of a link that names none.
pub proof fn lemma_tick_before_wakeup_is_idle(link: LinkView, now_ms: u64)
    requires
        link.wf(),
        match link.next_wakeup() {
            Some(at) => now_ms < at,
            None => true,
        },
    ensures
        link.on_tick(now_ms).0 == link,
        link.on_tick(now_ms).1 == super::model::quiet(),
{
}

} // verus!
