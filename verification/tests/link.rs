use jukebox::discord::heartbeat::{Beat, HeartbeatLoop, MISSED_ACK_LIMIT};
use jukebox::discord::link::{
    LinkCommand, LinkConfig, LinkEvent, LinkReply, VoiceCredentials, VoiceGatewayLink,
};
use jukebox::discord::model::{LinkError, LinkState};
use jukebox::discord::payloads::{
    ClientDisconnect, Heartbeat, HeartbeatACK, Hello, Identify, Payload, Ready, Resume,
    SelectProtocol, SelectProtocolData, SessionDescription, Speaking,
};
use jukebox::discord::policy::{backoff, choose_mode, offers};

const STRONG: &str = "aead_xchacha20_poly1305_rtpsize";
const WEAK: &str = "xsalsa20_poly1305";

fn link_config(attempts: u32) -> LinkConfig {
    LinkConfig {
        stage_timeout_ms: 5000,
        max_resume_attempts: attempts,
        backoff_base_ms: 1000,
        backoff_cap_ms: 30000,
        mode_preference: vec![STRONG.to_string(), WEAK.to_string()],
    }
}

fn credentials(endpoint: Option<&str>) -> VoiceCredentials {
    VoiceCredentials {
        session_id: "s1".to_string(),
        token: "t1".to_string(),
        endpoint: endpoint.map(|e| e.to_string()),
    }
}

fn new_link(attempts: u32) -> VoiceGatewayLink {
    VoiceGatewayLink::new(
        link_config(attempts),
        "g1".to_string(),
        "u1".to_string(),
        credentials(Some("us-west.discord.media")),
    )
}

fn ready(modes: Vec<&str>) -> Payload {
    Payload::Ready(Ready {
        ssrc: 1,
        ip: "1.2.3.4".to_string(),
        port: 5555,
        modes: modes.into_iter().map(|m| m.to_string()).collect(),
        heartbeat_interval: 5000,
    })
}

fn description() -> Payload {
    Payload::SessionDescription(SessionDescription {
        mode: STRONG.to_string(),
        secret_key: vec![1, 2, 3],
    })
}

fn quiet() -> LinkReply {
    LinkReply { commands: vec![], failure: None }
}

fn asks(commands: Vec<LinkCommand>) -> LinkReply {
    LinkReply { commands, failure: None }
}

fn beat(nonce: u64) -> LinkCommand {
    LinkCommand::Send(Payload::Heartbeat(Heartbeat { nonce }))
}

fn open() -> LinkCommand {
    LinkCommand::Open("us-west.discord.media".to_string())
}

/// A link that completed the handshake at time 30, with heartbeat 0 sent at
/// time 10 and not yet acknowledged.
fn connected_link(attempts: u32) -> VoiceGatewayLink {
    let mut link = new_link(attempts);
    link.connect();
    link.step(LinkEvent::Established, 0);
    link.step(LinkEvent::Message(Payload::Hello(Hello { heartbeat_interval: 5000 })), 10);
    link.step(LinkEvent::Message(ready(vec![STRONG])), 20);
    link.step(LinkEvent::Message(description()), 30);
    assert_eq!(link.state(), LinkState::Connected);
    link
}

/// A link that went from connected to resuming at time 10010.
fn resuming_link(attempts: u32) -> VoiceGatewayLink {
    let mut link = connected_link(attempts);
    link.step(LinkEvent::Tick, 5010);
    link.step(LinkEvent::Tick, 10010);
    assert_eq!(link.state(), LinkState::Resuming);
    link
}

#[test]
fn heartbeat_fires_at_once_and_then_every_interval() {
    let mut h = HeartbeatLoop::new(5000, 100);
    assert_eq!(h.next_due_ms, 100);
    assert_eq!(h.tick(100), Beat::Send(0));
    assert_eq!(h.next_due_ms, 5100);
    assert_eq!(h.awaiting, Some(0));
    assert_eq!(h.tick(5099), Beat::Idle);
    assert!(h.ack(0, 200));
    assert_eq!(h.last_ack_ms, Some(200));
    assert_eq!(h.awaiting, None);
    assert_eq!(h.tick(5100), Beat::Send(1));
    assert_eq!(h.missed, 0);
}

#[test]
fn heartbeat_two_missed_acks_are_fatal() {
    assert_eq!(MISSED_ACK_LIMIT, 2);
    let mut h = HeartbeatLoop::new(1000, 0);
    assert_eq!(h.tick(0), Beat::Send(0));
    assert_eq!(h.tick(1000), Beat::Send(1));
    assert_eq!(h.missed, 1);
    assert_eq!(h.tick(2000), Beat::Dead);
    assert_eq!(h.missed, 2);
}

#[test]
fn heartbeat_ack_between_beats_keeps_the_link_alive() {
    let mut h = HeartbeatLoop::new(1000, 0);
    assert_eq!(h.tick(0), Beat::Send(0));
    assert_eq!(h.tick(1000), Beat::Send(1));
    assert!(h.ack(1, 1500));
    assert_eq!(h.missed, 0);
    assert_eq!(h.tick(2000), Beat::Send(2));
    assert_eq!(h.tick(3000), Beat::Send(3));
    assert_eq!(h.tick(4000), Beat::Dead);
}

#[test]
fn heartbeat_wrong_nonce_is_not_an_ack() {
    let mut h = HeartbeatLoop::new(1000, 0);
    assert_eq!(h.tick(0), Beat::Send(0));
    let before = h;
    assert!(!h.ack(7, 10));
    assert_eq!(h, before);
    let mut idle = HeartbeatLoop::new(1000, 0);
    assert!(!idle.ack(0, 10));
}

#[test]
fn heartbeat_nonce_wraps_and_time_saturates() {
    let mut h = HeartbeatLoop::new(1000, 0);
    h.next_nonce = u64::MAX;
    assert_eq!(h.tick(u64::MAX - 10), Beat::Send(u64::MAX));
    assert_eq!(h.next_nonce, 0);
    assert_eq!(h.next_due_ms, u64::MAX);
}

#[test]
fn heartbeat_restart_keeps_interval_and_counter() {
    let mut h = HeartbeatLoop::new(1000, 0);
    assert_eq!(h.tick(0), Beat::Send(0));
    assert_eq!(h.tick(1000), Beat::Send(1));
    h.restart(7000);
    assert_eq!(h.interval_ms, 1000);
    assert_eq!(h.awaiting, None);
    assert_eq!(h.missed, 0);
    assert_eq!(h.tick(7000), Beat::Send(2));
}

#[test]
fn backoff_doubles_up_to_the_cap() {
    assert_eq!(backoff(1000, 30000, 0), 0);
    assert_eq!(backoff(1000, 30000, 1), 1000);
    assert_eq!(backoff(1000, 30000, 2), 2000);
    assert_eq!(backoff(1000, 30000, 3), 4000);
    assert_eq!(backoff(1000, 30000, 5), 16000);
    assert_eq!(backoff(1000, 30000, 6), 30000);
    assert_eq!(backoff(1000, 30000, 40), 30000);
    assert_eq!(backoff(1000, 30000, u32::MAX), 30000);
    assert_eq!(backoff(0, 30000, 9), 0);
    assert_eq!(backoff(50000, 30000, 1), 30000);
    assert_eq!(backoff(3, u64::MAX, 63), 3 << 62);
    assert_eq!(backoff(3, u64::MAX, 64), u64::MAX);
    assert_eq!(backoff(1, u64::MAX, 64), 1 << 63);
    assert_eq!(backoff(1, u64::MAX, 65), u64::MAX);
    assert_eq!(backoff(15000, 30000, 2), 30000);
}

#[test]
fn mode_choice_follows_the_preference_list() {
    let preference = vec![STRONG.to_string(), WEAK.to_string()];
    let both = vec![WEAK.to_string(), STRONG.to_string()];
    assert_eq!(choose_mode(&preference, &both), Some(STRONG.to_string()));
    let weak_only = vec!["plain".to_string(), WEAK.to_string()];
    assert_eq!(choose_mode(&preference, &weak_only), Some(WEAK.to_string()));
    let unknown = vec!["plain".to_string()];
    assert_eq!(choose_mode(&preference, &unknown), None);
    assert_eq!(choose_mode(&preference, &vec![]), None);
    assert_eq!(choose_mode(&vec![], &both), None);
    let ranking: Vec<String> =
        ["Priority 1", "Priority 2", "Priority 3"].iter().map(|p| p.to_string()).collect();
    let pick = |offered: Vec<&str>| {
        choose_mode(&ranking, &offered.into_iter().map(|p| p.to_string()).collect())
    };
    assert_eq!(pick(vec!["Priority 2", "Priority 1", "Priority 3"]), Some("Priority 1".to_string()));
    assert_eq!(pick(vec!["Priority 3", "Priority 2"]), Some("Priority 2".to_string()));
    assert_eq!(pick(vec!["Priority 3"]), Some("Priority 3".to_string()));
    assert!(offers(&both, &WEAK.to_string()));
    assert!(!offers(&unknown, &WEAK.to_string()));
}

#[test]
fn link_without_endpoint_does_not_connect() {
    let mut link = VoiceGatewayLink::new(
        link_config(2),
        "g1".to_string(),
        "u1".to_string(),
        credentials(None),
    );
    assert_eq!(link.state(), LinkState::Disconnected);
    assert!(!link.is_live());
    assert_eq!(link.connect(), quiet());
    assert_eq!(link.state(), LinkState::Disconnected);
    assert_eq!(link.next_wakeup(), None);
}

#[test]
fn link_handshake_reaches_connected() {
    let mut link = new_link(2);
    assert_eq!(link.connect(), asks(vec![open()]));
    assert_eq!(link.state(), LinkState::Connecting);
    assert!(link.is_live());
    assert_eq!(link.connect(), quiet());

    let identify = Payload::Identify(Identify {
        server_id: "g1".to_string(),
        user_id: "u1".to_string(),
        session_id: "s1".to_string(),
        token: "t1".to_string(),
    });
    assert_eq!(link.step(LinkEvent::Established, 0), asks(vec![LinkCommand::Send(identify)]));
    assert_eq!(link.state(), LinkState::Identifying);
    assert_eq!(link.next_wakeup(), None);

    assert_eq!(link.step(LinkEvent::Flushed, 5), quiet());
    assert_eq!(link.state(), LinkState::AwaitingHello);
    assert_eq!(link.next_wakeup(), Some(5005));

    let hello = Payload::Hello(Hello { heartbeat_interval: 5000 });
    assert_eq!(link.step(LinkEvent::Message(hello), 10), asks(vec![beat(0)]));
    assert_eq!(link.state(), LinkState::AwaitingReady);
    assert_eq!(link.next_wakeup(), Some(5010));

    let select = Payload::SelectProtocol(SelectProtocol {
        protocol: "udp".to_string(),
        data: SelectProtocolData {
            address: "1.2.3.4".to_string(),
            port: 5555,
            mode: STRONG.to_string(),
        },
    });
    assert_eq!(
        link.step(LinkEvent::Message(ready(vec![WEAK, STRONG])), 20),
        asks(vec![LinkCommand::Send(select)])
    );
    assert_eq!(link.state(), LinkState::SelectingProtocol);
    assert_eq!(link.ssrc(), Some(1));
    assert_eq!(link.mode(), Some(&STRONG.to_string()));
    assert_eq!(link.secret_key(), None);

    assert_eq!(link.step(LinkEvent::Flushed, 25), quiet());
    assert_eq!(link.state(), LinkState::AwaitingSessionDescription);
    assert_eq!(link.next_wakeup(), Some(5010));

    assert_eq!(link.step(LinkEvent::Message(description()), 30), quiet());
    assert_eq!(link.state(), LinkState::Connected);
    assert!(link.is_connected());
    assert_eq!(link.secret_key(), Some(&vec![1, 2, 3]));
    assert_eq!(link.mode(), Some(&STRONG.to_string()));
    assert_eq!(link.next_wakeup(), Some(5010));
}

#[test]
fn link_heartbeats_while_connected() {
    let mut link = connected_link(2);
    assert_eq!(link.step(LinkEvent::Tick, 100), quiet());
    let ack = Payload::HeartbeatACK(HeartbeatACK { nonce: 0 });
    assert_eq!(link.step(LinkEvent::Message(ack), 120), quiet());
    assert_eq!(link.step(LinkEvent::Tick, 5010), asks(vec![beat(1)]));
    assert_eq!(link.next_wakeup(), Some(10010));
    let ack = Payload::HeartbeatACK(HeartbeatACK { nonce: 1 });
    assert_eq!(link.step(LinkEvent::Message(ack), 5020), quiet());
    assert_eq!(link.step(LinkEvent::Tick, 10010), asks(vec![beat(2)]));
    assert_eq!(link.step(LinkEvent::Tick, 15010), asks(vec![beat(3)]));
    assert_eq!(link.state(), LinkState::Connected);
}

#[test]
fn link_two_missed_acks_enter_resuming() {
    let mut link = connected_link(2);
    assert_eq!(link.step(LinkEvent::Tick, 5010), asks(vec![beat(1)]));
    assert_eq!(link.state(), LinkState::Connected);
    assert_eq!(link.step(LinkEvent::Tick, 10010), asks(vec![LinkCommand::Close, open()]));
    assert_eq!(link.state(), LinkState::Resuming);
    assert_eq!(link.secret_key(), Some(&vec![1, 2, 3]));
    assert_eq!(link.next_wakeup(), Some(15010));
}

#[test]
fn link_resumed_restores_connected() {
    let mut link = resuming_link(2);
    let resume = Payload::Resume(Resume {
        server_id: "g1".to_string(),
        session_id: "s1".to_string(),
        token: "t1".to_string(),
    });
    assert_eq!(
        link.step(LinkEvent::Established, 10500),
        asks(vec![LinkCommand::Send(resume)])
    );
    assert_eq!(link.state(), LinkState::Resuming);
    assert_eq!(link.next_wakeup(), Some(15500));
    assert_eq!(link.step(LinkEvent::Message(Payload::Resumed), 10600), asks(vec![beat(2)]));
    assert_eq!(link.state(), LinkState::Connected);
    assert_eq!(link.secret_key(), Some(&vec![1, 2, 3]));
    assert_eq!(link.mode(), Some(&STRONG.to_string()));
    assert_eq!(link.ssrc(), Some(1));
    assert_eq!(link.next_wakeup(), Some(15600));
}

#[test]
fn link_resume_uses_refreshed_token() {
    let mut link = connected_link(2);
    link.refresh("t2".to_string());
    assert_eq!(link.state(), LinkState::Connected);
    assert_eq!(link.credentials().token, "t2");
    link.step(LinkEvent::Lost, 100);
    assert_eq!(link.state(), LinkState::Resuming);
    let resume = Payload::Resume(Resume {
        server_id: "g1".to_string(),
        session_id: "s1".to_string(),
        token: "t2".to_string(),
    });
    assert_eq!(link.step(LinkEvent::Established, 200), asks(vec![LinkCommand::Send(resume)]));
}

#[test]
fn link_resume_gives_up_at_second_failure_by_default() {
    let mut link = VoiceGatewayLink::new(
        LinkConfig::standard(vec![STRONG.to_string()]),
        "g1".to_string(),
        "u1".to_string(),
        credentials(Some("us-west.discord.media")),
    );
    link.connect();
    link.step(LinkEvent::Established, 0);
    link.step(LinkEvent::Message(Payload::Hello(Hello { heartbeat_interval: 5000 })), 10);
    link.step(LinkEvent::Message(ready(vec![STRONG])), 20);
    link.step(LinkEvent::Message(description()), 30);
    assert_eq!(link.step(LinkEvent::Lost, 100), asks(vec![LinkCommand::Close, open()]));
    assert_eq!(link.step(LinkEvent::Lost, 200), asks(vec![LinkCommand::Close]));
    assert_eq!(link.state(), LinkState::Resuming);
    assert_eq!(link.next_wakeup(), Some(1200));
    assert_eq!(link.step(LinkEvent::Tick, 1199), quiet());
    assert_eq!(link.step(LinkEvent::Lost, 1199), quiet());
    assert_eq!(link.step(LinkEvent::Tick, 1200), asks(vec![open()]));
    assert_eq!(
        link.step(LinkEvent::Lost, 1300),
        LinkReply {
            commands: vec![LinkCommand::Close],
            failure: Some(LinkError::ResumeExhausted),
        }
    );
    assert_eq!(link.state(), LinkState::Disconnected);
    assert_eq!(link.secret_key(), None);
}

#[test]
fn link_resume_backs_off_between_attempts() {
    let mut link = resuming_link(3);
    assert_eq!(link.step(LinkEvent::Tick, 15009), quiet());
    assert_eq!(link.step(LinkEvent::Tick, 15010), asks(vec![LinkCommand::Close]));
    assert_eq!(link.next_wakeup(), Some(16010));
    assert_eq!(link.step(LinkEvent::Tick, 16010), asks(vec![open()]));
    assert_eq!(link.next_wakeup(), Some(21010));
    link.step(LinkEvent::Established, 16100);
    assert_eq!(link.next_wakeup(), Some(21100));
    assert_eq!(link.step(LinkEvent::Tick, 21100), asks(vec![LinkCommand::Close]));
    assert_eq!(link.next_wakeup(), Some(23100));
    assert_eq!(link.step(LinkEvent::Tick, 23100), asks(vec![open()]));
    assert_eq!(
        link.step(LinkEvent::Lost, 23200),
        LinkReply {
            commands: vec![LinkCommand::Close],
            failure: Some(LinkError::ResumeExhausted),
        }
    );
    assert_eq!(link.state(), LinkState::Disconnected);
}

#[test]
fn link_resuming_rejects_other_messages() {
    let mut link = resuming_link(3);
    link.step(LinkEvent::Established, 10500);
    let hello = Payload::Hello(Hello { heartbeat_interval: 5000 });
    assert_eq!(
        link.step(LinkEvent::Message(hello), 10600),
        LinkReply {
            commands: vec![LinkCommand::Close],
            failure: Some(LinkError::ResumeExhausted),
        }
    );
    assert_eq!(link.state(), LinkState::Disconnected);
}

#[test]
fn link_client_disconnect_ends_without_retry() {
    let bye = || Payload::ClientDisconnect(ClientDisconnect { reason: "bye".to_string() });
    let mut link = connected_link(2);
    assert_eq!(link.step(LinkEvent::Message(bye()), 100), asks(vec![LinkCommand::Close]));
    assert_eq!(link.state(), LinkState::Disconnected);
    assert_eq!(link.step(LinkEvent::Message(bye()), 200), quiet());
    assert_eq!(link.step(LinkEvent::Tick, 99999), quiet());
    assert_eq!(link.step(LinkEvent::Lost, 99999), quiet());

    let mut link = resuming_link(2);
    assert_eq!(link.step(LinkEvent::Message(bye()), 10100), asks(vec![LinkCommand::Close]));
    assert_eq!(link.state(), LinkState::Disconnected);

    let mut link = new_link(2);
    link.connect();
    assert_eq!(link.step(LinkEvent::Message(bye()), 1), asks(vec![LinkCommand::Close]));
    assert_eq!(link.state(), LinkState::Disconnected);
}

#[test]
fn link_handshake_timeout_ends_a_link_that_cannot_resume() {
    let mut link = new_link(2);
    link.connect();
    link.step(LinkEvent::Established, 0);
    link.step(LinkEvent::Flushed, 5);
    assert_eq!(link.step(LinkEvent::Tick, 5004), quiet());
    assert_eq!(
        link.step(LinkEvent::Tick, 5005),
        LinkReply {
            commands: vec![LinkCommand::Close],
            failure: Some(LinkError::HandshakeTimeout),
        }
    );
    assert_eq!(link.state(), LinkState::Disconnected);

    let mut link = new_link(2);
    link.connect();
    link.step(LinkEvent::Established, 0);
    link.step(LinkEvent::Message(Payload::Hello(Hello { heartbeat_interval: 9000 })), 10);
    assert_eq!(
        link.step(LinkEvent::Tick, 5010),
        LinkReply {
            commands: vec![LinkCommand::Close],
            failure: Some(LinkError::HandshakeTimeout),
        }
    );
}

#[test]
fn link_unexpected_message_is_a_violation() {
    let mut link = new_link(2);
    link.connect();
    link.step(LinkEvent::Established, 0);
    assert_eq!(
        link.step(LinkEvent::Message(ready(vec![STRONG])), 10),
        LinkReply {
            commands: vec![LinkCommand::Close],
            failure: Some(LinkError::ProtocolViolation),
        }
    );
    assert_eq!(link.state(), LinkState::Disconnected);

    let mut link = connected_link(2);
    let hello = Payload::Hello(Hello { heartbeat_interval: 5000 });
    assert_eq!(
        link.step(LinkEvent::Message(hello), 100),
        asks(vec![LinkCommand::Close, open()])
    );
    assert_eq!(link.state(), LinkState::Resuming);
}

#[test]
fn link_wrong_ack_nonce_degrades() {
    let mut link = connected_link(2);
    let ack = Payload::HeartbeatACK(HeartbeatACK { nonce: 9 });
    assert_eq!(
        link.step(LinkEvent::Message(ack), 100),
        asks(vec![LinkCommand::Close, open()])
    );
    assert_eq!(link.state(), LinkState::Resuming);
}

#[test]
fn link_rejects_zero_interval_and_unknown_modes() {
    let mut link = new_link(2);
    link.connect();
    link.step(LinkEvent::Established, 0);
    assert_eq!(
        link.step(LinkEvent::Message(Payload::Hello(Hello { heartbeat_interval: 0 })), 10),
        LinkReply {
            commands: vec![LinkCommand::Close],
            failure: Some(LinkError::ProtocolViolation),
        }
    );

    let mut link = new_link(2);
    link.connect();
    link.step(LinkEvent::Established, 0);
    link.step(LinkEvent::Message(Payload::Hello(Hello { heartbeat_interval: 5000 })), 10);
    assert_eq!(
        link.step(LinkEvent::Message(ready(vec!["plain"])), 20),
        LinkReply {
            commands: vec![LinkCommand::Close],
            failure: Some(LinkError::ProtocolViolation),
        }
    );
    assert_eq!(link.state(), LinkState::Disconnected);
}

#[test]
fn link_speaking_is_ignored_while_connected() {
    let mut link = connected_link(2);
    let speaking = Payload::Speaking(Speaking { speaking: 1, delay: 0, ssrc: 7 });
    assert_eq!(link.step(LinkEvent::Message(speaking), 100), quiet());
    assert_eq!(link.state(), LinkState::Connected);
}

#[test]
fn link_lost_connection_while_connecting_fails() {
    let mut link = new_link(2);
    link.connect();
    assert_eq!(
        link.step(LinkEvent::Lost, 10),
        LinkReply {
            commands: vec![LinkCommand::Close],
            failure: Some(LinkError::LivenessFailure),
        }
    );
    assert_eq!(link.state(), LinkState::Disconnected);
}

#[test]
fn link_rebuild_starts_over() {
    let mut link = connected_link(2);
    let moved = VoiceCredentials {
        session_id: "s1".to_string(),
        token: "t9".to_string(),
        endpoint: Some("eu-central.discord.media".to_string()),
    };
    assert_eq!(
        link.rebuild(moved.clone()),
        asks(vec![
            LinkCommand::Close,
            LinkCommand::Open("eu-central.discord.media".to_string()),
        ])
    );
    assert_eq!(link.state(), LinkState::Connecting);
    assert_eq!(link.credentials(), &moved);
    assert_eq!(link.secret_key(), None);
    assert_eq!(link.ssrc(), None);
    assert_eq!(link.rebuild(credentials(None)), asks(vec![LinkCommand::Close]));
    assert_eq!(link.state(), LinkState::Disconnected);
    assert_eq!(link.close(), quiet());
}

#[test]
fn link_garbled_frame_is_a_violation() {
    let mut link = new_link(2);
    assert_eq!(link.step(LinkEvent::Garbled, 0), quiet());
    link.connect();
    assert_eq!(
        link.step(LinkEvent::Garbled, 10),
        LinkReply {
            commands: vec![LinkCommand::Close],
            failure: Some(LinkError::ProtocolViolation),
        }
    );
    let mut link = connected_link(2);
    assert_eq!(link.step(LinkEvent::Garbled, 100), asks(vec![LinkCommand::Close, open()]));
    assert_eq!(
        link.step(LinkEvent::Garbled, 200),
        LinkReply {
            commands: vec![LinkCommand::Close],
            failure: Some(LinkError::ResumeExhausted),
        }
    );
}
