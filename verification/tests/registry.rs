use jukebox::client::model::SessionError;
use jukebox::client::payloads::{
    ClientPayload, Destroy, Filters, Opcode, Play, Stop, VoiceUpdate, VoiceUpdateEvent,
};
use jukebox::client::registry::{Client, Dispatch, GuildCommand, SessionRegistry};
use jukebox::client::session::{ClientEvent, ErrorFrame, PlayerState, SessionConfig};
use jukebox::discord::link::{LinkCommand, LinkConfig, LinkEvent};
use jukebox::discord::model::LinkState;
use jukebox::discord::payloads::{Heartbeat, Hello, Payload, Ready, SessionDescription};
use jukebox::json::{DecodeError, JsonValue, Number};

const MODE: &str = "aead_xchacha20_poly1305_rtpsize";

fn client_config() -> SessionConfig {
    SessionConfig::standard("u1".to_string(), LinkConfig::standard(vec![MODE.to_string()]))
}

fn update(guild: &str, endpoint: &str) -> ClientPayload {
    ClientPayload {
        guild_id: guild.to_string(),
        op: Opcode::VoiceUpdate(VoiceUpdate {
            session_id: "s1".to_string(),
            event: VoiceUpdateEvent {
                token: "t1".to_string(),
                guild_id: guild.to_string(),
                endpoint: Some(endpoint.to_string()),
            },
        }),
    }
}

fn play(guild: &str, track: &str) -> ClientPayload {
    ClientPayload {
        guild_id: guild.to_string(),
        op: Opcode::Play(Play {
            track: track.to_string(),
            start_time: None,
            end_time: None,
            volume: None,
            no_replace: None,
            pause: None,
        }),
    }
}

fn for_guild(guild: &str, command: LinkCommand) -> GuildCommand {
    GuildCommand { guild_id: guild.to_string(), command }
}

fn no_session(guild: &str) -> Dispatch {
    Dispatch {
        events: vec![ClientEvent::Error(ErrorFrame {
            guild_id: guild.to_string(),
            error: SessionError::NoSessionForGuild,
        })],
        commands: vec![],
    }
}

fn connect(client: &mut Client, guild: &str) {
    let guild = guild.to_string();
    client.gateway(&guild, LinkEvent::Established, 0);
    client.gateway(
        &guild,
        LinkEvent::Message(Payload::Hello(Hello { heartbeat_interval: 5000 })),
        10,
    );
    client.gateway(
        &guild,
        LinkEvent::Message(Payload::Ready(Ready {
            ssrc: 1,
            ip: "1.2.3.4".to_string(),
            port: 5555,
            modes: vec![MODE.to_string()],
            heartbeat_interval: 5000,
        })),
        20,
    );
    client.gateway(
        &guild,
        LinkEvent::Message(Payload::SessionDescription(SessionDescription {
            mode: MODE.to_string(),
            secret_key: vec![1, 2, 3],
        })),
        30,
    );
}

fn text(s: &str) -> JsonValue {
    JsonValue::Text(s.to_string())
}

fn doc(members: Vec<(&str, JsonValue)>) -> JsonValue {
    JsonValue::Object(members.into_iter().map(|(k, v)| (k.to_string(), v)).collect())
}

#[test]
fn standard_config_values() {
    let config = client_config();
    assert_eq!(config.queue_depth, 16);
    assert_eq!(config.min_volume, 0);
    assert_eq!(config.max_volume, 1000);
    assert_eq!(config.link.stage_timeout_ms, 5000);
    assert_eq!(config.link.max_resume_attempts, 2);
    assert_eq!(config.link.backoff_base_ms, 1000);
    assert_eq!(config.link.backoff_cap_ms, 30000);
}

#[test]
fn registry_creates_one_session_per_guild() {
    let config = client_config();
    let mut registry = SessionRegistry::new();
    assert_eq!(registry.len(), 0);
    assert_eq!(registry.find(&"g1".to_string()), None);
    assert!(registry.create(&"g1".to_string(), &config));
    assert!(!registry.create(&"g1".to_string(), &config));
    assert!(registry.create(&"g2".to_string(), &config));
    assert_eq!(registry.len(), 2);
    assert_eq!(registry.find(&"g1".to_string()), Some(0));
    assert_eq!(registry.find(&"g2".to_string()), Some(1));
    assert_eq!(registry.session(&"g2".to_string()).unwrap().guild_id(), "g2");
    assert!(registry.session(&"g3".to_string()).is_none());
    assert!(registry.remove(&"g1".to_string()));
    assert!(!registry.remove(&"g1".to_string()));
    assert_eq!(registry.len(), 1);
    assert_eq!(registry.find(&"g2".to_string()), Some(0));
}

#[test]
fn registry_routes_and_drops_ended_sessions() {
    let config = client_config();
    let mut registry = SessionRegistry::new();
    registry.create(&"g1".to_string(), &config);
    registry.create(&"g2".to_string(), &config);
    assert!(registry.route(&"g3".to_string(), Opcode::Stop(Stop {})).is_none());
    let out = registry.route(&"g1".to_string(), Opcode::Stop(Stop {})).unwrap();
    assert_eq!(out.events.len(), 1);
    assert_eq!(registry.len(), 2);
    let out = registry.route(&"g1".to_string(), Opcode::Destroy(Destroy {})).unwrap();
    assert_eq!(out.events, vec![]);
    assert_eq!(registry.len(), 1);
    assert_eq!(registry.find(&"g1".to_string()), None);
    assert!(registry.route_gateway(&"g1".to_string(), LinkEvent::Tick, 0).is_none());
    assert!(registry.route_gateway(&"g2".to_string(), LinkEvent::Tick, 0).is_some());
    assert_eq!(registry.clear(), vec![]);
    assert_eq!(registry.len(), 0);
}

#[test]
fn voice_updates_never_duplicate_a_session() {
    let mut client = Client::new(client_config());
    assert_eq!(client.sessions(), 0);
    let out = client.dispatch(update("g1", "us-west.discord.media"));
    assert_eq!(
        out,
        Dispatch {
            events: vec![],
            commands: vec![for_guild("g1", LinkCommand::Open("us-west.discord.media".to_string()))],
        }
    );
    assert_eq!(client.sessions(), 1);
    for _ in 0..5 {
        let out = client.dispatch(update("g1", "us-west.discord.media"));
        assert_eq!(out, Dispatch { events: vec![], commands: vec![] });
        assert_eq!(client.sessions(), 1);
    }
    client.dispatch(update("g2", "us-east.discord.media"));
    client.dispatch(update("g1", "eu-central.discord.media"));
    assert_eq!(client.sessions(), 2);
}

#[test]
fn scenario_second_voice_update_with_new_endpoint() {
    let mut client = Client::new(client_config());
    client.dispatch(update("g1", "us-west.discord.media"));
    connect(&mut client, "g1");
    let guild = "g1".to_string();
    assert_eq!(client.session(&guild).unwrap().link().state(), LinkState::Connected);

    let out = client.dispatch(update("g1", "eu-central.discord.media"));
    assert_eq!(
        out,
        Dispatch {
            events: vec![],
            commands: vec![
                for_guild("g1", LinkCommand::Close),
                for_guild("g1", LinkCommand::Open("eu-central.discord.media".to_string())),
            ],
        }
    );
    assert_eq!(client.sessions(), 1);
    assert_eq!(client.session(&guild).unwrap().link().state(), LinkState::Connecting);
    connect(&mut client, "g1");
    assert_eq!(client.session(&guild).unwrap().link().state(), LinkState::Connected);
    assert_eq!(client.sessions(), 1);
}

#[test]
fn commands_without_a_session_fail() {
    let mut client = Client::new(client_config());
    assert_eq!(client.dispatch(play("g1", "abc")), no_session("g1"));
    let stop = ClientPayload { guild_id: "g1".to_string(), op: Opcode::Stop(Stop {}) };
    assert_eq!(client.dispatch(stop), no_session("g1"));
    let destroy = ClientPayload { guild_id: "g1".to_string(), op: Opcode::Destroy(Destroy {}) };
    assert_eq!(client.dispatch(destroy), no_session("g1"));
    let filters =
        ClientPayload { guild_id: "g9".to_string(), op: Opcode::Filters(Filters::none()) };
    assert_eq!(client.dispatch(filters), no_session("g9"));
    assert_eq!(client.sessions(), 0);
    client.dispatch(update("g1", "us-west.discord.media"));
    assert_eq!(client.dispatch(play("g2", "abc")), no_session("g2"));
}

#[test]
fn commands_reach_the_session_of_their_guild() {
    let mut client = Client::new(client_config());
    client.dispatch(update("g1", "us-west.discord.media"));
    client.dispatch(update("g2", "us-east.discord.media"));
    connect(&mut client, "g2");
    let out = client.dispatch(play("g2", "abc"));
    assert_eq!(
        out.events,
        vec![ClientEvent::PlayerUpdate(PlayerState {
            guild_id: "g2".to_string(),
            track: Some("abc".to_string()),
            position_ms: 0,
            is_paused: false,
            volume: 100,
            filters: Filters::none(),
        })]
    );
    let out = client.dispatch(play("g1", "abc"));
    assert_eq!(
        out.events,
        vec![ClientEvent::Error(ErrorFrame {
            guild_id: "g1".to_string(),
            error: SessionError::NotConnected,
        })]
    );
    assert_eq!(client.session(&"g1".to_string()).unwrap().queued(), 1);
    assert_eq!(client.session(&"g2".to_string()).unwrap().queued(), 0);
}

#[test]
fn destroy_drops_the_session() {
    let mut client = Client::new(client_config());
    client.dispatch(update("g1", "us-west.discord.media"));
    client.dispatch(update("g2", "us-east.discord.media"));
    let destroy = ClientPayload { guild_id: "g1".to_string(), op: Opcode::Destroy(Destroy {}) };
    assert_eq!(
        client.dispatch(destroy.clone()),
        Dispatch { events: vec![], commands: vec![for_guild("g1", LinkCommand::Close)] }
    );
    assert_eq!(client.sessions(), 1);
    assert!(client.session(&"g1".to_string()).is_none());
    assert!(client.session(&"g2".to_string()).is_some());
    assert_eq!(client.dispatch(destroy), no_session("g1"));
    let out = client.dispatch(update("g1", "us-west.discord.media"));
    assert_eq!(out.commands.len(), 1);
    assert_eq!(client.sessions(), 2);
}

#[test]
fn exhausted_resume_drops_the_session_and_tells_the_client() {
    let mut client = Client::new(client_config());
    client.dispatch(update("g1", "us-west.discord.media"));
    connect(&mut client, "g1");
    let guild = "g1".to_string();
    client.gateway(&guild, LinkEvent::Lost, 100);
    assert_eq!(client.session(&guild).unwrap().link().state(), LinkState::Resuming);
    client.gateway(&guild, LinkEvent::Lost, 200);
    client.gateway(&guild, LinkEvent::Tick, 1200);
    let out = client.gateway(&guild, LinkEvent::Lost, 1300);
    assert_eq!(
        out,
        Dispatch {
            events: vec![ClientEvent::Error(ErrorFrame {
                guild_id: "g1".to_string(),
                error: SessionError::ResumeExhausted,
            })],
            commands: vec![for_guild("g1", LinkCommand::Close)],
        }
    );
    assert_eq!(client.sessions(), 0);
    assert_eq!(
        client.gateway(&guild, LinkEvent::Tick, 2000),
        Dispatch { events: vec![], commands: vec![] }
    );
}

#[test]
fn disconnect_closes_every_link() {
    let mut client = Client::new(client_config());
    client.dispatch(update("g1", "us-west.discord.media"));
    client.dispatch(ClientPayload {
        guild_id: "g2".to_string(),
        op: Opcode::VoiceUpdate(VoiceUpdate {
            session_id: "s2".to_string(),
            event: VoiceUpdateEvent {
                token: "t2".to_string(),
                guild_id: "g2".to_string(),
                endpoint: None,
            },
        }),
    });
    client.dispatch(update("g3", "us-east.discord.media"));
    connect(&mut client, "g3");
    assert_eq!(client.sessions(), 3);
    assert_eq!(
        client.disconnect(),
        vec![for_guild("g1", LinkCommand::Close), for_guild("g3", LinkCommand::Close)]
    );
    assert_eq!(client.sessions(), 0);
    assert_eq!(client.disconnect(), vec![]);
}

#[test]
fn scenario_frames_from_voice_update_to_play() {
    let mut client = Client::new(client_config());
    let frame = doc(vec![
        ("op", text("voiceUpdate")),
        ("guildId", text("g1")),
        ("sessionId", text("s1")),
        (
            "event",
            doc(vec![
                ("token", text("t1")),
                ("guildId", text("g1")),
                ("endpoint", text("us-west.discord.media")),
            ]),
        ),
    ]);
    let out = client.receive(Some(&frame));
    assert_eq!(
        out.commands,
        vec![for_guild("g1", LinkCommand::Open("us-west.discord.media".to_string()))]
    );
    let guild = "g1".to_string();
    assert_eq!(client.session(&guild).unwrap().link().state(), LinkState::Connecting);
    connect(&mut client, "g1");
    assert_eq!(client.session(&guild).unwrap().link().state(), LinkState::Connected);

    let frame = doc(vec![
        ("op", text("play")),
        ("guildId", text("g1")),
        ("track", text("abc")),
        ("volume", JsonValue::Number(Number::Unsigned(100))),
    ]);
    let out = client.receive(Some(&frame));
    assert_eq!(
        out,
        Dispatch {
            events: vec![ClientEvent::PlayerUpdate(PlayerState {
                guild_id: "g1".to_string(),
                track: Some("abc".to_string()),
                position_ms: 0,
                is_paused: false,
                volume: 100,
                filters: Filters::none(),
            })],
            commands: vec![],
        }
    );
}

#[test]
fn malformed_frames_are_answered_and_change_nothing() {
    let mut client = Client::new(client_config());
    client.dispatch(update("g1", "us-west.discord.media"));
    let unknown = doc(vec![("op", text("dance")), ("guildId", text("g1"))]);
    assert_eq!(
        client.receive(Some(&unknown)),
        Dispatch {
            events: vec![ClientEvent::Malformed(DecodeError::UnknownOpcode)],
            commands: vec![],
        }
    );
    assert_eq!(
        client.receive(Some(&JsonValue::Null)).events,
        vec![ClientEvent::Malformed(DecodeError::TypeMismatch)]
    );
    let missing = doc(vec![("op", text("seek")), ("guildId", text("g1"))]);
    assert_eq!(
        client.receive(Some(&missing)).events,
        vec![ClientEvent::Malformed(DecodeError::MissingField)]
    );
    assert_eq!(client.sessions(), 1);
}

#[test]
fn frames_that_are_no_documents_are_answered() {
    let mut client = Client::new(client_config());
    assert_eq!(
        client.receive(None),
        Dispatch { events: vec![ClientEvent::Malformed(DecodeError::Malformed)], commands: vec![] }
    );
    assert_eq!(client.sessions(), 0);
}

#[test]
fn scenario_handshake_over_gateway_frames() {
    let mut client = Client::new(client_config());
    client.dispatch(update("g1", "us-west.discord.media"));
    let guild = "g1".to_string();
    client.gateway(&guild, LinkEvent::Established, 0);
    let hello = doc(vec![(
        "hello",
        doc(vec![("heartbeatInterval", JsonValue::Number(Number::Unsigned(5000)))]),
    )]);
    let out = client.gateway_frame(&guild, Some(&hello), 10);
    assert_eq!(
        out.commands,
        vec![for_guild(
            "g1",
            LinkCommand::Send(Payload::Heartbeat(Heartbeat {
                nonce: 0
            }))
        )]
    );
    let ready = doc(vec![(
        "ready",
        doc(vec![
            ("ssrc", JsonValue::Number(Number::Unsigned(1))),
            ("ip", text("1.2.3.4")),
            ("port", JsonValue::Number(Number::Unsigned(5555))),
            ("modes", JsonValue::Array(vec![text(MODE)])),
            ("heartbeatInterval", JsonValue::Number(Number::Unsigned(5000))),
        ]),
    )]);
    client.gateway_frame(&guild, Some(&ready), 20);
    assert_eq!(client.session(&guild).unwrap().link().state(), LinkState::SelectingProtocol);
    let description = doc(vec![(
        "sessionDescription",
        doc(vec![
            ("mode", text(MODE)),
            (
                "secretKey",
                JsonValue::Array(vec![
                    JsonValue::Number(Number::Unsigned(1)),
                    JsonValue::Number(Number::Unsigned(2)),
                    JsonValue::Number(Number::Unsigned(3)),
                ]),
            ),
        ]),
    )]);
    client.gateway_frame(&guild, Some(&description), 30);
    let session = client.session(&guild).unwrap();
    assert_eq!(session.link().state(), LinkState::Connected);
    assert_eq!(session.link().secret_key(), Some(&vec![1, 2, 3]));
    let out = client.dispatch(play("g1", "abc"));
    assert_eq!(out.events.len(), 1);
}

#[test]
fn garbled_gateway_frames_degrade_the_link() {
    let mut client = Client::new(client_config());
    client.dispatch(update("g1", "us-west.discord.media"));
    connect(&mut client, "g1");
    let guild = "g1".to_string();
    let out = client.gateway_frame(&guild, Some(&doc(vec![("video", doc(vec![]))])), 100);
    assert_eq!(
        out.commands,
        vec![
            for_guild("g1", LinkCommand::Close),
            for_guild("g1", LinkCommand::Open("us-west.discord.media".to_string())),
        ]
    );
    assert_eq!(client.session(&guild).unwrap().link().state(), LinkState::Resuming);
    let out = client.gateway_frame(&guild, None, 200);
    assert_eq!(
        out,
        Dispatch {
            events: vec![ClientEvent::Error(ErrorFrame {
                guild_id: "g1".to_string(),
                error: SessionError::ResumeExhausted,
            })],
            commands: vec![for_guild("g1", LinkCommand::Close)],
        }
    );
    assert_eq!(client.sessions(), 0);

    client.dispatch(update("g2", "us-west.discord.media"));
    let guild = "g2".to_string();
    client.gateway(&guild, LinkEvent::Established, 0);
    let out = client.gateway_frame(&guild, None, 5);
    assert_eq!(
        out.events,
        vec![ClientEvent::Error(ErrorFrame {
            guild_id: "g2".to_string(),
            error: SessionError::ProtocolViolation,
        })]
    );
}

#[test]
fn client_knows_its_guilds_and_its_next_wakeup() {
    let mut client = Client::new(client_config());
    assert_eq!(client.guilds(), Vec::<String>::new());
    assert_eq!(client.next_wakeup(), None);
    client.dispatch(update("g1", "us-west.discord.media"));
    client.dispatch(update("g2", "us-east.discord.media"));
    assert_eq!(client.guilds(), vec!["g1".to_string(), "g2".to_string()]);
    assert_eq!(client.next_wakeup(), None);
    let g2 = "g2".to_string();
    client.gateway(&g2, LinkEvent::Established, 0);
    client.gateway(&g2, LinkEvent::Flushed, 700);
    assert_eq!(client.next_wakeup(), Some(5700));
    connect(&mut client, "g1");
    assert_eq!(client.next_wakeup(), Some(5010));
    let mut registry = SessionRegistry::new();
    assert_eq!(registry.next_wakeup(), None);
    registry.create(&"g9".to_string(), &client_config());
    assert_eq!(registry.guilds(), vec!["g9".to_string()]);
}

#[test]
fn tick_reaches_every_session() {
    let mut client = Client::new(client_config());
    assert_eq!(client.tick(0), Dispatch { events: vec![], commands: vec![] });
    client.dispatch(update("g1", "us-west.discord.media"));
    client.dispatch(update("g2", "us-east.discord.media"));
    client.dispatch(update("g3", "eu-central.discord.media"));
    connect(&mut client, "g1");
    let g2 = "g2".to_string();
    client.gateway(&g2, LinkEvent::Established, 0);
    client.gateway(&g2, LinkEvent::Flushed, 0);
    connect(&mut client, "g3");
    assert_eq!(client.tick(4999), Dispatch { events: vec![], commands: vec![] });
    let out = client.tick(5010);
    assert_eq!(
        out,
        Dispatch {
            events: vec![ClientEvent::Error(ErrorFrame {
                guild_id: "g2".to_string(),
                error: SessionError::HandshakeTimeout,
            })],
            commands: vec![
                for_guild(
                    "g1",
                    LinkCommand::Send(Payload::Heartbeat(Heartbeat {
                        nonce: 1
                    }))
                ),
                for_guild("g2", LinkCommand::Close),
                for_guild(
                    "g3",
                    LinkCommand::Send(Payload::Heartbeat(Heartbeat {
                        nonce: 1
                    }))
                ),
            ],
        }
    );
    assert_eq!(client.guilds(), vec!["g1".to_string(), "g3".to_string()]);
    assert_eq!(client.next_wakeup(), Some(10010));
}
