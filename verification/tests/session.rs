use jukebox::client::model::SessionError;
use jukebox::client::payloads::{
    Filters, Opcode, Pause, Play, Seek, Stop, VoiceUpdate, VoiceUpdateEvent, Volume,
};
use jukebox::client::session::{
    clamp, session_error, ClientEvent, ErrorFrame, PlayReply, Playback, PlayerState,
    SessionConfig, SessionOutput, VoiceSession,
};
use jukebox::discord::link::{LinkCommand, LinkConfig, LinkEvent};
use jukebox::discord::model::{LinkError, LinkState};
use jukebox::discord::payloads::{
    HeartbeatACK, Hello, Identify, Payload, Ready, SessionDescription,
};
use jukebox::json::{JsonValue, Number};

const MODE: &str = "aead_xchacha20_poly1305_rtpsize";

fn session_config(depth: usize) -> SessionConfig {
    SessionConfig {
        user_id: "u1".to_string(),
        queue_depth: depth,
        min_volume: 0,
        max_volume: 1000,
        link: LinkConfig::standard(vec![MODE.to_string()]),
    }
}

fn voice_update(session_id: &str, token: &str, endpoint: Option<&str>) -> VoiceUpdate {
    VoiceUpdate {
        session_id: session_id.to_string(),
        event: VoiceUpdateEvent {
            token: token.to_string(),
            guild_id: "g1".to_string(),
            endpoint: endpoint.map(|e| e.to_string()),
        },
    }
}

fn play_track(track: &str) -> Play {
    Play {
        track: track.to_string(),
        start_time: None,
        end_time: None,
        volume: None,
        no_replace: None,
        pause: None,
    }
}

fn state_of(track: Option<&str>, position_ms: u64, is_paused: bool, volume: i16) -> PlayerState {
    PlayerState {
        guild_id: "g1".to_string(),
        track: track.map(|t| t.to_string()),
        position_ms,
        is_paused,
        volume,
        filters: Filters::none(),
    }
}

fn handshake(session: &mut VoiceSession) -> SessionOutput {
    session.gateway(LinkEvent::Established, 0);
    session.gateway(LinkEvent::Message(Payload::Hello(Hello { heartbeat_interval: 5000 })), 10);
    session.gateway(
        LinkEvent::Message(Payload::Ready(Ready {
            ssrc: 1,
            ip: "1.2.3.4".to_string(),
            port: 5555,
            modes: vec![MODE.to_string()],
            heartbeat_interval: 5000,
        })),
        20,
    );
    session.gateway(
        LinkEvent::Message(Payload::SessionDescription(SessionDescription {
            mode: MODE.to_string(),
            secret_key: vec![1, 2, 3],
        })),
        30,
    )
}

fn connected_session(depth: usize) -> VoiceSession {
    let mut session = VoiceSession::new("g1".to_string(), session_config(depth));
    session.apply_voice_update(voice_update("s1", "t1", Some("us-west.discord.media")));
    handshake(&mut session);
    assert_eq!(session.link().state(), LinkState::Connected);
    session
}

#[test]
fn session_starts_idle_and_without_link() {
    let session = VoiceSession::new("g1".to_string(), session_config(4));
    assert_eq!(session.guild_id(), "g1");
    assert_eq!(session.link().state(), LinkState::Disconnected);
    assert_eq!(session.queued(), 0);
    assert!(!session.is_destroyed());
    assert_eq!(session.playback(), &Playback::idle(0, 1000));
    assert_eq!(session.playback().volume, 100);
    assert_eq!(session.playback().track, None);
}

#[test]
fn volume_is_clamped_into_the_configured_range() {
    assert_eq!(clamp(500, 0, 1000), 500);
    assert_eq!(clamp(-3, 0, 1000), 0);
    assert_eq!(clamp(1001, 0, 1000), 1000);
    assert_eq!(clamp(0, 0, 1000), 0);
    assert_eq!(clamp(1000, 0, 1000), 1000);
    assert_eq!(Playback::idle(150, 1000).volume, 150);
    assert_eq!(Playback::idle(0, 50).volume, 50);
}

#[test]
fn voice_update_without_endpoint_waits() {
    let mut session = VoiceSession::new("g1".to_string(), session_config(4));
    assert_eq!(session.apply_voice_update(voice_update("s1", "t1", None)), vec![]);
    assert_eq!(session.link().state(), LinkState::Disconnected);
    assert_eq!(session.link().credentials().session_id, "s1");
    assert_eq!(
        session.apply_voice_update(voice_update("s1", "t1", Some("us-west.discord.media"))),
        vec![LinkCommand::Open("us-west.discord.media".to_string())]
    );
    assert_eq!(session.link().state(), LinkState::Connecting);
}

#[test]
fn scenario_handshake_then_play() {
    let mut session = VoiceSession::new("g1".to_string(), session_config(4));
    let commands =
        session.apply_voice_update(voice_update("s1", "t1", Some("us-west.discord.media")));
    assert_eq!(commands, vec![LinkCommand::Open("us-west.discord.media".to_string())]);
    assert_eq!(session.link().state(), LinkState::Connecting);

    let out = session.gateway(LinkEvent::Established, 0);
    assert_eq!(
        out.commands,
        vec![LinkCommand::Send(Payload::Identify(Identify {
            server_id: "g1".to_string(),
            user_id: "u1".to_string(),
            session_id: "s1".to_string(),
            token: "t1".to_string(),
        }))]
    );
    let out = handshake(&mut session);
    assert_eq!(out, SessionOutput { events: vec![], commands: vec![] });
    assert_eq!(session.link().state(), LinkState::Connected);
    assert_eq!(session.link().ssrc(), Some(1));
    assert_eq!(session.link().secret_key(), Some(&vec![1, 2, 3]));

    let mut command = play_track("abc");
    command.volume = Some(100);
    let reply = session.play(command);
    assert_eq!(
        reply,
        PlayReply { result: Ok(state_of(Some("abc"), 0, false, 100)), superseded: None }
    );
    assert_eq!(session.playback().track, Some("abc".to_string()));
}

#[test]
fn play_before_connected_is_queued_and_runs_in_order() {
    let mut session = VoiceSession::new("g1".to_string(), session_config(4));
    session.apply_voice_update(voice_update("s1", "t1", Some("us-west.discord.media")));
    let mut first = play_track("one");
    first.volume = Some(40);
    let mut second = play_track("two");
    second.start_time = Some(1500);
    let mut third = play_track("three");
    third.no_replace = Some(true);
    for command in [first, second, third] {
        assert_eq!(
            session.play(command),
            PlayReply { result: Err(SessionError::NotConnected), superseded: None }
        );
    }
    assert_eq!(session.queued(), 3);
    assert_eq!(session.playback().track, None);

    let out = handshake(&mut session);
    assert_eq!(
        out.events,
        vec![
            ClientEvent::PlayerUpdate(state_of(Some("one"), 0, false, 40)),
            ClientEvent::PlayerUpdate(state_of(Some("two"), 1500, false, 40)),
            ClientEvent::PlayerUpdate(state_of(Some("two"), 1500, false, 40)),
        ]
    );
    assert_eq!(session.queued(), 0);
    assert_eq!(session.playback().track, Some("two".to_string()));
    assert_eq!(session.playback().position_ms, 1500);
}

#[test]
fn queue_overflow_supersedes_the_oldest() {
    let mut session = VoiceSession::new("g1".to_string(), session_config(2));
    session.apply_voice_update(voice_update("s1", "t1", Some("us-west.discord.media")));
    assert_eq!(session.play(play_track("a")).superseded, None);
    assert_eq!(session.play(play_track("b")).superseded, None);
    assert_eq!(
        session.play(play_track("c")),
        PlayReply { result: Err(SessionError::NotConnected), superseded: Some(play_track("a")) }
    );
    assert_eq!(
        session.play(play_track("d")),
        PlayReply { result: Err(SessionError::NotConnected), superseded: Some(play_track("b")) }
    );
    assert_eq!(session.queued(), 2);
    let out = handshake(&mut session);
    assert_eq!(
        out.events,
        vec![
            ClientEvent::PlayerUpdate(state_of(Some("c"), 0, false, 100)),
            ClientEvent::PlayerUpdate(state_of(Some("d"), 0, false, 100)),
        ]
    );
}

#[test]
fn queue_overflow_is_reported_before_the_answer() {
    let mut session = VoiceSession::new("g1".to_string(), session_config(1));
    session.apply_voice_update(voice_update("s1", "t1", Some("us-west.discord.media")));
    let not_connected = ClientEvent::Error(ErrorFrame {
        guild_id: "g1".to_string(),
        error: SessionError::NotConnected,
    });
    let superseded = ClientEvent::Error(ErrorFrame {
        guild_id: "g1".to_string(),
        error: SessionError::Superseded,
    });
    let out = session.apply(Opcode::Play(play_track("a")));
    assert_eq!(out, SessionOutput { events: vec![not_connected.clone()], commands: vec![] });
    let out = session.apply(Opcode::Play(play_track("b")));
    assert_eq!(out, SessionOutput { events: vec![superseded, not_connected], commands: vec![] });
}

#[test]
fn queue_without_room_supersedes_the_command_itself() {
    let mut session = VoiceSession::new("g1".to_string(), session_config(0));
    assert_eq!(
        session.play(play_track("a")),
        PlayReply { result: Err(SessionError::NotConnected), superseded: Some(play_track("a")) }
    );
    assert_eq!(session.queued(), 0);
}

#[test]
fn no_replace_keeps_a_playing_track() {
    let mut session = connected_session(4);
    let mut first = play_track("one");
    first.start_time = Some(700);
    session.play(first);
    let before = session.playback().clone();
    let mut other = play_track("two");
    other.no_replace = Some(true);
    other.volume = Some(5);
    other.pause = Some(true);
    assert_eq!(
        session.play(other),
        PlayReply { result: Ok(state_of(Some("one"), 700, false, 100)), superseded: None }
    );
    assert_eq!(session.playback(), &before);
}

#[test]
fn no_replace_loads_when_nothing_plays() {
    let mut session = connected_session(4);
    let mut first = play_track("one");
    first.no_replace = Some(true);
    assert_eq!(session.play(first).result, Ok(state_of(Some("one"), 0, false, 100)));
    session.pause(true).unwrap();
    let mut second = play_track("two");
    second.no_replace = Some(true);
    assert_eq!(session.play(second).result, Ok(state_of(Some("two"), 0, false, 100)));
    let mut third = play_track("three");
    third.no_replace = Some(false);
    assert_eq!(session.play(third).result, Ok(state_of(Some("three"), 0, false, 100)));
}

#[test]
fn play_takes_volume_pause_and_start_from_the_command() {
    let mut session = connected_session(4);
    let command = Play {
        track: "abc".to_string(),
        start_time: Some(9000),
        end_time: Some(4000),
        volume: Some(2000),
        no_replace: None,
        pause: Some(true),
    };
    assert_eq!(session.play(command).result, Ok(state_of(Some("abc"), 4000, true, 1000)));
    let mut quiet = play_track("def");
    quiet.volume = Some(-7);
    assert_eq!(session.play(quiet).result, Ok(state_of(Some("def"), 0, false, 0)));
    assert_eq!(session.play(play_track("ghi")).result, Ok(state_of(Some("ghi"), 0, false, 0)));
}

#[test]
fn seek_clamps_to_the_end_of_the_track() {
    let mut session = connected_session(4);
    assert_eq!(session.seek(10), Err(SessionError::NoActiveTrack));
    let mut command = play_track("abc");
    command.end_time = Some(60000);
    session.play(command);
    assert_eq!(session.seek(30000), Ok(state_of(Some("abc"), 30000, false, 100)));
    assert_eq!(session.seek(60000), Ok(state_of(Some("abc"), 60000, false, 100)));
    assert_eq!(session.seek(60001), Ok(state_of(Some("abc"), 60000, false, 100)));
    assert_eq!(session.seek(u64::MAX), Ok(state_of(Some("abc"), 60000, false, 100)));
    assert_eq!(session.note_duration(45000), Ok(state_of(Some("abc"), 45000, false, 100)));
    assert_eq!(session.seek(50000), Ok(state_of(Some("abc"), 45000, false, 100)));
    assert_eq!(session.playback().end_of_track(), Some(45000));
}

#[test]
fn seek_without_a_known_end_goes_anywhere() {
    let mut session = connected_session(4);
    session.play(play_track("abc"));
    assert_eq!(session.playback().end_of_track(), None);
    assert_eq!(session.seek(u64::MAX), Ok(state_of(Some("abc"), u64::MAX, false, 100)));
    assert_eq!(session.note_duration(1000), Ok(state_of(Some("abc"), 1000, false, 100)));
}

#[test]
fn stop_pause_and_duration_need_a_track() {
    let mut session = connected_session(4);
    assert_eq!(session.stop(), Err(SessionError::NoActiveTrack));
    assert_eq!(session.pause(true), Err(SessionError::NoActiveTrack));
    assert_eq!(session.note_duration(5), Err(SessionError::NoActiveTrack));
    assert_eq!(session.playback(), &Playback::idle(0, 1000));
    session.play(play_track("abc"));
    assert_eq!(session.pause(true), Ok(state_of(Some("abc"), 0, true, 100)));
    assert_eq!(session.pause(false), Ok(state_of(Some("abc"), 0, false, 100)));
    session.seek(500).unwrap();
    assert_eq!(session.stop(), Ok(state_of(None, 0, false, 100)));
    assert_eq!(session.stop(), Err(SessionError::NoActiveTrack));
}

#[test]
fn volume_and_filters_need_a_link() {
    let mut session = VoiceSession::new("g1".to_string(), session_config(4));
    assert_eq!(session.set_volume(50), Err(SessionError::NotConnected));
    assert_eq!(session.set_filters(Filters::none()), Err(SessionError::NotConnected));
    session.apply_voice_update(voice_update("s1", "t1", Some("us-west.discord.media")));
    assert_eq!(session.set_volume(50), Ok(state_of(None, 0, false, 50)));
    assert_eq!(session.set_volume(5000), Ok(state_of(None, 0, false, 1000)));
    assert_eq!(session.set_volume(-1), Ok(state_of(None, 0, false, 0)));
}

#[test]
fn scenario_filters_are_updated_one_by_one() {
    let mut session = connected_session(4);
    let bands = JsonValue::Array(vec![JsonValue::Object(vec![
        ("band".to_string(), JsonValue::Number(Number::Unsigned(0))),
        ("gain".to_string(), JsonValue::Number(Number::Real(0.25f64.to_bits()))),
    ])]);
    let mut equalizer = Filters::none();
    equalizer.equalizer = Some(bands.clone());
    let state = session.set_filters(equalizer).unwrap();
    assert_eq!(state.filters.equalizer, Some(bands.clone()));
    assert_eq!(state.filters.volume, None);

    let half = Number::Real(0.5f64.to_bits());
    let mut volume = Filters::none();
    volume.volume = Some(half);
    let state = session.set_filters(volume).unwrap();
    assert_eq!(state.filters.equalizer, Some(bands.clone()));
    assert_eq!(state.filters.volume, Some(half));
    assert_eq!(state.filters.karaoke, None);
    assert_eq!(session.playback().filters.equalizer, Some(bands));
    assert_eq!(session.playback().volume, 100);

    let state = session.set_filters(Filters::none()).unwrap();
    assert_eq!(state.filters.volume, Some(half));
}

#[test]
fn scenario_new_endpoint_rebuilds_the_link() {
    let mut session = connected_session(4);
    session.play(play_track("abc"));
    let commands =
        session.apply_voice_update(voice_update("s1", "t1", Some("eu-central.discord.media")));
    assert_eq!(
        commands,
        vec![LinkCommand::Close, LinkCommand::Open("eu-central.discord.media".to_string())]
    );
    assert_eq!(session.link().state(), LinkState::Connecting);
    assert_eq!(session.link().secret_key(), None);
    assert_eq!(session.playback().track, Some("abc".to_string()));
    assert!(!session.is_destroyed());
}

#[test]
fn new_token_alone_refreshes_the_link() {
    let mut session = connected_session(4);
    let commands =
        session.apply_voice_update(voice_update("s1", "t2", Some("us-west.discord.media")));
    assert_eq!(commands, vec![]);
    assert_eq!(session.link().state(), LinkState::Connected);
    assert_eq!(session.link().credentials().token, "t2");
    assert_eq!(session.link().secret_key(), Some(&vec![1, 2, 3]));
}

#[test]
fn new_voice_session_or_lost_endpoint_rebuilds_the_link() {
    let mut session = connected_session(4);
    let commands =
        session.apply_voice_update(voice_update("s2", "t1", Some("us-west.discord.media")));
    assert_eq!(
        commands,
        vec![LinkCommand::Close, LinkCommand::Open("us-west.discord.media".to_string())]
    );
    assert_eq!(session.link().state(), LinkState::Connecting);
    let commands = session.apply_voice_update(voice_update("s2", "t1", None));
    assert_eq!(commands, vec![LinkCommand::Close]);
    assert_eq!(session.link().state(), LinkState::Disconnected);
}

#[test]
fn missed_acks_and_resume_leave_the_player_alone() {
    let mut session = connected_session(4);
    let mut command = play_track("abc");
    command.start_time = Some(1234);
    session.play(command);
    let mut filters = Filters::none();
    filters.volume = Some(Number::Unsigned(1));
    session.set_filters(filters).unwrap();
    let before = session.playback().clone();

    session.gateway(LinkEvent::Tick, 5010);
    assert_eq!(session.link().state(), LinkState::Connected);
    let out = session.gateway(LinkEvent::Tick, 10010);
    assert_eq!(session.link().state(), LinkState::Resuming);
    assert_eq!(out.events, vec![]);
    assert_eq!(
        out.commands,
        vec![LinkCommand::Close, LinkCommand::Open("us-west.discord.media".to_string())]
    );
    assert_eq!(session.playback(), &before);

    session.gateway(LinkEvent::Established, 10100);
    let out = session.gateway(LinkEvent::Message(Payload::Resumed), 10200);
    assert_eq!(session.link().state(), LinkState::Connected);
    assert_eq!(out.events, vec![]);
    assert_eq!(session.playback(), &before);
    assert!(!session.is_destroyed());
}

#[test]
fn play_while_resuming_waits_for_resumed() {
    let mut session = connected_session(4);
    session.gateway(LinkEvent::Lost, 100);
    assert_eq!(session.link().state(), LinkState::Resuming);
    assert_eq!(session.play(play_track("abc")).result, Err(SessionError::NotConnected));
    session.gateway(LinkEvent::Established, 200);
    let out = session.gateway(LinkEvent::Message(Payload::Resumed), 300);
    assert_eq!(out.events, vec![ClientEvent::PlayerUpdate(state_of(Some("abc"), 0, false, 100))]);
    assert_eq!(session.queued(), 0);
}

#[test]
fn acks_do_not_touch_the_player() {
    let mut session = connected_session(4);
    session.play(play_track("abc"));
    let before = session.playback().clone();
    let ack = Payload::HeartbeatACK(HeartbeatACK { nonce: 0 });
    let out = session.gateway(LinkEvent::Message(ack), 50);
    assert_eq!(out, SessionOutput { events: vec![], commands: vec![] });
    assert_eq!(session.playback(), &before);
}

#[test]
fn link_failure_ends_the_session() {
    let mut session = VoiceSession::new("g1".to_string(), session_config(4));
    session.apply_voice_update(voice_update("s1", "t1", Some("us-west.discord.media")));
    session.play(play_track("abc"));
    session.gateway(LinkEvent::Established, 0);
    session.gateway(LinkEvent::Flushed, 0);
    let out = session.gateway(LinkEvent::Tick, 5000);
    assert_eq!(
        out,
        SessionOutput {
            events: vec![ClientEvent::Error(ErrorFrame {
                guild_id: "g1".to_string(),
                error: SessionError::HandshakeTimeout,
            })],
            commands: vec![LinkCommand::Close],
        }
    );
    assert!(session.is_destroyed());
    assert_eq!(session.queued(), 0);
    assert_eq!(session.link().state(), LinkState::Disconnected);
}

#[test]
fn destroy_is_idempotent() {
    let mut session = connected_session(4);
    session.play(play_track("abc"));
    assert_eq!(session.destroy(), vec![LinkCommand::Close]);
    assert!(session.is_destroyed());
    assert_eq!(session.link().state(), LinkState::Disconnected);
    let playback = session.playback().clone();
    assert_eq!(session.destroy(), vec![]);
    assert!(session.is_destroyed());
    assert_eq!(session.link().state(), LinkState::Disconnected);
    assert_eq!(session.playback(), &playback);

    let mut idle = VoiceSession::new("g2".to_string(), session_config(4));
    assert_eq!(idle.destroy(), vec![]);
    assert!(idle.is_destroyed());
}

#[test]
fn apply_routes_every_command() {
    let mut session = connected_session(4);
    let no_track = ClientEvent::Error(ErrorFrame {
        guild_id: "g1".to_string(),
        error: SessionError::NoActiveTrack,
    });
    assert_eq!(session.apply(Opcode::Stop(Stop {})).events, vec![no_track.clone()]);
    assert_eq!(session.apply(Opcode::Pause(Pause { pause: true })).events, vec![no_track.clone()]);
    assert_eq!(session.apply(Opcode::Seek(Seek { position: 1 })).events, vec![no_track]);
    assert_eq!(
        session.apply(Opcode::Volume(Volume { volume: 77 })).events,
        vec![ClientEvent::PlayerUpdate(state_of(None, 0, false, 77))]
    );
    assert_eq!(
        session.apply(Opcode::Play(play_track("abc"))).events,
        vec![ClientEvent::PlayerUpdate(state_of(Some("abc"), 0, false, 77))]
    );
    assert_eq!(
        session.apply(Opcode::Seek(Seek { position: 9 })).events,
        vec![ClientEvent::PlayerUpdate(state_of(Some("abc"), 9, false, 77))]
    );
    assert_eq!(
        session.apply(Opcode::Filters(Filters::none())).events,
        vec![ClientEvent::PlayerUpdate(state_of(Some("abc"), 9, false, 77))]
    );
    let out = session.apply(Opcode::VoiceUpdate(voice_update(
        "s1",
        "t1",
        Some("eu-central.discord.media"),
    )));
    assert_eq!(out.events, vec![]);
    assert_eq!(out.commands.len(), 2);
    let out = session.apply(Opcode::Destroy(jukebox::client::payloads::Destroy {}));
    assert_eq!(out, SessionOutput { events: vec![], commands: vec![LinkCommand::Close] });
    assert!(session.is_destroyed());
}

#[test]
fn broken_connection_before_the_handshake_ends_the_session() {
    let mut session = VoiceSession::new("g1".to_string(), session_config(4));
    session.apply_voice_update(voice_update("s1", "t1", Some("us-west.discord.media")));
    let out = session.gateway(LinkEvent::Lost, 10);
    assert_eq!(
        out,
        SessionOutput {
            events: vec![ClientEvent::Error(ErrorFrame {
                guild_id: "g1".to_string(),
                error: SessionError::LivenessFailure,
            })],
            commands: vec![LinkCommand::Close],
        }
    );
    assert!(session.is_destroyed());
}

#[test]
fn session_errors_name_the_failure_of_the_link() {
    assert_eq!(session_error(LinkError::HandshakeTimeout), SessionError::HandshakeTimeout);
    assert_eq!(session_error(LinkError::LivenessFailure), SessionError::LivenessFailure);
    assert_eq!(session_error(LinkError::ProtocolViolation), SessionError::ProtocolViolation);
    assert_eq!(session_error(LinkError::ResumeExhausted), SessionError::ResumeExhausted);
}
