use jukebox::client::model::{SessionError, DEFAULT_VOLUME};
use jukebox::client::payloads::{Filters, Play};
use jukebox::client::session::{
    answer_events, error_frame, play_events, replay_queue, ClientEvent, ErrorFrame, PlayReply,
    Playback, PlayerState, SessionConfig,
};
use jukebox::discord::link::{LinkConfig, VoiceCredentials};
use jukebox::json::{JsonValue, Number};

fn sample_filters() -> Filters {
    Filters {
        volume: Some(Number::Unsigned(1)),
        equalizer: Some(JsonValue::Array(vec![JsonValue::Null])),
        karaoke: None,
        timescale: Some(JsonValue::Object(vec![(
            "speed".to_string(),
            JsonValue::Number(Number::Unsigned(2)),
        )])),
        tremolo: None,
        vibrato: None,
        distortion: None,
        channel_mix: None,
        low_pass: None,
    }
}

fn sample_play(track: &str) -> Play {
    Play {
        track: track.to_string(),
        start_time: Some(3),
        end_time: Some(9),
        volume: Some(7),
        no_replace: Some(false),
        pause: Some(true),
    }
}

fn sample_state() -> PlayerState {
    PlayerState {
        guild_id: "g1".to_string(),
        track: None,
        position_ms: 0,
        is_paused: false,
        volume: 100,
        filters: Filters::none(),
    }
}

#[test]
fn copies_equal_their_source() {
    let filters = sample_filters();
    assert_eq!(filters.copy(), filters);
    assert_eq!(sample_play("a").copy(), sample_play("a"));
    let link = LinkConfig::standard(vec!["m".to_string()]);
    assert_eq!(link.copy(), link);
    let config = SessionConfig::standard("u".to_string(), link);
    assert_eq!(config.copy(), config);
    let credentials = VoiceCredentials {
        session_id: "s".to_string(),
        token: "t".to_string(),
        endpoint: Some("e".to_string()),
    };
    assert_eq!(credentials.copy(), credentials);
}

#[test]
fn filters_overlay_field_by_field() {
    let mut current = sample_filters();
    let update = Filters {
        volume: None,
        equalizer: Some(JsonValue::Array(vec![])),
        karaoke: Some(JsonValue::Object(vec![])),
        timescale: None,
        tremolo: None,
        vibrato: Some(JsonValue::Object(vec![])),
        distortion: None,
        channel_mix: None,
        low_pass: Some(JsonValue::Object(vec![])),
    };
    current.apply(update);
    assert_eq!(
        current,
        Filters {
            volume: Some(Number::Unsigned(1)),
            equalizer: Some(JsonValue::Array(vec![])),
            karaoke: Some(JsonValue::Object(vec![])),
            timescale: sample_filters().timescale,
            tremolo: None,
            vibrato: Some(JsonValue::Object(vec![])),
            distortion: None,
            channel_mix: None,
            low_pass: Some(JsonValue::Object(vec![])),
        }
    );
    let mut same = sample_filters();
    same.apply(Filters::none());
    assert_eq!(same, sample_filters());
}

#[test]
fn playback_starts_and_unloads() {
    assert_eq!(DEFAULT_VOLUME, 100);
    let mut playback = Playback::idle(0, 1000);
    assert!(!playback.playing());
    playback.start(0, 1000, &sample_play("a"));
    assert_eq!(
        playback,
        Playback {
            track: Some("a".to_string()),
            position_ms: 3,
            end_ms: Some(9),
            duration_ms: None,
            is_paused: true,
            volume: 7,
            filters: Filters::none(),
        }
    );
    assert!(!playback.playing());
    assert_eq!(playback.clamp_position(10), 9);
    assert_eq!(playback.clamp_position(9), 9);
    assert_eq!(playback.clamp_position(0), 0);
    playback.duration_ms = Some(5);
    assert_eq!(playback.end_of_track(), Some(5));
    playback.duration_ms = Some(50);
    assert_eq!(playback.end_of_track(), Some(9));
    playback.end_ms = None;
    assert_eq!(playback.end_of_track(), Some(50));
    let state = playback.snapshot(&"g1".to_string());
    assert_eq!(state.guild_id, "g1");
    assert_eq!(state.track, Some("a".to_string()));
    assert_eq!(state.position_ms, 3);
    playback.unload();
    assert_eq!(playback.track, None);
    assert_eq!(playback.position_ms, 0);
    assert_eq!(playback.end_of_track(), None);
    assert_eq!(playback.volume, 7);
}

#[test]
fn replay_runs_commands_in_order() {
    let mut playback = Playback::idle(0, 1000);
    let mut second = sample_play("b");
    second.pause = None;
    second.volume = None;
    let queue = vec![sample_play("a"), second];
    let events = replay_queue(&"g1".to_string(), 0, 1000, &mut playback, &queue);
    assert_eq!(
        events,
        vec![
            ClientEvent::PlayerUpdate(PlayerState {
                guild_id: "g1".to_string(),
                track: Some("a".to_string()),
                position_ms: 3,
                is_paused: true,
                volume: 7,
                filters: Filters::none(),
            }),
            ClientEvent::PlayerUpdate(PlayerState {
                guild_id: "g1".to_string(),
                track: Some("b".to_string()),
                position_ms: 3,
                is_paused: false,
                volume: 7,
                filters: Filters::none(),
            }),
        ]
    );
    assert_eq!(playback.track, Some("b".to_string()));
    let none = replay_queue(&"g1".to_string(), 0, 1000, &mut playback, &vec![]);
    assert_eq!(none, vec![]);
}

#[test]
fn answers_become_events() {
    let guild = "g1".to_string();
    let failed = ClientEvent::Error(ErrorFrame {
        guild_id: "g1".to_string(),
        error: SessionError::NoActiveTrack,
    });
    assert_eq!(error_frame(&guild, SessionError::NoActiveTrack), failed);
    assert_eq!(answer_events(&guild, Err(SessionError::NoActiveTrack)), vec![failed]);
    assert_eq!(
        answer_events(&guild, Ok(sample_state())),
        vec![ClientEvent::PlayerUpdate(sample_state())]
    );
    let reply = PlayReply { result: Ok(sample_state()), superseded: None };
    assert_eq!(play_events(&guild, reply), vec![ClientEvent::PlayerUpdate(sample_state())]);
    let reply =
        PlayReply { result: Err(SessionError::NotConnected), superseded: Some(sample_play("a")) };
    assert_eq!(
        play_events(&guild, reply),
        vec![
            error_frame(&guild, SessionError::Superseded),
            error_frame(&guild, SessionError::NotConnected),
        ]
    );
}
