//! The wire format of the client protocol.
//!
//! A command is an object whose member `op` names the command, whose member
//! `guildId` names the guild, and whose other members are the fields of the
//! command. The set of commands is closed: an unknown `op` is an error. Members
//! that a command does not know are ignored. Names are written in camel case.

use super::model::{ClientEventView, PlayerStateView, SessionError};
use super::payloads::{
    ClientPayload, ClientPayloadView, Destroy, Filters, FiltersView, Opcode, OpcodeView, Pause,
    Play, PlayView, Seek, Stop, Volume, VoiceUpdate, VoiceUpdateEvent, VoiceUpdateEventView,
    VoiceUpdateView,
};
use super::session::{ClientEvent, PlayerState};
use crate::json::{DecodeError, JsonValue, JsonView, Number};
use crate::wire::{
    members_view, number_of, object, optional_bool, optional_small, optional_text, optional_u64,
    put, read_number, reads, require, require_bool, require_small, require_text, require_u64,
    signed, text, unsigned,
};
use vstd::prelude::*;

verus! {

/// Whether `tag` names a command.
pub open spec fn known_op(tag: Seq<char>) -> bool {
    tag == "voiceUpdate"@ || tag == "play"@ || tag == "stop"@ || tag == "pause"@ || tag
        == "seek"@ || tag == "volume"@ || tag == "filters"@ || tag == "destroy"@
}

pub open spec fn narrowed_u64(value: Option<int>) -> Option<u64> {
    match value {
        Some(n) => Some(n as u64),
        None => None,
    }
}

pub open spec fn narrowed_i16(value: Option<int>) -> Option<i16> {
    match value {
        Some(n) => Some(n as i16),
        None => None,
    }
}

pub open spec fn voice_update_event_of(body: JsonView) -> Result<
    VoiceUpdateEventView,
    DecodeError,
> {
    if !(body is Object) {
        Err(DecodeError::TypeMismatch)
    } else if body.required_text("token"@) is Err {
        Err(body.required_text("token"@)->Err_0)
    } else if body.required_text("guildId"@) is Err {
        Err(body.required_text("guildId"@)->Err_0)
    } else if body.optional_text("endpoint"@) is Err {
        Err(body.optional_text("endpoint"@)->Err_0)
    } else {
        Ok(
            VoiceUpdateEventView {
                token: body.required_text("token"@)->Ok_0,
                guild_id: body.required_text("guildId"@)->Ok_0,
                endpoint: body.optional_text("endpoint"@)->Ok_0,
            },
        )
    }
}

pub open spec fn voice_update_of(doc: JsonView) -> Result<VoiceUpdateView, DecodeError> {
    if doc.required_text("sessionId"@) is Err {
        Err(doc.required_text("sessionId"@)->Err_0)
    } else if doc.required("event"@) is Err {
        Err(doc.required("event"@)->Err_0)
    } else if voice_update_event_of(doc.required("event"@)->Ok_0) is Err {
        Err(voice_update_event_of(doc.required("event"@)->Ok_0)->Err_0)
    } else {
        Ok(
            VoiceUpdateView {
                session_id: doc.required_text("sessionId"@)->Ok_0,
                event: voice_update_event_of(doc.required("event"@)->Ok_0)->Ok_0,
            },
        )
    }
}

pub open spec fn play_of(doc: JsonView) -> Result<PlayView, DecodeError> {
    if doc.required_text("track"@) is Err {
        Err(doc.required_text("track"@)->Err_0)
    } else if doc.optional_integer("startTime"@, 0, u64::MAX as int) is Err {
        Err(doc.optional_integer("startTime"@, 0, u64::MAX as int)->Err_0)
    } else if doc.optional_integer("endTime"@, 0, u64::MAX as int) is Err {
        Err(doc.optional_integer("endTime"@, 0, u64::MAX as int)->Err_0)
    } else if doc.optional_integer("volume"@, i16::MIN as int, i16::MAX as int) is Err {
        Err(doc.optional_integer("volume"@, i16::MIN as int, i16::MAX as int)->Err_0)
    } else if doc.optional_bool("noReplace"@) is Err {
        Err(doc.optional_bool("noReplace"@)->Err_0)
    } else if doc.optional_bool("pause"@) is Err {
        Err(doc.optional_bool("pause"@)->Err_0)
    } else {
        Ok(
            PlayView {
                track: doc.required_text("track"@)->Ok_0,
                start_time: narrowed_u64(
                    doc.optional_integer("startTime"@, 0, u64::MAX as int)->Ok_0,
                ),
                end_time: narrowed_u64(doc.optional_integer("endTime"@, 0, u64::MAX as int)->Ok_0),
                volume: narrowed_i16(
                    doc.optional_integer("volume"@, i16::MIN as int, i16::MAX as int)->Ok_0,
                ),
                no_replace: doc.optional_bool("noReplace"@)->Ok_0,
                pause: doc.optional_bool("pause"@)->Ok_0,
            },
        )
    }
}

/// The member `key` as a number, if it is there.
pub open spec fn optional_number(doc: JsonView, key: Seq<char>) -> Result<
    Option<Number>,
    DecodeError,
> {
    match doc.present(key) {
        None => Ok(None),
        Some(JsonView::Number(number)) => Ok(Some(number)),
        Some(_) => Err(DecodeError::TypeMismatch),
    }
}

/// The member `key` as the setting of a filter, if it is there. The
/// setting of the equalizer is a list, that of any other filter an object.
pub open spec fn optional_setting(doc: JsonView, key: Seq<char>, list: bool) -> Result<
    Option<JsonView>,
    DecodeError,
> {
    match doc.present(key) {
        None => Ok(None),
        Some(value) => if (list && value is Array) || (!list && value is Object) {
            Ok(Some(value))
        } else {
            Err(DecodeError::TypeMismatch)
        },
    }
}

pub open spec fn filters_of(doc: JsonView) -> Result<FiltersView, DecodeError> {
    if optional_number(doc, "volume"@) is Err {
        Err(optional_number(doc, "volume"@)->Err_0)
    } else if optional_setting(doc, "equalizer"@, true) is Err {
        Err(optional_setting(doc, "equalizer"@, true)->Err_0)
    } else if optional_setting(doc, "karaoke"@, false) is Err {
        Err(optional_setting(doc, "karaoke"@, false)->Err_0)
    } else if optional_setting(doc, "timescale"@, false) is Err {
        Err(optional_setting(doc, "timescale"@, false)->Err_0)
    } else if optional_setting(doc, "tremolo"@, false) is Err {
        Err(optional_setting(doc, "tremolo"@, false)->Err_0)
    } else if optional_setting(doc, "vibrato"@, false) is Err {
        Err(optional_setting(doc, "vibrato"@, false)->Err_0)
    } else if optional_setting(doc, "distortion"@, false) is Err {
        Err(optional_setting(doc, "distortion"@, false)->Err_0)
    } else if optional_setting(doc, "channelMix"@, false) is Err {
        Err(optional_setting(doc, "channelMix"@, false)->Err_0)
    } else if optional_setting(doc, "lowPass"@, false) is Err {
        Err(optional_setting(doc, "lowPass"@, false)->Err_0)
    } else {
        Ok(
            FiltersView {
                volume: optional_number(doc, "volume"@)->Ok_0,
                equalizer: optional_setting(doc, "equalizer"@, true)->Ok_0,
                karaoke: optional_setting(doc, "karaoke"@, false)->Ok_0,
                timescale: optional_setting(doc, "timescale"@, false)->Ok_0,
                tremolo: optional_setting(doc, "tremolo"@, false)->Ok_0,
                vibrato: optional_setting(doc, "vibrato"@, false)->Ok_0,
                distortion: optional_setting(doc, "distortion"@, false)->Ok_0,
                channel_mix: optional_setting(doc, "channelMix"@, false)->Ok_0,
                low_pass: optional_setting(doc, "lowPass"@, false)->Ok_0,
            },
        )
    }
}

/// The command named `tag` whose fields are members of `doc`.
pub open spec fn decoded_op(tag: Seq<char>, doc: JsonView) -> Result<OpcodeView, DecodeError> {
    if tag == "voiceUpdate"@ {
        match voice_update_of(doc) {
            Ok(c) => Ok(OpcodeView::VoiceUpdate(c)),
            Err(e) => Err(e),
        }
    } else if tag == "play"@ {
        match play_of(doc) {
            Ok(c) => Ok(OpcodeView::Play(c)),
            Err(e) => Err(e),
        }
    } else if tag == "stop"@ {
        Ok(OpcodeView::Stop(Stop {  }))
    } else if tag == "pause"@ {
        match doc.required_bool("pause"@) {
            Ok(pause) => Ok(OpcodeView::Pause(Pause { pause })),
            Err(e) => Err(e),
        }
    } else if tag == "seek"@ {
        match doc.required_integer("position"@, 0, u64::MAX as int) {
            Ok(position) => Ok(OpcodeView::Seek(Seek { position: position as u64 })),
            Err(e) => Err(e),
        }
    } else if tag == "volume"@ {
        match doc.required_integer("volume"@, i16::MIN as int, i16::MAX as int) {
            Ok(volume) => Ok(OpcodeView::Volume(Volume { volume: volume as i16 })),
            Err(e) => Err(e),
        }
    } else if tag == "filters"@ {
        match filters_of(doc) {
            Ok(c) => Ok(OpcodeView::Filters(c)),
            Err(e) => Err(e),
        }
    } else if tag == "destroy"@ {
        Ok(OpcodeView::Destroy(Destroy {  }))
    } else {
        Err(DecodeError::UnknownOpcode)
    }
}

/// The command that a document is. The document must be an object; its
/// `op` is looked at first, then its `guildId`, then the fields of the command
/// in the order in which the command lists them, and the first fault decides the
/// error.
pub open spec fn decoded_command(doc: JsonView) -> Result<ClientPayloadView, DecodeError> {
    if !(doc is Object) {
        Err(DecodeError::TypeMismatch)
    } else if doc.required_text("op"@) is Err {
        Err(doc.required_text("op"@)->Err_0)
    } else if !known_op(doc.required_text("op"@)->Ok_0) {
        Err(DecodeError::UnknownOpcode)
    } else if doc.required_text("guildId"@) is Err {
        Err(doc.required_text("guildId"@)->Err_0)
    } else {
        match decoded_op(doc.required_text("op"@)->Ok_0, doc) {
            Ok(op) => Ok(ClientPayloadView { guild_id: doc.required_text("guildId"@)->Ok_0, op }),
            Err(e) => Err(e),
        }
    }
}

/// The members that an optional value contributes to an object: one if it
/// is there, none if it is not.
pub open spec fn entry(key: Seq<char>, value: Option<JsonView>) -> Seq<(Seq<char>, JsonView)> {
    match value {
        Some(v) => seq![(key, v)],
        None => Seq::empty(),
    }
}

pub open spec fn number_entry(key: Seq<char>, value: Option<Number>) -> Seq<(Seq<char>, JsonView)> {
    match value {
        Some(n) => seq![(key, JsonView::Number(n))],
        None => Seq::empty(),
    }
}

/// The filters that are set, by name and in a fixed order.
pub open spec fn filters_json(filters: FiltersView) -> JsonView {
    JsonView::Object(
        number_entry("volume"@, filters.volume) + entry("equalizer"@, filters.equalizer) + entry(
            "karaoke"@,
            filters.karaoke,
        ) + entry("timescale"@, filters.timescale) + entry("tremolo"@, filters.tremolo) + entry(
            "vibrato"@,
            filters.vibrato,
        ) + entry("distortion"@, filters.distortion) + entry("channelMix"@, filters.channel_mix)
            + entry("lowPass"@, filters.low_pass),
    )
}

pub open spec fn player_state_json(state: PlayerStateView) -> JsonView {
    JsonView::Object(
        seq![
            (
                "track"@,
                match state.track {
                    Some(track) => JsonView::Text(track),
                    None => JsonView::Null,
                },
            ),
            ("position"@, JsonView::Number(number_of(state.position_ms as int))),
            ("paused"@, JsonView::Bool(state.is_paused)),
            ("volume"@, JsonView::Number(number_of(state.volume as int))),
            ("filters"@, filters_json(state.filters)),
        ],
    )
}

/// The name of an error in an error frame.
pub open spec fn error_name(error: SessionError) -> Seq<char> {
    match error {
        SessionError::NoSessionForGuild => "noSessionForGuild"@,
        SessionError::NotConnected => "notConnected"@,
        SessionError::NoActiveTrack => "noActiveTrack"@,
        SessionError::Superseded => "superseded"@,
        SessionError::HandshakeTimeout => "handshakeTimeout"@,
        SessionError::LivenessFailure => "livenessFailure"@,
        SessionError::ProtocolViolation => "protocolViolation"@,
        SessionError::ResumeExhausted => "resumeExhausted"@,
    }
}

/// The name of the fault of a frame that was no command.
pub open spec fn fault_name(error: DecodeError) -> Seq<char> {
    match error {
        DecodeError::Malformed => "malformed"@,
        DecodeError::UnknownOpcode => "unknownOpcode"@,
        DecodeError::MissingField => "missingField"@,
        DecodeError::TypeMismatch => "typeMismatch"@,
    }
}

/// The document of an event for the client.
pub open spec fn event_json(event: ClientEventView) -> JsonView {
    match event {
        ClientEventView::PlayerUpdate(state) => JsonView::Object(
            seq![
                ("op"@, JsonView::Text("playerUpdate"@)),
                ("guildId"@, JsonView::Text(state.guild_id)),
                ("state"@, player_state_json(state)),
            ],
        ),
        ClientEventView::Error(frame) => JsonView::Object(
            seq![
                ("op"@, JsonView::Text("error"@)),
                ("guildId"@, JsonView::Text(frame.guild_id)),
                ("error"@, JsonView::Text(error_name(frame.error))),
            ],
        ),
        ClientEventView::Malformed(error) => JsonView::Object(
            seq![
                ("op"@, JsonView::Text("error"@)),
                ("error"@, JsonView::Text("decodeError"@)),
                ("reason"@, JsonView::Text(fault_name(error))),
            ],
        ),
    }
}

fn decode_voice_update_event(body: &JsonValue) -> (r: Result<VoiceUpdateEvent, DecodeError>)
    ensures
        match r {
            Ok(c) => voice_update_event_of(body@) == Ok::<VoiceUpdateEventView, DecodeError>(c@),
            Err(e) => voice_update_event_of(body@) == Err::<VoiceUpdateEventView, DecodeError>(e),
        },
{
    match body {
        JsonValue::Object(_) => {},
        _ => {
            return Err(DecodeError::TypeMismatch);
        },
    }
    let token = require_text(body, "token")?;
    let guild_id = require_text(body, "guildId")?;
    let endpoint = optional_text(body, "endpoint")?;
    Ok(VoiceUpdateEvent { token, guild_id, endpoint })
}

fn decode_voice_update(doc: &JsonValue) -> (r: Result<VoiceUpdate, DecodeError>)
    ensures
        match r {
            Ok(c) => voice_update_of(doc@) == Ok::<VoiceUpdateView, DecodeError>(c@),
            Err(e) => voice_update_of(doc@) == Err::<VoiceUpdateView, DecodeError>(e),
        },
{
    let session_id = require_text(doc, "sessionId")?;
    let event = decode_voice_update_event(require(doc, "event")?)?;
    Ok(VoiceUpdate { session_id, event })
}

fn decode_play(doc: &JsonValue) -> (r: Result<Play, DecodeError>)
    ensures
        match r {
            Ok(c) => play_of(doc@) == Ok::<PlayView, DecodeError>(c@),
            Err(e) => play_of(doc@) == Err::<PlayView, DecodeError>(e),
        },
{
    let track = require_text(doc, "track")?;
    let start_time = optional_u64(doc, "startTime")?;
    let end_time = optional_u64(doc, "endTime")?;
    let volume = match optional_small(doc, "volume", -0x8000, 0x7fff)? {
        Some(n) => Some(n as i16),
        None => None,
    };
    let no_replace = optional_bool(doc, "noReplace")?;
    let pause = optional_bool(doc, "pause")?;
    Ok(Play { track, start_time, end_time, volume, no_replace, pause })
}

fn decode_number(doc: &JsonValue, key: &str) -> (r: Result<Option<Number>, DecodeError>)
    ensures
        r == optional_number(doc@, key@),
{
    match doc.get_present(key) {
        None => Ok(None),
        Some(value) => Ok(Some(read_number(value)?)),
    }
}

fn decode_setting(doc: &JsonValue, key: &str, list: bool) -> (r: Result<
    Option<JsonValue>,
    DecodeError,
>)
    ensures
        match r {
            Ok(setting) => optional_setting(doc@, key@, list) == Ok::<
                Option<JsonView>,
                DecodeError,
            >(setting.deep_view()),
            Err(e) => optional_setting(doc@, key@, list) == Err::<Option<JsonView>, DecodeError>(
                e,
            ),
        },
{
    match doc.get_present(key) {
        None => Ok(None),
        Some(value) => {
            let fits = match value {
                JsonValue::Array(_) => list,
                JsonValue::Object(_) => !list,
                _ => false,
            };
            if fits {
                Ok(Some(value.copy()))
            } else {
                Err(DecodeError::TypeMismatch)
            }
        },
    }
}

fn decode_filters(doc: &JsonValue) -> (r: Result<Filters, DecodeError>)
    ensures
        match r {
            Ok(c) => filters_of(doc@) == Ok::<FiltersView, DecodeError>(c@),
            Err(e) => filters_of(doc@) == Err::<FiltersView, DecodeError>(e),
        },
{
    let volume = decode_number(doc, "volume")?;
    let equalizer = decode_setting(doc, "equalizer", true)?;
    let karaoke = decode_setting(doc, "karaoke", false)?;
    let timescale = decode_setting(doc, "timescale", false)?;
    let tremolo = decode_setting(doc, "tremolo", false)?;
    let vibrato = decode_setting(doc, "vibrato", false)?;
    let distortion = decode_setting(doc, "distortion", false)?;
    let channel_mix = decode_setting(doc, "channelMix", false)?;
    let low_pass = decode_setting(doc, "lowPass", false)?;
    Ok(
        Filters {
            volume,
            equalizer,
            karaoke,
            timescale,
            tremolo,
            vibrato,
            distortion,
            channel_mix,
            low_pass,
        },
    )
}

fn decode_op(tag: &String, doc: &JsonValue) -> (r: Result<Opcode, DecodeError>)
    ensures
        match r {
            Ok(op) => decoded_op(tag@, doc@) == Ok::<OpcodeView, DecodeError>(op@),
            Err(e) => decoded_op(tag@, doc@) == Err::<OpcodeView, DecodeError>(e),
        },
{
    if reads(tag, "voiceUpdate") {
        Ok(Opcode::VoiceUpdate(decode_voice_update(doc)?))
    } else if reads(tag, "play") {
        Ok(Opcode::Play(decode_play(doc)?))
    } else if reads(tag, "stop") {
        Ok(Opcode::Stop(Stop {  }))
    } else if reads(tag, "pause") {
        Ok(Opcode::Pause(Pause { pause: require_bool(doc, "pause")? }))
    } else if reads(tag, "seek") {
        Ok(Opcode::Seek(Seek { position: require_u64(doc, "position")? }))
    } else if reads(tag, "volume") {
        let volume = require_small(doc, "volume", -0x8000, 0x7fff)?;
        Ok(Opcode::Volume(Volume { volume: volume as i16 }))
    } else if reads(tag, "filters") {
        Ok(Opcode::Filters(decode_filters(doc)?))
    } else if reads(tag, "destroy") {
        Ok(Opcode::Destroy(Destroy {  }))
    } else {
        Err(DecodeError::UnknownOpcode)
    }
}

fn is_known_op(tag: &String) -> (r: bool)
    ensures
        r == known_op(tag@),
{
    reads(tag, "voiceUpdate") || reads(tag, "play") || reads(tag, "stop") || reads(tag, "pause")
        || reads(tag, "seek") || reads(tag, "volume") || reads(tag, "filters") || reads(
        tag,
        "destroy",
    )
}

/// Reads a command from a document.
pub fn decode_command(doc: &JsonValue) -> (r: Result<ClientPayload, DecodeError>)
    ensures
        match r {
            Ok(c) => decoded_command(doc@) == Ok::<ClientPayloadView, DecodeError>(c@),
            Err(e) => decoded_command(doc@) == Err::<ClientPayloadView, DecodeError>(e),
        },
{
    match doc {
        JsonValue::Object(_) => {},
        _ => {
            return Err(DecodeError::TypeMismatch);
        },
    }
    let tag = require_text(doc, "op")?;
    if !is_known_op(&tag) {
        return Err(DecodeError::UnknownOpcode);
    }
    let guild_id = require_text(doc, "guildId")?;
    let op = decode_op(&tag, doc)?;
    Ok(ClientPayload { guild_id, op })
}

fn put_setting(members: &mut Vec<(String, JsonValue)>, key: &str, setting: &Option<JsonValue>)
    ensures
        members_view(*final(members)) == members_view(*old(members)) + entry(
            key@,
            setting.deep_view(),
        ),
{
    match setting {
        Some(value) => {
            put(members, key, value.copy());
            assert(members_view(*members) =~= members_view(*old(members)) + entry(
                key@,
                setting.deep_view(),
            ));
        },
        None => {
            assert(members_view(*members) =~= members_view(*old(members)) + entry(
                key@,
                setting.deep_view(),
            ));
        },
    }
}

fn encode_filters(filters: &Filters) -> (r: JsonValue)
    ensures
        r@ == filters_json(filters@),
{
    let mut m: Vec<(String, JsonValue)> = Vec::new();
    assert(members_view(m) =~= Seq::empty());
    match filters.volume {
        Some(n) => {
            put(&mut m, "volume", JsonValue::Number(n));
        },
        None => {},
    }
    assert(members_view(m) =~= number_entry("volume"@, filters.volume));
    put_setting(&mut m, "equalizer", &filters.equalizer);
    put_setting(&mut m, "karaoke", &filters.karaoke);
    put_setting(&mut m, "timescale", &filters.timescale);
    put_setting(&mut m, "tremolo", &filters.tremolo);
    put_setting(&mut m, "vibrato", &filters.vibrato);
    put_setting(&mut m, "distortion", &filters.distortion);
    put_setting(&mut m, "channelMix", &filters.channel_mix);
    put_setting(&mut m, "lowPass", &filters.low_pass);
    object(m)
}

fn encode_player_state(state: &PlayerState) -> (r: JsonValue)
    ensures
        r@ == player_state_json(state@),
{
    let mut m: Vec<(String, JsonValue)> = Vec::new();
    assert(members_view(m) =~= Seq::empty());
    let track = match &state.track {
        Some(track) => JsonValue::Text(track.clone()),
        None => JsonValue::Null,
    };
    put(&mut m, "track", track);
    put(&mut m, "position", unsigned(state.position_ms));
    put(&mut m, "paused", JsonValue::Bool(state.is_paused));
    put(&mut m, "volume", signed(state.volume as i64));
    put(&mut m, "filters", encode_filters(&state.filters));
    assert(members_view(m) =~= player_state_json(state@)->Object_0);
    object(m)
}

fn error_text(error: SessionError) -> (r: JsonValue)
    ensures
        r@ == JsonView::Text(error_name(error)),
{
    match error {
        SessionError::NoSessionForGuild => text("noSessionForGuild"),
        SessionError::NotConnected => text("notConnected"),
        SessionError::NoActiveTrack => text("noActiveTrack"),
        SessionError::Superseded => text("superseded"),
        SessionError::HandshakeTimeout => text("handshakeTimeout"),
        SessionError::LivenessFailure => text("livenessFailure"),
        SessionError::ProtocolViolation => text("protocolViolation"),
        SessionError::ResumeExhausted => text("resumeExhausted"),
    }
}

fn fault_text(error: DecodeError) -> (r: JsonValue)
    ensures
        r@ == JsonView::Text(fault_name(error)),
{
    match error {
        DecodeError::Malformed => text("malformed"),
        DecodeError::UnknownOpcode => text("unknownOpcode"),
        DecodeError::MissingField => text("missingField"),
        DecodeError::TypeMismatch => text("typeMismatch"),
    }
}

/// Writes an event for the client as a document.
pub fn encode_event(event: &ClientEvent) -> (r: JsonValue)
    ensures
        r@ == event_json(event@),
{
    let mut m: Vec<(String, JsonValue)> = Vec::new();
    assert(members_view(m) =~= Seq::empty());
    match event {
        ClientEvent::PlayerUpdate(state) => {
            put(&mut m, "op", text("playerUpdate"));
            put(&mut m, "guildId", JsonValue::Text(state.guild_id.clone()));
            put(&mut m, "state", encode_player_state(state));
        },
        ClientEvent::Error(frame) => {
            put(&mut m, "op", text("error"));
            put(&mut m, "guildId", JsonValue::Text(frame.guild_id.clone()));
            put(&mut m, "error", error_text(frame.error));
        },
        ClientEvent::Malformed(error) => {
            put(&mut m, "op", text("error"));
            put(&mut m, "error", text("decodeError"));
            put(&mut m, "reason", fault_text(*error));
        },
    }
    assert(members_view(m) =~= event_json(event@)->Object_0);
    object(m)
}

/// The set of commands is closed: a document whose `op` names no command is
/// rejected with `UnknownOpcode`, whatever else it holds.
pub proof fn lemma_unknown_op_is_rejected(doc: JsonView)
    requires
        doc is Object,
        doc.required_text("op"@) is Ok,
        !known_op(doc.required_text("op"@)->Ok_0),
    ensures
        decoded_command(doc) == Err::<ClientPayloadView, DecodeError>(DecodeError::UnknownOpcode),
{
}

/// A document that is a command has an `op` that names a command and a
/// `guildId`, and the command is addressed to that guild.
pub proof fn lemma_commands_carry_op_and_guild(doc: JsonView)
    requires
        decoded_command(doc) is Ok,
    ensures
        doc is Object,
        doc.required_text("op"@) is Ok,
        known_op(doc.required_text("op"@)->Ok_0),
        doc.required_text("guildId"@) == Ok::<Seq<char>, DecodeError>(
            decoded_command(doc)->Ok_0.guild_id,
        ),
{
}

} // verus!
