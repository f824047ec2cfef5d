//! The wire format of the voice gateway.
//!
//! A message is an object with one member, named after the kind of the
//! message and holding its body; `Resumed`, which has no body, is the string
//! `"resumed"`. Names are written in camel case.

use super::payloads::{
    ClientDisconnect, ClientDisconnectView, Heartbeat, HeartbeatACK, Hello, Identify,
    IdentifyView, Payload, PayloadView, Ready, ReadyView, Resume, ResumeView, SelectProtocol,
    SelectProtocolData, SelectProtocolDataView, SelectProtocolView, SessionDescription,
    SessionDescriptionView, Speaking,
};
use crate::json::{lemma_lookup_at, DecodeError, JsonValue, JsonView};
use crate::wire::{
    members_view, number_of, object, put, read_texts, read_words, reads, require, require_small,
    require_text, require_u64, text, texts, texts_json, unsigned, words, words_json,
};
use vstd::prelude::*;

verus! {

/// A message of the kind `tag` with the body `body`.
pub open spec fn envelope(tag: Seq<char>, body: JsonView) -> JsonView {
    JsonView::Object(seq![(tag, body)])
}

pub open spec fn identify_json(p: IdentifyView) -> JsonView {
    JsonView::Object(
        seq![
            ("serverId"@, JsonView::Text(p.server_id)),
            ("userId"@, JsonView::Text(p.user_id)),
            ("sessionId"@, JsonView::Text(p.session_id)),
            ("token"@, JsonView::Text(p.token)),
        ],
    )
}

pub open spec fn select_protocol_json(p: SelectProtocolView) -> JsonView {
    JsonView::Object(
        seq![
            ("protocol"@, JsonView::Text(p.protocol)),
            (
                "data"@,
                JsonView::Object(
                    seq![
                        ("address"@, JsonView::Text(p.data.address)),
                        ("port"@, JsonView::Number(number_of(p.data.port as int))),
                        ("mode"@, JsonView::Text(p.data.mode)),
                    ],
                ),
            ),
        ],
    )
}

pub open spec fn ready_json(p: ReadyView) -> JsonView {
    JsonView::Object(
        seq![
            ("ssrc"@, JsonView::Number(number_of(p.ssrc as int))),
            ("ip"@, JsonView::Text(p.ip)),
            ("port"@, JsonView::Number(number_of(p.port as int))),
            ("modes"@, texts_json(p.modes)),
            ("heartbeatInterval"@, JsonView::Number(number_of(p.heartbeat_interval as int))),
        ],
    )
}

pub open spec fn nonce_json(nonce: u64) -> JsonView {
    JsonView::Object(seq![("nonce"@, JsonView::Number(number_of(nonce as int)))])
}

pub open spec fn session_description_json(p: SessionDescriptionView) -> JsonView {
    JsonView::Object(
        seq![("mode"@, JsonView::Text(p.mode)), ("secretKey"@, words_json(p.secret_key))],
    )
}

pub open spec fn speaking_json(p: Speaking) -> JsonView {
    JsonView::Object(
        seq![
            ("speaking"@, JsonView::Number(number_of(p.speaking as int))),
            ("delay"@, JsonView::Number(number_of(p.delay as int))),
            ("ssrc"@, JsonView::Number(number_of(p.ssrc as int))),
        ],
    )
}

pub open spec fn resume_json(p: ResumeView) -> JsonView {
    JsonView::Object(
        seq![
            ("serverId"@, JsonView::Text(p.server_id)),
            ("sessionId"@, JsonView::Text(p.session_id)),
            ("token"@, JsonView::Text(p.token)),
        ],
    )
}

pub open spec fn hello_json(p: Hello) -> JsonView {
    JsonView::Object(
        seq![("heartbeatInterval"@, JsonView::Number(number_of(p.heartbeat_interval as int)))],
    )
}

pub open spec fn client_disconnect_json(p: ClientDisconnectView) -> JsonView {
    JsonView::Object(seq![("reason"@, JsonView::Text(p.reason))])
}

/// The document of a message.
pub open spec fn encoded(payload: PayloadView) -> JsonView {
    match payload {
        PayloadView::Identify(p) => envelope("identify"@, identify_json(p)),
        PayloadView::SelectProtocol(p) => envelope("selectProtocol"@, select_protocol_json(p)),
        PayloadView::Ready(p) => envelope("ready"@, ready_json(p)),
        PayloadView::Heartbeat(p) => envelope("heartbeat"@, nonce_json(p.nonce)),
        PayloadView::SessionDescription(p) => envelope(
            "sessionDescription"@,
            session_description_json(p),
        ),
        PayloadView::Speaking(p) => envelope("speaking"@, speaking_json(p)),
        PayloadView::HeartbeatACK(p) => envelope("heartbeatACK"@, nonce_json(p.nonce)),
        PayloadView::Resume(p) => envelope("resume"@, resume_json(p)),
        PayloadView::Hello(p) => envelope("hello"@, hello_json(p)),
        PayloadView::Resumed => JsonView::Text("resumed"@),
        PayloadView::ClientDisconnect(p) => envelope("clientDisconnect"@, client_disconnect_json(p)),
    }
}

pub open spec fn identify_of(body: JsonView) -> Result<IdentifyView, DecodeError> {
    if !(body is Object) {
        Err(DecodeError::TypeMismatch)
    } else if body.required_text("serverId"@) is Err {
        Err(body.required_text("serverId"@)->Err_0)
    } else if body.required_text("userId"@) is Err {
        Err(body.required_text("userId"@)->Err_0)
    } else if body.required_text("sessionId"@) is Err {
        Err(body.required_text("sessionId"@)->Err_0)
    } else if body.required_text("token"@) is Err {
        Err(body.required_text("token"@)->Err_0)
    } else {
        Ok(
            IdentifyView {
                server_id: body.required_text("serverId"@)->Ok_0,
                user_id: body.required_text("userId"@)->Ok_0,
                session_id: body.required_text("sessionId"@)->Ok_0,
                token: body.required_text("token"@)->Ok_0,
            },
        )
    }
}

pub open spec fn select_protocol_data_of(body: JsonView) -> Result<
    SelectProtocolDataView,
    DecodeError,
> {
    if !(body is Object) {
        Err(DecodeError::TypeMismatch)
    } else if body.required_text("address"@) is Err {
        Err(body.required_text("address"@)->Err_0)
    } else if body.required_integer("port"@, 0, u16::MAX as int) is Err {
        Err(body.required_integer("port"@, 0, u16::MAX as int)->Err_0)
    } else if body.required_text("mode"@) is Err {
        Err(body.required_text("mode"@)->Err_0)
    } else {
        Ok(
            SelectProtocolDataView {
                address: body.required_text("address"@)->Ok_0,
                port: body.required_integer("port"@, 0, u16::MAX as int)->Ok_0 as u16,
                mode: body.required_text("mode"@)->Ok_0,
            },
        )
    }
}

pub open spec fn select_protocol_of(body: JsonView) -> Result<SelectProtocolView, DecodeError> {
    if !(body is Object) {
        Err(DecodeError::TypeMismatch)
    } else if body.required_text("protocol"@) is Err {
        Err(body.required_text("protocol"@)->Err_0)
    } else if body.required("data"@) is Err {
        Err(body.required("data"@)->Err_0)
    } else if select_protocol_data_of(body.required("data"@)->Ok_0) is Err {
        Err(select_protocol_data_of(body.required("data"@)->Ok_0)->Err_0)
    } else {
        Ok(
            SelectProtocolView {
                protocol: body.required_text("protocol"@)->Ok_0,
                data: select_protocol_data_of(body.required("data"@)->Ok_0)->Ok_0,
            },
        )
    }
}

/// The member `key` as an array of strings.
pub open spec fn required_texts(body: JsonView, key: Seq<char>) -> Result<
    Seq<Seq<char>>,
    DecodeError,
> {
    match body.required(key) {
        Ok(value) => value.as_texts(),
        Err(e) => Err(e),
    }
}

/// The member `key` as an array of integers between 0 and 2^32 - 1.
pub open spec fn required_words(body: JsonView, key: Seq<char>) -> Result<Seq<u32>, DecodeError> {
    match body.required(key) {
        Ok(value) => value.as_words(),
        Err(e) => Err(e),
    }
}

pub open spec fn ready_of(body: JsonView) -> Result<ReadyView, DecodeError> {
    if !(body is Object) {
        Err(DecodeError::TypeMismatch)
    } else if body.required_integer("ssrc"@, 0, u32::MAX as int) is Err {
        Err(body.required_integer("ssrc"@, 0, u32::MAX as int)->Err_0)
    } else if body.required_text("ip"@) is Err {
        Err(body.required_text("ip"@)->Err_0)
    } else if body.required_integer("port"@, 0, u16::MAX as int) is Err {
        Err(body.required_integer("port"@, 0, u16::MAX as int)->Err_0)
    } else if required_texts(body, "modes"@) is Err {
        Err(required_texts(body, "modes"@)->Err_0)
    } else if body.required_integer("heartbeatInterval"@, 0, u64::MAX as int) is Err {
        Err(body.required_integer("heartbeatInterval"@, 0, u64::MAX as int)->Err_0)
    } else {
        Ok(
            ReadyView {
                ssrc: body.required_integer("ssrc"@, 0, u32::MAX as int)->Ok_0 as u32,
                ip: body.required_text("ip"@)->Ok_0,
                port: body.required_integer("port"@, 0, u16::MAX as int)->Ok_0 as u16,
                modes: required_texts(body, "modes"@)->Ok_0,
                heartbeat_interval: body.required_integer(
                    "heartbeatInterval"@,
                    0,
                    u64::MAX as int,
                )->Ok_0 as u64,
            },
        )
    }
}

pub open spec fn nonce_of(body: JsonView) -> Result<u64, DecodeError> {
    if !(body is Object) {
        Err(DecodeError::TypeMismatch)
    } else if body.required_integer("nonce"@, 0, u64::MAX as int) is Err {
        Err(body.required_integer("nonce"@, 0, u64::MAX as int)->Err_0)
    } else {
        Ok(body.required_integer("nonce"@, 0, u64::MAX as int)->Ok_0 as u64)
    }
}

pub open spec fn session_description_of(body: JsonView) -> Result<
    SessionDescriptionView,
    DecodeError,
> {
    if !(body is Object) {
        Err(DecodeError::TypeMismatch)
    } else if body.required_text("mode"@) is Err {
        Err(body.required_text("mode"@)->Err_0)
    } else if required_words(body, "secretKey"@) is Err {
        Err(required_words(body, "secretKey"@)->Err_0)
    } else {
        Ok(
            SessionDescriptionView {
                mode: body.required_text("mode"@)->Ok_0,
                secret_key: required_words(body, "secretKey"@)->Ok_0,
            },
        )
    }
}

pub open spec fn speaking_of(body: JsonView) -> Result<Speaking, DecodeError> {
    if !(body is Object) {
        Err(DecodeError::TypeMismatch)
    } else if body.required_integer("speaking"@, 0, u8::MAX as int) is Err {
        Err(body.required_integer("speaking"@, 0, u8::MAX as int)->Err_0)
    } else if body.required_integer("delay"@, 0, u8::MAX as int) is Err {
        Err(body.required_integer("delay"@, 0, u8::MAX as int)->Err_0)
    } else if body.required_integer("ssrc"@, 0, u32::MAX as int) is Err {
        Err(body.required_integer("ssrc"@, 0, u32::MAX as int)->Err_0)
    } else {
        Ok(
            Speaking {
                speaking: body.required_integer("speaking"@, 0, u8::MAX as int)->Ok_0 as u8,
                delay: body.required_integer("delay"@, 0, u8::MAX as int)->Ok_0 as u8,
                ssrc: body.required_integer("ssrc"@, 0, u32::MAX as int)->Ok_0 as u32,
            },
        )
    }
}

pub open spec fn resume_of(body: JsonView) -> Result<ResumeView, DecodeError> {
    if !(body is Object) {
        Err(DecodeError::TypeMismatch)
    } else if body.required_text("serverId"@) is Err {
        Err(body.required_text("serverId"@)->Err_0)
    } else if body.required_text("sessionId"@) is Err {
        Err(body.required_text("sessionId"@)->Err_0)
    } else if body.required_text("token"@) is Err {
        Err(body.required_text("token"@)->Err_0)
    } else {
        Ok(
            ResumeView {
                server_id: body.required_text("serverId"@)->Ok_0,
                session_id: body.required_text("sessionId"@)->Ok_0,
                token: body.required_text("token"@)->Ok_0,
            },
        )
    }
}

pub open spec fn hello_of(body: JsonView) -> Result<Hello, DecodeError> {
    if !(body is Object) {
        Err(DecodeError::TypeMismatch)
    } else if body.required_integer("heartbeatInterval"@, 0, u64::MAX as int) is Err {
        Err(body.required_integer("heartbeatInterval"@, 0, u64::MAX as int)->Err_0)
    } else {
        Ok(
            Hello {
                heartbeat_interval: body.required_integer(
                    "heartbeatInterval"@,
                    0,
                    u64::MAX as int,
                )->Ok_0 as u64,
            },
        )
    }
}

pub open spec fn client_disconnect_of(body: JsonView) -> Result<ClientDisconnectView, DecodeError> {
    if !(body is Object) {
        Err(DecodeError::TypeMismatch)
    } else if body.required_text("reason"@) is Err {
        Err(body.required_text("reason"@)->Err_0)
    } else {
        Ok(ClientDisconnectView { reason: body.required_text("reason"@)->Ok_0 })
    }
}

/// The message of the kind `tag` with the body `body`. A kind that the
/// protocol does not know is an error of its own; so is a body that does not
/// fit the kind.
pub open spec fn decoded_body(tag: Seq<char>, body: JsonView) -> Result<PayloadView, DecodeError> {
    if tag == "identify"@ {
        match identify_of(body) {
            Ok(p) => Ok(PayloadView::Identify(p)),
            Err(e) => Err(e),
        }
    } else if tag == "selectProtocol"@ {
        match select_protocol_of(body) {
            Ok(p) => Ok(PayloadView::SelectProtocol(p)),
            Err(e) => Err(e),
        }
    } else if tag == "ready"@ {
        match ready_of(body) {
            Ok(p) => Ok(PayloadView::Ready(p)),
            Err(e) => Err(e),
        }
    } else if tag == "heartbeat"@ {
        match nonce_of(body) {
            Ok(nonce) => Ok(PayloadView::Heartbeat(Heartbeat { nonce })),
            Err(e) => Err(e),
        }
    } else if tag == "sessionDescription"@ {
        match session_description_of(body) {
            Ok(p) => Ok(PayloadView::SessionDescription(p)),
            Err(e) => Err(e),
        }
    } else if tag == "speaking"@ {
        match speaking_of(body) {
            Ok(p) => Ok(PayloadView::Speaking(p)),
            Err(e) => Err(e),
        }
    } else if tag == "heartbeatACK"@ {
        match nonce_of(body) {
            Ok(nonce) => Ok(PayloadView::HeartbeatACK(HeartbeatACK { nonce })),
            Err(e) => Err(e),
        }
    } else if tag == "resume"@ {
        match resume_of(body) {
            Ok(p) => Ok(PayloadView::Resume(p)),
            Err(e) => Err(e),
        }
    } else if tag == "hello"@ {
        match hello_of(body) {
            Ok(p) => Ok(PayloadView::Hello(p)),
            Err(e) => Err(e),
        }
    } else if tag == "resumed"@ {
        if body is Null {
            Ok(PayloadView::Resumed)
        } else {
            Err(DecodeError::TypeMismatch)
        }
    } else if tag == "clientDisconnect"@ {
        match client_disconnect_of(body) {
            Ok(p) => Ok(PayloadView::ClientDisconnect(p)),
            Err(e) => Err(e),
        }
    } else {
        Err(DecodeError::UnknownOpcode)
    }
}

/// The message that a document is. A string is a message without a body; an
/// object must have exactly one member.
pub open spec fn decoded(doc: JsonView) -> Result<PayloadView, DecodeError> {
    match doc {
        JsonView::Text(tag) => decoded_body(tag, JsonView::Null),
        JsonView::Object(members) => if members.len() == 1 {
            decoded_body(members[0].0, members[0].1)
        } else {
            Err(DecodeError::TypeMismatch)
        },
        _ => Err(DecodeError::TypeMismatch),
    }
}

fn members() -> (r: Vec<(String, JsonValue)>)
    ensures
        members_view(r) == Seq::<(Seq<char>, JsonView)>::empty(),
{
    let r: Vec<(String, JsonValue)> = Vec::new();
    assert(members_view(r) =~= Seq::empty());
    r
}

fn wrap(tag: &str, body: JsonValue) -> (r: JsonValue)
    ensures
        r@ == envelope(tag@, body@),
{
    let mut m = members();
    put(&mut m, tag, body);
    assert(members_view(m) =~= seq![(tag@, body@)]);
    object(m)
}

fn encode_identify(p: &Identify) -> (r: JsonValue)
    ensures
        r@ == identify_json(p@),
{
    let mut m = members();
    put(&mut m, "serverId", JsonValue::Text(p.server_id.clone()));
    put(&mut m, "userId", JsonValue::Text(p.user_id.clone()));
    put(&mut m, "sessionId", JsonValue::Text(p.session_id.clone()));
    put(&mut m, "token", JsonValue::Text(p.token.clone()));
    assert(members_view(m) =~= identify_json(p@)->Object_0);
    object(m)
}

fn encode_select_protocol(p: &SelectProtocol) -> (r: JsonValue)
    ensures
        r@ == select_protocol_json(p@),
{
    let mut d = members();
    put(&mut d, "address", JsonValue::Text(p.data.address.clone()));
    put(&mut d, "port", unsigned(p.data.port as u64));
    put(&mut d, "mode", JsonValue::Text(p.data.mode.clone()));
    assert(members_view(d) =~= select_protocol_json(p@)->Object_0[1].1->Object_0);
    let mut m = members();
    put(&mut m, "protocol", JsonValue::Text(p.protocol.clone()));
    put(&mut m, "data", object(d));
    assert(members_view(m) =~= select_protocol_json(p@)->Object_0);
    object(m)
}

fn encode_ready(p: &Ready) -> (r: JsonValue)
    ensures
        r@ == ready_json(p@),
{
    let mut m = members();
    put(&mut m, "ssrc", unsigned(p.ssrc as u64));
    put(&mut m, "ip", JsonValue::Text(p.ip.clone()));
    put(&mut m, "port", unsigned(p.port as u64));
    put(&mut m, "modes", texts(&p.modes));
    put(&mut m, "heartbeatInterval", unsigned(p.heartbeat_interval));
    assert(members_view(m) =~= ready_json(p@)->Object_0);
    object(m)
}

fn encode_nonce(nonce: u64) -> (r: JsonValue)
    ensures
        r@ == nonce_json(nonce),
{
    let mut m = members();
    put(&mut m, "nonce", unsigned(nonce));
    assert(members_view(m) =~= nonce_json(nonce)->Object_0);
    object(m)
}

fn encode_session_description(p: &SessionDescription) -> (r: JsonValue)
    ensures
        r@ == session_description_json(p@),
{
    let mut m = members();
    put(&mut m, "mode", JsonValue::Text(p.mode.clone()));
    put(&mut m, "secretKey", words(&p.secret_key));
    assert(members_view(m) =~= session_description_json(p@)->Object_0);
    object(m)
}

fn encode_speaking(p: &Speaking) -> (r: JsonValue)
    ensures
        r@ == speaking_json(*p),
{
    let mut m = members();
    put(&mut m, "speaking", unsigned(p.speaking as u64));
    put(&mut m, "delay", unsigned(p.delay as u64));
    put(&mut m, "ssrc", unsigned(p.ssrc as u64));
    assert(members_view(m) =~= speaking_json(*p)->Object_0);
    object(m)
}

fn encode_resume(p: &Resume) -> (r: JsonValue)
    ensures
        r@ == resume_json(p@),
{
    let mut m = members();
    put(&mut m, "serverId", JsonValue::Text(p.server_id.clone()));
    put(&mut m, "sessionId", JsonValue::Text(p.session_id.clone()));
    put(&mut m, "token", JsonValue::Text(p.token.clone()));
    assert(members_view(m) =~= resume_json(p@)->Object_0);
    object(m)
}

fn encode_hello(p: &Hello) -> (r: JsonValue)
    ensures
        r@ == hello_json(*p),
{
    let mut m = members();
    put(&mut m, "heartbeatInterval", unsigned(p.heartbeat_interval));
    assert(members_view(m) =~= hello_json(*p)->Object_0);
    object(m)
}

fn encode_client_disconnect(p: &ClientDisconnect) -> (r: JsonValue)
    ensures
        r@ == client_disconnect_json(p@),
{
    let mut m = members();
    put(&mut m, "reason", JsonValue::Text(p.reason.clone()));
    assert(members_view(m) =~= client_disconnect_json(p@)->Object_0);
    object(m)
}

/// Writes a message as a document.
pub fn encode(payload: &Payload) -> (r: JsonValue)
    ensures
        r@ == encoded(payload@),
{
    match payload {
        Payload::Identify(p) => wrap("identify", encode_identify(p)),
        Payload::SelectProtocol(p) => wrap("selectProtocol", encode_select_protocol(p)),
        Payload::Ready(p) => wrap("ready", encode_ready(p)),
        Payload::Heartbeat(p) => wrap("heartbeat", encode_nonce(p.nonce)),
        Payload::SessionDescription(p) => wrap(
            "sessionDescription",
            encode_session_description(p),
        ),
        Payload::Speaking(p) => wrap("speaking", encode_speaking(p)),
        Payload::HeartbeatACK(p) => wrap("heartbeatACK", encode_nonce(p.nonce)),
        Payload::Resume(p) => wrap("resume", encode_resume(p)),
        Payload::Hello(p) => wrap("hello", encode_hello(p)),
        Payload::Resumed => text("resumed"),
        Payload::ClientDisconnect(p) => wrap("clientDisconnect", encode_client_disconnect(p)),
    }
}

fn check_object(body: &JsonValue) -> (r: Result<(), DecodeError>)
    ensures
        r is Ok <==> body@ is Object,
        r is Err ==> r == Err::<(), DecodeError>(DecodeError::TypeMismatch),
{
    match body {
        JsonValue::Object(_) => Ok(()),
        _ => Err(DecodeError::TypeMismatch),
    }
}

fn decode_identify(body: &JsonValue) -> (r: Result<Identify, DecodeError>)
    ensures
        match r {
            Ok(p) => identify_of(body@) == Ok::<IdentifyView, DecodeError>(p@),
            Err(e) => identify_of(body@) == Err::<IdentifyView, DecodeError>(e),
        },
{
    check_object(body)?;
    let server_id = require_text(body, "serverId")?;
    let user_id = require_text(body, "userId")?;
    let session_id = require_text(body, "sessionId")?;
    let token = require_text(body, "token")?;
    Ok(Identify { server_id, user_id, session_id, token })
}

fn decode_select_protocol_data(body: &JsonValue) -> (r: Result<SelectProtocolData, DecodeError>)
    ensures
        match r {
            Ok(p) => select_protocol_data_of(body@) == Ok::<SelectProtocolDataView, DecodeError>(
                p@,
            ),
            Err(e) => select_protocol_data_of(body@) == Err::<
                SelectProtocolDataView,
                DecodeError,
            >(e),
        },
{
    check_object(body)?;
    let address = require_text(body, "address")?;
    let port = require_small(body, "port", 0, 0xffff)?;
    let mode = require_text(body, "mode")?;
    Ok(SelectProtocolData { address, port: port as u16, mode })
}

fn decode_select_protocol(body: &JsonValue) -> (r: Result<SelectProtocol, DecodeError>)
    ensures
        match r {
            Ok(p) => select_protocol_of(body@) == Ok::<SelectProtocolView, DecodeError>(p@),
            Err(e) => select_protocol_of(body@) == Err::<SelectProtocolView, DecodeError>(e),
        },
{
    check_object(body)?;
    let protocol = require_text(body, "protocol")?;
    let data = decode_select_protocol_data(require(body, "data")?)?;
    Ok(SelectProtocol { protocol, data })
}

fn decode_ready(body: &JsonValue) -> (r: Result<Ready, DecodeError>)
    ensures
        match r {
            Ok(p) => ready_of(body@) == Ok::<ReadyView, DecodeError>(p@),
            Err(e) => ready_of(body@) == Err::<ReadyView, DecodeError>(e),
        },
{
    check_object(body)?;
    let ssrc = require_small(body, "ssrc", 0, 0xffff_ffff)?;
    let ip = require_text(body, "ip")?;
    let port = require_small(body, "port", 0, 0xffff)?;
    let modes = read_texts(require(body, "modes")?)?;
    let heartbeat_interval = require_u64(body, "heartbeatInterval")?;
    Ok(Ready { ssrc: ssrc as u32, ip, port: port as u16, modes, heartbeat_interval })
}

fn decode_nonce(body: &JsonValue) -> (r: Result<u64, DecodeError>)
    ensures
        r == nonce_of(body@),
{
    check_object(body)?;
    let nonce = require_u64(body, "nonce")?;
    Ok(nonce)
}

fn decode_session_description(body: &JsonValue) -> (r: Result<SessionDescription, DecodeError>)
    ensures
        match r {
            Ok(p) => session_description_of(body@) == Ok::<SessionDescriptionView, DecodeError>(
                p@,
            ),
            Err(e) => session_description_of(body@) == Err::<
                SessionDescriptionView,
                DecodeError,
            >(e),
        },
{
    check_object(body)?;
    let mode = require_text(body, "mode")?;
    let secret_key = read_words(require(body, "secretKey")?)?;
    Ok(SessionDescription { mode, secret_key })
}

fn decode_speaking(body: &JsonValue) -> (r: Result<Speaking, DecodeError>)
    ensures
        r == speaking_of(body@),
{
    check_object(body)?;
    let speaking = require_small(body, "speaking", 0, 0xff)?;
    let delay = require_small(body, "delay", 0, 0xff)?;
    let ssrc = require_small(body, "ssrc", 0, 0xffff_ffff)?;
    Ok(Speaking { speaking: speaking as u8, delay: delay as u8, ssrc: ssrc as u32 })
}

fn decode_resume(body: &JsonValue) -> (r: Result<Resume, DecodeError>)
    ensures
        match r {
            Ok(p) => resume_of(body@) == Ok::<ResumeView, DecodeError>(p@),
            Err(e) => resume_of(body@) == Err::<ResumeView, DecodeError>(e),
        },
{
    check_object(body)?;
    let server_id = require_text(body, "serverId")?;
    let session_id = require_text(body, "sessionId")?;
    let token = require_text(body, "token")?;
    Ok(Resume { server_id, session_id, token })
}

fn decode_hello(body: &JsonValue) -> (r: Result<Hello, DecodeError>)
    ensures
        r == hello_of(body@),
{
    check_object(body)?;
    let heartbeat_interval = require_u64(body, "heartbeatInterval")?;
    Ok(Hello { heartbeat_interval })
}

fn decode_client_disconnect(body: &JsonValue) -> (r: Result<ClientDisconnect, DecodeError>)
    ensures
        match r {
            Ok(p) => client_disconnect_of(body@) == Ok::<ClientDisconnectView, DecodeError>(p@),
            Err(e) => client_disconnect_of(body@) == Err::<ClientDisconnectView, DecodeError>(e),
        },
{
    check_object(body)?;
    let reason = require_text(body, "reason")?;
    Ok(ClientDisconnect { reason })
}

fn decode_body(tag: &String, body: &JsonValue) -> (r: Result<Payload, DecodeError>)
    ensures
        match r {
            Ok(p) => decoded_body(tag@, body@) == Ok::<PayloadView, DecodeError>(p@),
            Err(e) => decoded_body(tag@, body@) == Err::<PayloadView, DecodeError>(e),
        },
{
    if reads(tag, "identify") {
        Ok(Payload::Identify(decode_identify(body)?))
    } else if reads(tag, "selectProtocol") {
        Ok(Payload::SelectProtocol(decode_select_protocol(body)?))
    } else if reads(tag, "ready") {
        Ok(Payload::Ready(decode_ready(body)?))
    } else if reads(tag, "heartbeat") {
        Ok(Payload::Heartbeat(Heartbeat { nonce: decode_nonce(body)? }))
    } else if reads(tag, "sessionDescription") {
        Ok(Payload::SessionDescription(decode_session_description(body)?))
    } else if reads(tag, "speaking") {
        Ok(Payload::Speaking(decode_speaking(body)?))
    } else if reads(tag, "heartbeatACK") {
        Ok(Payload::HeartbeatACK(HeartbeatACK { nonce: decode_nonce(body)? }))
    } else if reads(tag, "resume") {
        Ok(Payload::Resume(decode_resume(body)?))
    } else if reads(tag, "hello") {
        Ok(Payload::Hello(decode_hello(body)?))
    } else if reads(tag, "resumed") {
        match body {
            JsonValue::Null => Ok(Payload::Resumed),
            _ => Err(DecodeError::TypeMismatch),
        }
    } else if reads(tag, "clientDisconnect") {
        Ok(Payload::ClientDisconnect(decode_client_disconnect(body)?))
    } else {
        Err(DecodeError::UnknownOpcode)
    }
}

/// Reads a message from a document.
pub fn decode(doc: &JsonValue) -> (r: Result<Payload, DecodeError>)
    ensures
        match r {
            Ok(p) => decoded(doc@) == Ok::<PayloadView, DecodeError>(p@),
            Err(e) => decoded(doc@) == Err::<PayloadView, DecodeError>(e),
        },
{
    match doc {
        JsonValue::Text(tag) => decode_body(tag, &JsonValue::Null),
        JsonValue::Object(members) => {
            proof {
                crate::json::lemma_object_view(*members);
            }
            if members.len() == 1 {
                decode_body(&members[0].0, &members[0].1)
            } else {
                Err(DecodeError::TypeMismatch)
            }
        },
        _ => Err(DecodeError::TypeMismatch),
    }
}

/// An integer within the range of its field reads back as itself.
pub proof fn lemma_number_round_trip(n: int, low: int, high: int)
    requires
        low <= n <= high,
        0 <= n <= u64::MAX,
    ensures
        JsonView::Number(number_of(n)).ranged(low, high) == Ok::<int, DecodeError>(n),
{
}

/// A list of strings reads back as itself.
pub proof fn lemma_texts_round_trip(items: Seq<Seq<char>>)
    ensures
        texts_json(items).as_texts() == Ok::<Seq<Seq<char>>, DecodeError>(items),
{
    let written = texts_json(items)->Array_0;
    assert(texts_json(items).as_texts()->Ok_0 =~= items);
}

/// A list of numbers reads back as itself.
pub proof fn lemma_words_round_trip(items: Seq<u32>)
    ensures
        words_json(items).as_words() == Ok::<Seq<u32>, DecodeError>(items),
{
    let written = words_json(items)->Array_0;
    assert forall|i: int| 0 <= i < written.len() implies (#[trigger] written[i]).ranged(
        0,
        u32::MAX as int,
    ) == Ok::<int, DecodeError>(items[i] as int) by {
        assert(written[i] == JsonView::Number(crate::json::Number::Unsigned(items[i] as u64)));
    }
    assert(words_json(items).as_words()->Ok_0 =~= items);
}

proof fn lemma_names_differ()
    ensures
        "serverId"@.len() == 8,
        "userId"@.len() == 6,
        "sessionId"@.len() == 9,
        "token"@.len() == 5,
        "protocol"@.len() == 8,
        "data"@.len() == 4,
        "address"@.len() == 7,
        "port"@.len() == 4 && "port"@[0] == 'p',
        "mode"@.len() == 4 && "mode"@[0] == 'm',
        "ssrc"@.len() == 4 && "ssrc"@[0] == 's',
        "ip"@.len() == 2,
        "modes"@.len() == 5,
        "heartbeatInterval"@.len() == 17,
        "secretKey"@.len() == 9,
        "speaking"@.len() == 8,
        "delay"@.len() == 5,
{
    reveal_strlit("serverId");
    reveal_strlit("userId");
    reveal_strlit("sessionId");
    reveal_strlit("token");
    reveal_strlit("protocol");
    reveal_strlit("data");
    reveal_strlit("address");
    reveal_strlit("port");
    reveal_strlit("mode");
    reveal_strlit("ssrc");
    reveal_strlit("ip");
    reveal_strlit("modes");
    reveal_strlit("heartbeatInterval");
    reveal_strlit("secretKey");
    reveal_strlit("speaking");
    reveal_strlit("delay");
}

proof fn lemma_identify_round_trip(p: IdentifyView)
    ensures
        identify_of(identify_json(p)) == Ok::<IdentifyView, DecodeError>(p),
{
    lemma_names_differ();
    let members = identify_json(p)->Object_0;
    lemma_lookup_at(members, "serverId"@, 0);
    lemma_lookup_at(members, "userId"@, 1);
    lemma_lookup_at(members, "sessionId"@, 2);
    lemma_lookup_at(members, "token"@, 3);
}

proof fn lemma_select_protocol_round_trip(p: SelectProtocolView)
    ensures
        select_protocol_of(select_protocol_json(p)) == Ok::<SelectProtocolView, DecodeError>(p),
{
    lemma_names_differ();
    lemma_number_round_trip(p.data.port as int, 0, u16::MAX as int);
    let members = select_protocol_json(p)->Object_0;
    let inner = members[1].1;
    lemma_lookup_at(inner->Object_0, "address"@, 0);
    lemma_lookup_at(inner->Object_0, "port"@, 1);
    lemma_lookup_at(inner->Object_0, "mode"@, 2);
    assert(select_protocol_data_of(inner) == Ok::<SelectProtocolDataView, DecodeError>(p.data));
    lemma_lookup_at(members, "protocol"@, 0);
    lemma_lookup_at(members, "data"@, 1);
}

proof fn lemma_ready_round_trip(p: ReadyView)
    ensures
        ready_of(ready_json(p)) == Ok::<ReadyView, DecodeError>(p),
{
    lemma_names_differ();
    lemma_number_round_trip(p.ssrc as int, 0, u32::MAX as int);
    lemma_number_round_trip(p.port as int, 0, u16::MAX as int);
    lemma_number_round_trip(p.heartbeat_interval as int, 0, u64::MAX as int);
    lemma_texts_round_trip(p.modes);
    let members = ready_json(p)->Object_0;
    lemma_lookup_at(members, "ssrc"@, 0);
    lemma_lookup_at(members, "ip"@, 1);
    lemma_lookup_at(members, "port"@, 2);
    lemma_lookup_at(members, "modes"@, 3);
    lemma_lookup_at(members, "heartbeatInterval"@, 4);
}

proof fn lemma_nonce_round_trip(nonce: u64)
    ensures
        nonce_of(nonce_json(nonce)) == Ok::<u64, DecodeError>(nonce),
{
    lemma_number_round_trip(nonce as int, 0, u64::MAX as int);
    lemma_lookup_at(nonce_json(nonce)->Object_0, "nonce"@, 0);
}

proof fn lemma_session_description_round_trip(p: SessionDescriptionView)
    ensures
        session_description_of(session_description_json(p)) == Ok::<
            SessionDescriptionView,
            DecodeError,
        >(p),
{
    lemma_names_differ();
    lemma_words_round_trip(p.secret_key);
    let members = session_description_json(p)->Object_0;
    lemma_lookup_at(members, "mode"@, 0);
    lemma_lookup_at(members, "secretKey"@, 1);
}

proof fn lemma_speaking_round_trip(p: Speaking)
    ensures
        speaking_of(speaking_json(p)) == Ok::<Speaking, DecodeError>(p),
{
    lemma_names_differ();
    lemma_number_round_trip(p.speaking as int, 0, u8::MAX as int);
    lemma_number_round_trip(p.delay as int, 0, u8::MAX as int);
    lemma_number_round_trip(p.ssrc as int, 0, u32::MAX as int);
    let members = speaking_json(p)->Object_0;
    lemma_lookup_at(members, "speaking"@, 0);
    lemma_lookup_at(members, "delay"@, 1);
    lemma_lookup_at(members, "ssrc"@, 2);
}

proof fn lemma_resume_round_trip(p: ResumeView)
    ensures
        resume_of(resume_json(p)) == Ok::<ResumeView, DecodeError>(p),
{
    lemma_names_differ();
    let members = resume_json(p)->Object_0;
    lemma_lookup_at(members, "serverId"@, 0);
    lemma_lookup_at(members, "sessionId"@, 1);
    lemma_lookup_at(members, "token"@, 2);
}

proof fn lemma_hello_round_trip(p: Hello)
    ensures
        hello_of(hello_json(p)) == Ok::<Hello, DecodeError>(p),
{
    lemma_number_round_trip(p.heartbeat_interval as int, 0, u64::MAX as int);
    lemma_lookup_at(hello_json(p)->Object_0, "heartbeatInterval"@, 0);
}

proof fn lemma_client_disconnect_round_trip(p: ClientDisconnectView)
    ensures
        client_disconnect_of(client_disconnect_json(p)) == Ok::<
            ClientDisconnectView,
            DecodeError,
        >(p),
{
    lemma_lookup_at(client_disconnect_json(p)->Object_0, "reason"@, 0);
}

proof fn lemma_tags_differ()
    ensures
        "identify"@.len() == 8,
        "selectProtocol"@.len() == 14,
        "ready"@.len() == 5 && "ready"@[0] == 'r',
        "heartbeat"@.len() == 9,
        "sessionDescription"@.len() == 18,
        "speaking"@.len() == 8 && "speaking"@[0] == 's' && "identify"@[0] == 'i',
        "heartbeatACK"@.len() == 12,
        "resume"@.len() == 6,
        "hello"@.len() == 5 && "hello"@[0] == 'h',
        "resumed"@.len() == 7,
        "clientDisconnect"@.len() == 16,
{
    reveal_strlit("identify");
    reveal_strlit("selectProtocol");
    reveal_strlit("ready");
    reveal_strlit("heartbeat");
    reveal_strlit("sessionDescription");
    reveal_strlit("speaking");
    reveal_strlit("heartbeatACK");
    reveal_strlit("resume");
    reveal_strlit("hello");
    reveal_strlit("resumed");
    reveal_strlit("clientDisconnect");
}

/// Reading undoes writing: the document of a message is read as that very
/// message.
pub proof fn lemma_decode_inverts_encode(payload: PayloadView)
    ensures
        decoded(encoded(payload)) == Ok::<PayloadView, DecodeError>(payload),
{
    lemma_tags_differ();
    match payload {
        PayloadView::Identify(p) => lemma_identify_round_trip(p),
        PayloadView::SelectProtocol(p) => lemma_select_protocol_round_trip(p),
        PayloadView::Ready(p) => lemma_ready_round_trip(p),
        PayloadView::Heartbeat(p) => lemma_nonce_round_trip(p.nonce),
        PayloadView::SessionDescription(p) => lemma_session_description_round_trip(p),
        PayloadView::Speaking(p) => lemma_speaking_round_trip(p),
        PayloadView::HeartbeatACK(p) => lemma_nonce_round_trip(p.nonce),
        PayloadView::Resume(p) => lemma_resume_round_trip(p),
        PayloadView::Hello(p) => lemma_hello_round_trip(p),
        PayloadView::Resumed => {},
        PayloadView::ClientDisconnect(p) => lemma_client_disconnect_round_trip(p),
    }
}

} // verus!
