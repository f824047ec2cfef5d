//! Commands of the controlling client.

use crate::json::{JsonValue, JsonView, Number};
use vstd::prelude::*;

verus! {

/// One command, addressed to the session of one guild.
#[derive(Debug, Clone, PartialEq, Eq)]
pub struct ClientPayload {
    pub guild_id: String,
    pub op: Opcode,
}

/// The commands of the protocol.
#[derive(Debug, Clone, PartialEq, Eq)]
pub enum Opcode {
    VoiceUpdate(VoiceUpdate),
    Play(Play),
    Stop(Stop),
    Pause(Pause),
    Seek(Seek),
    Volume(Volume),
    Filters(Filters),
    Destroy(Destroy),
}

/// The voice server that Discord assigned to the guild, and the voice
/// session of the user.
#[derive(Debug, Clone, PartialEq, Eq)]
pub struct VoiceUpdate {
    pub session_id: String,
    pub event: VoiceUpdateEvent,
}

/// The voice server update as Discord sent it to the client.
#[derive(Debug, Clone, PartialEq, Eq)]
pub struct VoiceUpdateEvent {
    pub token: String,
    pub guild_id: String,
    pub endpoint: Option<String>,
}

/// Loads a track and plays it.
#[derive(Debug, Clone, PartialEq, Eq)]
pub struct Play {
    pub track: String,
    pub start_time: Option<u64>,
    pub end_time: Option<u64>,
    pub volume: Option<i16>,
    pub no_replace: Option<bool>,
    pub pause: Option<bool>,
}

/// Unloads the track.
#[derive(Debug, Clone, Copy, PartialEq, Eq, Structural)]
pub struct Stop {}

/// Pauses the track or lets it continue.
#[derive(Debug, Clone, Copy, PartialEq, Eq, Structural)]
pub struct Pause {
    pub pause: bool,
}

/// Moves to a position in the track, in milliseconds.
#[derive(Debug, Clone, Copy, PartialEq, Eq, Structural)]
pub struct Seek {
    pub position: u64,
}

/// Sets the volume of the player.
#[derive(Debug, Clone, Copy, PartialEq, Eq, Structural)]
pub struct Volume {
    pub volume: i16,
}

/// Audio filters, each one set or not. As a command, a filter that is not
/// set is left as it is; as the state of a player, it is switched off. What a
/// filter is set to is kept as the document that came with the command: the
/// audio pipeline reads it, the session does not.
#[derive(Debug, Clone, PartialEq, Eq)]
pub struct Filters {
    pub volume: Option<Number>,
    pub equalizer: Option<JsonValue>,
    pub karaoke: Option<JsonValue>,
    pub timescale: Option<JsonValue>,
    pub tremolo: Option<JsonValue>,
    pub vibrato: Option<JsonValue>,
    pub distortion: Option<JsonValue>,
    pub channel_mix: Option<JsonValue>,
    pub low_pass: Option<JsonValue>,
}

/// Ends the session of the guild.
#[derive(Debug, Clone, Copy, PartialEq, Eq, Structural)]
pub struct Destroy {}

/// The mathematical value of a [`ClientPayload`].
pub struct ClientPayloadView {
    pub guild_id: Seq<char>,
    pub op: OpcodeView,
}

/// The mathematical value of an [`Opcode`].
pub enum OpcodeView {
    VoiceUpdate(VoiceUpdateView),
    Play(PlayView),
    Stop(Stop),
    Pause(Pause),
    Seek(Seek),
    Volume(Volume),
    Filters(FiltersView),
    Destroy(Destroy),
}

pub struct VoiceUpdateView {
    pub session_id: Seq<char>,
    pub event: VoiceUpdateEventView,
}

pub struct VoiceUpdateEventView {
    pub token: Seq<char>,
    pub guild_id: Seq<char>,
    pub endpoint: Option<Seq<char>>,
}

pub struct PlayView {
    pub track: Seq<char>,
    pub start_time: Option<u64>,
    pub end_time: Option<u64>,
    pub volume: Option<i16>,
    pub no_replace: Option<bool>,
    pub pause: Option<bool>,
}

/// The mathematical value of [`Filters`].
pub struct FiltersView {
    pub volume: Option<Number>,
    pub equalizer: Option<JsonView>,
    pub karaoke: Option<JsonView>,
    pub timescale: Option<JsonView>,
    pub tremolo: Option<JsonView>,
    pub vibrato: Option<JsonView>,
    pub distortion: Option<JsonView>,
    pub channel_mix: Option<JsonView>,
    pub low_pass: Option<JsonView>,
}

impl View for VoiceUpdateEvent {
    type V = VoiceUpdateEventView;

    open spec fn view(&self) -> VoiceUpdateEventView {
        VoiceUpdateEventView {
            token: self.token@,
            guild_id: self.guild_id@,
            endpoint: self.endpoint.deep_view(),
        }
    }
}

impl View for VoiceUpdate {
    type V = VoiceUpdateView;

    open spec fn view(&self) -> VoiceUpdateView {
        VoiceUpdateView { session_id: self.session_id@, event: self.event@ }
    }
}

impl View for Play {
    type V = PlayView;

    open spec fn view(&self) -> PlayView {
        PlayView {
            track: self.track@,
            start_time: self.start_time,
            end_time: self.end_time,
            volume: self.volume,
            no_replace: self.no_replace,
            pause: self.pause,
        }
    }
}

impl DeepView for Play {
    type V = PlayView;

    open spec fn deep_view(&self) -> PlayView {
        self@
    }
}

impl View for Filters {
    type V = FiltersView;

    open spec fn view(&self) -> FiltersView {
        FiltersView {
            volume: self.volume,
            equalizer: self.equalizer.deep_view(),
            karaoke: self.karaoke.deep_view(),
            timescale: self.timescale.deep_view(),
            tremolo: self.tremolo.deep_view(),
            vibrato: self.vibrato.deep_view(),
            distortion: self.distortion.deep_view(),
            channel_mix: self.channel_mix.deep_view(),
            low_pass: self.low_pass.deep_view(),
        }
    }
}

impl View for Opcode {
    type V = OpcodeView;

    open spec fn view(&self) -> OpcodeView {
        match self {
            Opcode::VoiceUpdate(c) => OpcodeView::VoiceUpdate(c@),
            Opcode::Play(c) => OpcodeView::Play(c@),
            Opcode::Stop(c) => OpcodeView::Stop(*c),
            Opcode::Pause(c) => OpcodeView::Pause(*c),
            Opcode::Seek(c) => OpcodeView::Seek(*c),
            Opcode::Volume(c) => OpcodeView::Volume(*c),
            Opcode::Filters(c) => OpcodeView::Filters(c@),
            Opcode::Destroy(c) => OpcodeView::Destroy(*c),
        }
    }
}

impl View for ClientPayload {
    type V = ClientPayloadView;

    open spec fn view(&self) -> ClientPayloadView {
        ClientPayloadView { guild_id: self.guild_id@, op: self.op@ }
    }
}

/// `update` where it is set, `current` where it is not.
pub open spec fn overlay<T>(current: Option<T>, update: Option<T>) -> Option<T> {
    match update {
        Some(_) => update,
        None => current,
    }
}

impl FiltersView {
    /// No filter set.
    pub open spec fn none() -> FiltersView {
        FiltersView {
            volume: None,
            equalizer: None,
            karaoke: None,
            timescale: None,
            tremolo: None,
            vibrato: None,
            distortion: None,
            channel_mix: None,
            low_pass: None,
        }
    }

    /// The filters after a command: each filter that `update` sets takes
    /// the new setting, every other filter keeps its own.
    pub open spec fn overlaid(self, update: FiltersView) -> FiltersView {
        FiltersView {
            volume: overlay(self.volume, update.volume),
            equalizer: overlay(self.equalizer, update.equalizer),
            karaoke: overlay(self.karaoke, update.karaoke),
            timescale: overlay(self.timescale, update.timescale),
            tremolo: overlay(self.tremolo, update.tremolo),
            vibrato: overlay(self.vibrato, update.vibrato),
            distortion: overlay(self.distortion, update.distortion),
            channel_mix: overlay(self.channel_mix, update.channel_mix),
            low_pass: overlay(self.low_pass, update.low_pass),
        }
    }
}

fn copy_setting(setting: &Option<JsonValue>) -> (r: Option<JsonValue>)
    ensures
        r.deep_view() == setting.deep_view(),
{
    match setting {
        Some(v) => Some(v.copy()),
        None => None,
    }
}

fn overlay_setting(current: &mut Option<JsonValue>, update: Option<JsonValue>)
    ensures
        final(current).deep_view() == overlay(old(current).deep_view(), update.deep_view()),
{
    if update.is_some() {
        *current = update;
    }
}

impl Filters {
    /// No filter set.
    pub fn none() -> (r: Filters)
        ensures
            r@ == FiltersView::none(),
    {
        Filters {
            volume: None,
            equalizer: None,
            karaoke: None,
            timescale: None,
            tremolo: None,
            vibrato: None,
            distortion: None,
            channel_mix: None,
            low_pass: None,
        }
    }

    pub fn copy(&self) -> (r: Filters)
        ensures
            r@ == self@,
    {
        Filters {
            volume: self.volume,
            equalizer: copy_setting(&self.equalizer),
            karaoke: copy_setting(&self.karaoke),
            timescale: copy_setting(&self.timescale),
            tremolo: copy_setting(&self.tremolo),
            vibrato: copy_setting(&self.vibrato),
            distortion: copy_setting(&self.distortion),
            channel_mix: copy_setting(&self.channel_mix),
            low_pass: copy_setting(&self.low_pass),
        }
    }

    /// Takes over every filter that `update` sets and keeps the others.
    pub fn apply(&mut self, update: Filters)
        ensures
            final(self)@ == old(self)@.overlaid(update@),
    {
        if update.volume.is_some() {
            self.volume = update.volume;
        }
        overlay_setting(&mut self.equalizer, update.equalizer);
        overlay_setting(&mut self.karaoke, update.karaoke);
        overlay_setting(&mut self.timescale, update.timescale);
        overlay_setting(&mut self.tremolo, update.tremolo);
        overlay_setting(&mut self.vibrato, update.vibrato);
        overlay_setting(&mut self.distortion, update.distortion);
        overlay_setting(&mut self.channel_mix, update.channel_mix);
        overlay_setting(&mut self.low_pass, update.low_pass);
    }
}

impl Play {
    pub fn copy(&self) -> (r: Play)
        ensures
            r@ == self@,
    {
        Play {
            track: self.track.clone(),
            start_time: self.start_time,
            end_time: self.end_time,
            volume: self.volume,
            no_replace: self.no_replace,
            pause: self.pause,
        }
    }
}

/// A command that sets some filters leaves every other filter as it was.
pub proof fn lemma_overlay_keeps_unset_filters(current: FiltersView, update: FiltersView)
    ensures
        update.volume is None ==> current.overlaid(update).volume == current.volume,
        update.equalizer is None ==> current.overlaid(update).equalizer == current.equalizer,
        update.karaoke is None ==> current.overlaid(update).karaoke == current.karaoke,
        update.timescale is None ==> current.overlaid(update).timescale == current.timescale,
        update.tremolo is None ==> current.overlaid(update).tremolo == current.tremolo,
        update.vibrato is None ==> current.overlaid(update).vibrato == current.vibrato,
        update.distortion is None ==> current.overlaid(update).distortion == current.distortion,
        update.channel_mix is None ==> current.overlaid(update).channel_mix == current.channel_mix,
        update.low_pass is None ==> current.overlaid(update).low_pass == current.low_pass,
        update.volume is Some ==> current.overlaid(update).volume == update.volume,
        update.equalizer is Some ==> current.overlaid(update).equalizer == update.equalizer,
        update.karaoke is Some ==> current.overlaid(update).karaoke == update.karaoke,
        update.timescale is Some ==> current.overlaid(update).timescale == update.timescale,
        update.tremolo is Some ==> current.overlaid(update).tremolo == update.tremolo,
        update.vibrato is Some ==> current.overlaid(update).vibrato == update.vibrato,
        update.distortion is Some ==> current.overlaid(update).distortion == update.distortion,
        update.channel_mix is Some ==> current.overlaid(update).channel_mix == update.channel_mix,
        update.low_pass is Some ==> current.overlaid(update).low_pass == update.low_pass,
{
}

} // verus!
