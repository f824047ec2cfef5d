//! The voice session of one guild: a link to the gateway, a player, and the
//! play commands that wait for the link.

use super::model::{
    answer, clamp_volume, error_event, error_of, play_answer, replay, ClientEventView,
    ErrorFrameView, PlayReplyView, PlaybackView, PlayerStateView, SessionConfigView,
    SessionError, SessionOutputView, SessionView, DEFAULT_VOLUME,
};
use super::payloads::{Filters, Opcode, Play, VoiceUpdate};
use crate::discord::link::{
    LinkCommand, LinkConfig, LinkEvent, VoiceCredentials, VoiceGatewayLink,
};
use crate::discord::model::LinkError;
use crate::json::{copy_opt_text, DecodeError};
use vstd::prelude::*;

verus! {

/// The settings of a session.
#[derive(Debug, Clone, PartialEq, Eq)]
pub struct SessionConfig {
    /// The user the node plays for.
    pub user_id: String,
    /// How many play commands may wait for the link.
    pub queue_depth: usize,
    /// The lowest volume a player takes.
    pub min_volume: i16,
    /// The highest volume a player takes.
    pub max_volume: i16,
    pub link: LinkConfig,
}

/// The state of a player.
#[derive(Debug, Clone, PartialEq, Eq)]
pub struct Playback {
    /// The loaded track, if there is one.
    pub track: Option<String>,
    pub position_ms: u64,
    /// Where the play command asked the track to end.
    pub end_ms: Option<u64>,
    /// How long the track is, once the source has reported it.
    pub duration_ms: Option<u64>,
    pub is_paused: bool,
    pub volume: i16,
    pub filters: Filters,
}

/// What the client is told of a player after a change.
#[derive(Debug, Clone, PartialEq, Eq)]
pub struct PlayerState {
    pub guild_id: String,
    pub track: Option<String>,
    pub position_ms: u64,
    pub is_paused: bool,
    pub volume: i16,
    pub filters: Filters,
}

/// Tells the client that a command or the session of a guild failed.
#[derive(Debug, Clone, PartialEq, Eq)]
pub struct ErrorFrame {
    pub guild_id: String,
    pub error: SessionError,
}

/// A message for the client.
#[derive(Debug, Clone, PartialEq, Eq)]
pub enum ClientEvent {
    PlayerUpdate(PlayerState),
    Error(ErrorFrame),
    /// A frame of the client was not a command.
    Malformed(DecodeError),
}

/// The answer to a play command.
#[derive(Debug, PartialEq, Eq)]
pub struct PlayReply {
    pub result: Result<PlayerState, SessionError>,
    /// The queued command that had to make room, if one had to.
    pub superseded: Option<Play>,
}

/// What a session wants done: events for the client, and commands for the
/// gateway connection of its guild, each list in order.
#[derive(Debug, Clone, PartialEq, Eq)]
pub struct SessionOutput {
    pub events: Vec<ClientEvent>,
    pub commands: Vec<LinkCommand>,
}

/// The voice session of one guild. Its mathematical value is a
/// [`SessionView`].
pub struct VoiceSession {
    guild_id: String,
    config: SessionConfig,
    link: VoiceGatewayLink,
    playback: Playback,
    queue: Vec<Play>,
    destroyed: bool,
}

impl View for SessionConfig {
    type V = SessionConfigView;

    open spec fn view(&self) -> SessionConfigView {
        SessionConfigView {
            user_id: self.user_id@,
            queue_depth: self.queue_depth,
            min_volume: self.min_volume,
            max_volume: self.max_volume,
            link: self.link@,
        }
    }
}

impl View for Playback {
    type V = PlaybackView;

    open spec fn view(&self) -> PlaybackView {
        PlaybackView {
            track: self.track.deep_view(),
            position_ms: self.position_ms,
            end_ms: self.end_ms,
            duration_ms: self.duration_ms,
            is_paused: self.is_paused,
            volume: self.volume,
            filters: self.filters@,
        }
    }
}

impl View for PlayerState {
    type V = PlayerStateView;

    open spec fn view(&self) -> PlayerStateView {
        PlayerStateView {
            guild_id: self.guild_id@,
            track: self.track.deep_view(),
            position_ms: self.position_ms,
            is_paused: self.is_paused,
            volume: self.volume,
            filters: self.filters@,
        }
    }
}

impl View for ErrorFrame {
    type V = ErrorFrameView;

    open spec fn view(&self) -> ErrorFrameView {
        ErrorFrameView { guild_id: self.guild_id@, error: self.error }
    }
}

impl View for ClientEvent {
    type V = ClientEventView;

    open spec fn view(&self) -> ClientEventView {
        match self {
            ClientEvent::PlayerUpdate(state) => ClientEventView::PlayerUpdate(state@),
            ClientEvent::Error(frame) => ClientEventView::Error(frame@),
            ClientEvent::Malformed(error) => ClientEventView::Malformed(*error),
        }
    }
}

impl DeepView for ClientEvent {
    type V = ClientEventView;

    open spec fn deep_view(&self) -> ClientEventView {
        self@
    }
}

/// The mathematical value of the outcome of a command.
pub open spec fn outcome_view(result: Result<PlayerState, SessionError>) -> Result<
    PlayerStateView,
    SessionError,
> {
    match result {
        Ok(state) => Ok(state@),
        Err(error) => Err(error),
    }
}

impl View for PlayReply {
    type V = PlayReplyView;

    open spec fn view(&self) -> PlayReplyView {
        PlayReplyView {
            result: outcome_view(self.result),
            superseded: self.superseded.deep_view(),
        }
    }
}

impl View for SessionOutput {
    type V = SessionOutputView;

    open spec fn view(&self) -> SessionOutputView {
        SessionOutputView {
            events: self.events.deep_view(),
            commands: self.commands.deep_view(),
        }
    }
}

impl View for VoiceSession {
    type V = SessionView;

    closed spec fn view(&self) -> SessionView {
        SessionView {
            guild_id: self.guild_id@,
            config: self.config@,
            link: self.link@,
            playback: self.playback@,
            queue: self.queue.deep_view(),
            destroyed: self.destroyed,
        }
    }
}

impl DeepView for VoiceSession {
    type V = SessionView;

    open spec fn deep_view(&self) -> SessionView {
        self@
    }
}

/// Brings a volume into the range from `min` to `max`.
pub fn clamp(volume: i16, min: i16, max: i16) -> (r: i16)
    ensures
        r == clamp_volume(volume, min, max),
{
    if volume < min {
        min
    } else if volume > max {
        max
    } else {
        volume
    }
}

/// The failure of a link as the client is told of it.
pub fn session_error(cause: LinkError) -> (r: SessionError)
    ensures
        r == error_of(cause),
{
    match cause {
        LinkError::HandshakeTimeout => SessionError::HandshakeTimeout,
        LinkError::LivenessFailure => SessionError::LivenessFailure,
        LinkError::ProtocolViolation => SessionError::ProtocolViolation,
        LinkError::ResumeExhausted => SessionError::ResumeExhausted,
    }
}

/// The error frame for a guild, as an event.
pub fn error_frame(guild_id: &String, error: SessionError) -> (r: ClientEvent)
    ensures
        r@ == error_event(guild_id@, error),
{
    ClientEvent::Error(ErrorFrame { guild_id: guild_id.clone(), error })
}

/// The events that answer a command.
pub fn answer_events(guild_id: &String, result: Result<PlayerState, SessionError>) -> (r: Vec<
    ClientEvent,
>)
    ensures
        r.deep_view() == answer(guild_id@, outcome_view(result)),
{
    let mut events: Vec<ClientEvent> = Vec::new();
    match result {
        Ok(state) => {
            events.push(ClientEvent::PlayerUpdate(state));
        },
        Err(error) => {
            events.push(error_frame(guild_id, error));
        },
    }
    assert(events.deep_view() =~= answer(guild_id@, outcome_view(result)));
    events
}

/// The events that answer a play command.
pub fn play_events(guild_id: &String, reply: PlayReply) -> (r: Vec<ClientEvent>)
    ensures
        r.deep_view() == play_answer(guild_id@, reply@),
{
    let mut events: Vec<ClientEvent> = Vec::new();
    if reply.superseded.is_some() {
        events.push(error_frame(guild_id, SessionError::Superseded));
    }
    match reply.result {
        Ok(state) => {
            events.push(ClientEvent::PlayerUpdate(state));
        },
        Err(error) => {
            events.push(error_frame(guild_id, error));
        },
    }
    assert(events.deep_view() =~= play_answer(guild_id@, reply@));
    events
}

impl SessionConfig {
    /// The usual settings: up to sixteen commands wait for the link, and
    /// volumes run from 0 to 1000.
    pub fn standard(user_id: String, link: LinkConfig) -> (r: SessionConfig)
        ensures
            r@ == (SessionConfigView {
                user_id: user_id@,
                queue_depth: 16,
                min_volume: 0,
                max_volume: 1000,
                link: link@,
            }),
    {
        SessionConfig { user_id, queue_depth: 16, min_volume: 0, max_volume: 1000, link }
    }

    pub fn copy(&self) -> (r: SessionConfig)
        ensures
            r@ == self@,
    {
        SessionConfig {
            user_id: self.user_id.clone(),
            queue_depth: self.queue_depth,
            min_volume: self.min_volume,
            max_volume: self.max_volume,
            link: self.link.copy(),
        }
    }
}

impl Playback {
    /// A player with nothing loaded.
    pub fn idle(min_volume: i16, max_volume: i16) -> (r: Playback)
        ensures
            r@ == PlaybackView::idle(min_volume, max_volume),
    {
        Playback {
            track: None,
            position_ms: 0,
            end_ms: None,
            duration_ms: None,
            is_paused: false,
            volume: clamp(DEFAULT_VOLUME, min_volume, max_volume),
            filters: Filters::none(),
        }
    }

    /// Whether a track is loaded and running.
    pub fn playing(&self) -> (r: bool)
        ensures
            r == self@.playing(),
    {
        self.track.is_some() && !self.is_paused
    }

    /// Where the track ends, as far as it is known.
    pub fn end_of_track(&self) -> (r: Option<u64>)
        ensures
            r == self@.end_of_track(),
    {
        match (self.end_ms, self.duration_ms) {
            (Some(end), Some(duration)) => Some(if end <= duration {
                end
            } else {
                duration
            }),
            (Some(end), None) => Some(end),
            (None, duration) => duration,
        }
    }

    /// `position_ms`, or the end of the track if that comes first.
    pub fn clamp_position(&self, position_ms: u64) -> (r: u64)
        ensures
            r == self@.clamp_position(position_ms),
    {
        match self.end_of_track() {
            Some(end) => if position_ms > end {
                end
            } else {
                position_ms
            },
            None => position_ms,
        }
    }

    /// What the client is told of the player.
    pub fn snapshot(&self, guild_id: &String) -> (r: PlayerState)
        ensures
            r@ == self@.snapshot(guild_id@),
    {
        PlayerState {
            guild_id: guild_id.clone(),
            track: copy_opt_text(&self.track),
            position_ms: self.position_ms,
            is_paused: self.is_paused,
            volume: self.volume,
            filters: self.filters.copy(),
        }
    }

    /// Lets a play command take effect.
    pub fn start(&mut self, min_volume: i16, max_volume: i16, command: &Play)
        ensures
            final(self)@ == old(self)@.started(min_volume, max_volume, command@),
    {
        let keep = match command.no_replace {
            Some(flag) => flag && self.playing(),
            None => false,
        };
        if keep {
            return ;
        }
        self.track = Some(command.track.clone());
        self.end_ms = command.end_time;
        self.duration_ms = None;
        self.is_paused = match command.pause {
            Some(flag) => flag,
            None => false,
        };
        self.volume = match command.volume {
            Some(volume) => clamp(volume, min_volume, max_volume),
            None => self.volume,
        };
        let start = match command.start_time {
            Some(start) => start,
            None => 0,
        };
        self.position_ms = 0;
        self.position_ms = self.clamp_position(start);
    }

    /// Unloads the track.
    pub fn unload(&mut self)
        ensures
            final(self)@ == old(self)@.stopped(),
    {
        self.track = None;
        self.position_ms = 0;
        self.end_ms = None;
        self.duration_ms = None;
        self.is_paused = false;
    }
}

/// Lets the queued commands take effect, oldest first, and collects one
/// player update for each.
pub fn replay_queue(
    guild_id: &String,
    min_volume: i16,
    max_volume: i16,
    playback: &mut Playback,
    queue: &Vec<Play>,
) -> (events: Vec<ClientEvent>)
    ensures
        (final(playback)@, events.deep_view()) == replay(
            guild_id@,
            min_volume,
            max_volume,
            old(playback)@,
            queue.deep_view(),
        ),
{
    let mut events: Vec<ClientEvent> = Vec::new();
    let mut i: usize = 0;
    let ghost all = queue.deep_view();
    let ghost first = playback@;
    proof {
        assert(all.skip(0) =~= all);
        assert(Seq::<ClientEventView>::empty() + replay(
            guild_id@,
            min_volume,
            max_volume,
            first,
            all,
        ).1 =~= replay(guild_id@, min_volume, max_volume, first, all).1);
    }
    while i < queue.len()
        invariant
            i <= queue.len(),
            all == queue.deep_view(),
            replay(guild_id@, min_volume, max_volume, first, all).0 == replay(
                guild_id@,
                min_volume,
                max_volume,
                playback@,
                all.skip(i as int),
            ).0,
            replay(guild_id@, min_volume, max_volume, first, all).1 == events.deep_view() + replay(
                guild_id@,
                min_volume,
                max_volume,
                playback@,
                all.skip(i as int),
            ).1,
        decreases queue.len() - i,
    {
        let ghost before = playback@;
        let ghost done = events.deep_view();
        playback.start(min_volume, max_volume, &queue[i]);
        events.push(ClientEvent::PlayerUpdate(playback.snapshot(guild_id)));
        proof {
            let rest = all.skip(i as int);
            assert(rest[0] == queue@[i as int]@);
            assert(rest.skip(1) =~= all.skip(i + 1));
            let tail = replay(guild_id@, min_volume, max_volume, playback@, all.skip(i + 1)).1;
            let update = ClientEventView::PlayerUpdate(playback@.snapshot(guild_id@));
            assert(events.deep_view() =~= done.push(update));
            assert(done + (seq![update] + tail) =~= done.push(update) + tail);
        }
        i += 1;
    }
    proof {
        assert(all.skip(all.len() as int) =~= Seq::empty());
        assert(events.deep_view() + Seq::<ClientEventView>::empty() =~= events.deep_view());
    }
    events
}

impl VoiceSession {
    /// The session of a guild before its first voice update.
    pub fn new(guild_id: String, config: SessionConfig) -> (r: VoiceSession)
        ensures
            r@ == SessionView::fresh(guild_id@, config@),
    {
        let credentials = VoiceCredentials {
            session_id: String::new(),
            token: String::new(),
            endpoint: None,
        };
        let link = VoiceGatewayLink::new(
            config.link.copy(),
            guild_id.clone(),
            config.user_id.clone(),
            credentials,
        );
        let playback = Playback::idle(config.min_volume, config.max_volume);
        let r = VoiceSession {
            guild_id,
            config,
            link,
            playback,
            queue: Vec::new(),
            destroyed: false,
        };
        assert(r@.queue =~= Seq::empty());
        r
    }

    /// The guild of the session.
    pub fn guild_id(&self) -> (r: &String)
        ensures
            r@ == self@.guild_id,
    {
        &self.guild_id
    }

    /// The link of the session.
    pub fn link(&self) -> (r: &VoiceGatewayLink)
        ensures
            r@ == self@.link,
    {
        &self.link
    }

    /// The player of the session.
    pub fn playback(&self) -> (r: &Playback)
        ensures
            r@ == self@.playback,
    {
        &self.playback
    }

    /// How many play commands wait for the link.
    pub fn queued(&self) -> (r: usize)
        ensures
            r == self@.queue.len(),
    {
        self.queue.len()
    }

    /// Whether the session has ended and is to be dropped.
    pub fn is_destroyed(&self) -> (r: bool)
        ensures
            r == self@.destroyed,
    {
        self.destroyed
    }

    fn report(&self) -> (r: Result<PlayerState, SessionError>)
        ensures
            outcome_view(r) == Ok::<PlayerStateView, SessionError>(self@.snapshot()),
    {
        Ok(self.playback.snapshot(&self.guild_id))
    }

    /// Takes a voice update: see [`SessionView::apply_voice_update`].
    pub fn apply_voice_update(&mut self, update: VoiceUpdate) -> (commands: Vec<LinkCommand>)
        ensures
            (final(self)@, commands.deep_view()) == old(self)@.apply_voice_update(update@),
    {
        let credentials = VoiceCredentials {
            session_id: update.session_id,
            token: update.event.token,
            endpoint: update.event.endpoint,
        };
        let current = self.link.credentials();
        let same_endpoint = match (&credentials.endpoint, &current.endpoint) {
            (Some(a), Some(b)) => *a == *b,
            (None, None) => true,
            _ => false,
        };
        let same_session = credentials.session_id == current.session_id;
        if !self.link.is_live() || !same_endpoint || !same_session {
            let reply = self.link.rebuild(credentials);
            reply.commands
        } else {
            self.link.refresh(credentials.token);
            let commands: Vec<LinkCommand> = Vec::new();
            assert(commands.deep_view() =~= Seq::empty());
            commands
        }
    }

    /// Takes a play command: see [`SessionView::play`].
    pub fn play(&mut self, command: Play) -> (reply: PlayReply)
        ensures
            (final(self)@, reply@) == old(self)@.play(command@),
    {
        if self.link.is_connected() {
            self.playback.start(self.config.min_volume, self.config.max_volume, &command);
            return PlayReply { result: self.report(), superseded: None };
        }
        let ghost before = self.queue.deep_view();
        if self.queue.len() < self.config.queue_depth {
            self.queue.push(command);
            assert(self.queue.deep_view() =~= before.push(command@));
            PlayReply { result: Err(SessionError::NotConnected), superseded: None }
        } else if self.queue.len() == 0 {
            PlayReply { result: Err(SessionError::NotConnected), superseded: Some(command) }
        } else {
            let oldest = self.queue.remove(0);
            self.queue.push(command);
            assert(self.queue.deep_view() =~= before.skip(1).push(command@));
            PlayReply { result: Err(SessionError::NotConnected), superseded: Some(oldest) }
        }
    }

    /// Unloads the track. Fails with `NoActiveTrack` if none is loaded.
    pub fn stop(&mut self) -> (r: Result<PlayerState, SessionError>)
        ensures
            (final(self)@, outcome_view(r)) == old(self)@.stop(),
    {
        if self.playback.track.is_none() {
            return Err(SessionError::NoActiveTrack);
        }
        self.playback.unload();
        self.report()
    }

    /// Pauses or continues. Fails with `NoActiveTrack` if no track is
    /// loaded.
    pub fn pause(&mut self, flag: bool) -> (r: Result<PlayerState, SessionError>)
        ensures
            (final(self)@, outcome_view(r)) == old(self)@.pause(flag),
    {
        if self.playback.track.is_none() {
            return Err(SessionError::NoActiveTrack);
        }
        self.playback.is_paused = flag;
        self.report()
    }

    /// Moves within the track, at most to its end. Fails with
    /// `NoActiveTrack` if no track is loaded.
    pub fn seek(&mut self, position_ms: u64) -> (r: Result<PlayerState, SessionError>)
        ensures
            (final(self)@, outcome_view(r)) == old(self)@.seek(position_ms),
    {
        if self.playback.track.is_none() {
            return Err(SessionError::NoActiveTrack);
        }
        self.playback.position_ms = self.playback.clamp_position(position_ms);
        self.report()
    }

    /// Takes the duration of the loaded track from the source. Fails with
    /// `NoActiveTrack` if no track is loaded.
    pub fn note_duration(&mut self, duration_ms: u64) -> (r: Result<PlayerState, SessionError>)
        ensures
            (final(self)@, outcome_view(r)) == old(self)@.note_duration(duration_ms),
    {
        if self.playback.track.is_none() {
            return Err(SessionError::NoActiveTrack);
        }
        self.playback.duration_ms = Some(duration_ms);
        self.playback.position_ms = self.playback.clamp_position(self.playback.position_ms);
        self.report()
    }

    /// Sets the volume, within the configured range. Fails with
    /// `NotConnected` if there is no link.
    pub fn set_volume(&mut self, volume: i16) -> (r: Result<PlayerState, SessionError>)
        ensures
            (final(self)@, outcome_view(r)) == old(self)@.set_volume(volume),
    {
        if !self.link.is_live() {
            return Err(SessionError::NotConnected);
        }
        self.playback.volume = clamp(volume, self.config.min_volume, self.config.max_volume);
        self.report()
    }

    /// Sets the filters that `update` names and keeps the others. Fails
    /// with `NotConnected` if there is no link.
    pub fn set_filters(&mut self, update: Filters) -> (r: Result<PlayerState, SessionError>)
        ensures
            (final(self)@, outcome_view(r)) == old(self)@.set_filters(update@),
    {
        if !self.link.is_live() {
            return Err(SessionError::NotConnected);
        }
        self.playback.filters.apply(update);
        self.report()
    }

    /// Ends the session: see [`SessionView::destroy`].
    pub fn destroy(&mut self) -> (commands: Vec<LinkCommand>)
        ensures
            (final(self)@, commands.deep_view()) == old(self)@.destroy(),
    {
        let reply = self.link.close();
        self.queue = Vec::new();
        self.destroyed = true;
        assert(self.queue.deep_view() =~= Seq::empty());
        reply.commands
    }

    /// Takes an event of the gateway connection: see
    /// [`SessionView::gateway`].
    pub fn gateway(&mut self, event: LinkEvent, now_ms: u64) -> (out: SessionOutput)
        ensures
            (final(self)@, out@) == old(self)@.gateway(event@, now_ms),
    {
        let was_connected = self.link.is_connected();
        let reply = self.link.step(event, now_ms);
        match reply.failure {
            Some(cause) => {
                self.queue = Vec::new();
                self.destroyed = true;
                let mut events: Vec<ClientEvent> = Vec::new();
                events.push(error_frame(&self.guild_id, session_error(cause)));
                assert(self.queue.deep_view() =~= Seq::empty());
                assert(events.deep_view() =~= seq![
                    error_event(self.guild_id@, error_of(cause)),
                ]);
                SessionOutput { events, commands: reply.commands }
            },
            None => {
                if self.link.is_connected() && !was_connected {
                    let events = replay_queue(
                        &self.guild_id,
                        self.config.min_volume,
                        self.config.max_volume,
                        &mut self.playback,
                        &self.queue,
                    );
                    self.queue = Vec::new();
                    assert(self.queue.deep_view() =~= Seq::empty());
                    SessionOutput { events, commands: reply.commands }
                } else {
                    let events: Vec<ClientEvent> = Vec::new();
                    assert(events.deep_view() =~= Seq::empty());
                    SessionOutput { events, commands: reply.commands }
                }
            },
        }
    }

    /// Takes any command of the client: see [`SessionView::apply`].
    pub fn apply(&mut self, op: Opcode) -> (out: SessionOutput)
        ensures
            (final(self)@, out@) == old(self)@.apply(op@),
    {
        let no_commands: Vec<LinkCommand> = Vec::new();
        let no_events: Vec<ClientEvent> = Vec::new();
        assert(no_commands.deep_view() =~= Seq::empty());
        assert(no_events.deep_view() =~= Seq::empty());
        match op {
            Opcode::VoiceUpdate(update) => {
                let commands = self.apply_voice_update(update);
                SessionOutput { events: no_events, commands }
            },
            Opcode::Play(command) => {
                let reply = self.play(command);
                SessionOutput { events: play_events(&self.guild_id, reply), commands: no_commands }
            },
            Opcode::Destroy(_) => {
                let commands = self.destroy();
                SessionOutput { events: no_events, commands }
            },
            Opcode::Stop(_) => {
                let result = self.stop();
                SessionOutput {
                    events: answer_events(&self.guild_id, result),
                    commands: no_commands,
                }
            },
            Opcode::Pause(command) => {
                let result = self.pause(command.pause);
                SessionOutput {
                    events: answer_events(&self.guild_id, result),
                    commands: no_commands,
                }
            },
            Opcode::Seek(command) => {
                let result = self.seek(command.position);
                SessionOutput {
                    events: answer_events(&self.guild_id, result),
                    commands: no_commands,
                }
            },
            Opcode::Volume(command) => {
                let result = self.set_volume(command.volume);
                SessionOutput {
                    events: answer_events(&self.guild_id, result),
                    commands: no_commands,
                }
            },
            Opcode::Filters(update) => {
                let result = self.set_filters(update);
                SessionOutput {
                    events: answer_events(&self.guild_id, result),
                    commands: no_commands,
                }
            },
        }
    }
}

} // verus!
