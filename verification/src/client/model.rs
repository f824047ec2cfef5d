//! The per-guild voice session as a transition system over mathematical
//! values. The executable session in [`super::session`] is proved to follow
//! these functions.

use super::payloads::{FiltersView, OpcodeView, PlayView, VoiceUpdateView};
use crate::discord::model::{
    LinkCommandView, LinkConfigView, LinkError, LinkEventView, LinkState, LinkView,
    VoiceCredentialsView,
};
use crate::json::DecodeError;
use vstd::prelude::*;

verus! {

/// The volume of a player that has not been told one.
pub const DEFAULT_VOLUME: i16 = 100;

/// What can go wrong with a command or a session. All of these reach the
/// client as error frames; none of them closes its connection.
#[derive(Debug, Clone, Copy, PartialEq, Eq, Structural)]
pub enum SessionError {
    /// The command names a guild that has no session.
    NoSessionForGuild,
    /// The link is not connected. A play command is kept for later.
    NotConnected,
    /// The command needs a loaded track, and none is loaded.
    NoActiveTrack,
    /// The command waited for the link and was pushed out by later ones.
    Superseded,
    /// The handshake timed out and the session has ended.
    HandshakeTimeout,
    /// The connection failed and the session has ended.
    LivenessFailure,
    /// The gateway broke the protocol and the session has ended.
    ProtocolViolation,
    /// The session could not be resumed and has ended.
    ResumeExhausted,
}

/// The failure of a link as the client is told of it.
pub open spec fn error_of(cause: LinkError) -> SessionError {
    match cause {
        LinkError::HandshakeTimeout => SessionError::HandshakeTimeout,
        LinkError::LivenessFailure => SessionError::LivenessFailure,
        LinkError::ProtocolViolation => SessionError::ProtocolViolation,
        LinkError::ResumeExhausted => SessionError::ResumeExhausted,
    }
}

/// The mathematical value of a session's settings.
pub struct SessionConfigView {
    pub user_id: Seq<char>,
    pub queue_depth: usize,
    pub min_volume: i16,
    pub max_volume: i16,
    pub link: LinkConfigView,
}

/// The state of a player, as a mathematical value.
pub struct PlaybackView {
    pub track: Option<Seq<char>>,
    pub position_ms: u64,
    pub end_ms: Option<u64>,
    pub duration_ms: Option<u64>,
    pub is_paused: bool,
    pub volume: i16,
    pub filters: FiltersView,
}

/// What the client is told of a player, as a mathematical value.
pub struct PlayerStateView {
    pub guild_id: Seq<char>,
    pub track: Option<Seq<char>>,
    pub position_ms: u64,
    pub is_paused: bool,
    pub volume: i16,
    pub filters: FiltersView,
}

/// An error frame, as a mathematical value.
pub struct ErrorFrameView {
    pub guild_id: Seq<char>,
    pub error: SessionError,
}

/// A message for the client, as a mathematical value.
pub enum ClientEventView {
    PlayerUpdate(PlayerStateView),
    Error(ErrorFrameView),
    Malformed(DecodeError),
}

/// The answer to a play command, as a mathematical value.
pub struct PlayReplyView {
    pub result: Result<PlayerStateView, SessionError>,
    pub superseded: Option<PlayView>,
}

/// What a session wants done, as a mathematical value.
pub struct SessionOutputView {
    pub events: Seq<ClientEventView>,
    pub commands: Seq<LinkCommandView>,
}

/// Everything a session knows, as a mathematical value.
pub struct SessionView {
    pub guild_id: Seq<char>,
    pub config: SessionConfigView,
    pub link: LinkView,
    pub playback: PlaybackView,
    pub queue: Seq<PlayView>,
    pub destroyed: bool,
}

/// `volume` brought into the range from `min` to `max`.
pub open spec fn clamp_volume(volume: i16, min: i16, max: i16) -> i16 {
    if volume < min {
        min
    } else if volume > max {
        max
    } else {
        volume
    }
}

/// The error frame for `guild_id`.
pub open spec fn error_event(guild_id: Seq<char>, error: SessionError) -> ClientEventView {
    ClientEventView::Error(ErrorFrameView { guild_id, error })
}

/// The events that answer a command that either changed the player or
/// failed.
pub open spec fn answer(guild_id: Seq<char>, result: Result<PlayerStateView, SessionError>) -> Seq<
    ClientEventView,
> {
    match result {
        Ok(state) => seq![ClientEventView::PlayerUpdate(state)],
        Err(error) => seq![error_event(guild_id, error)],
    }
}

/// The events that answer a play command: the command that it pushed out
/// of the queue fails first, then comes the answer to the command itself.
pub open spec fn play_answer(guild_id: Seq<char>, reply: PlayReplyView) -> Seq<ClientEventView> {
    let first = if reply.superseded is Some {
        seq![error_event(guild_id, SessionError::Superseded)]
    } else {
        Seq::empty()
    };
    first + answer(guild_id, reply.result)
}

/// A bounded queue takes `command` at its end. A full queue loses its oldest
/// command to make room, and a queue without any room loses the command
/// itself. The second component is the command that was lost.
pub open spec fn enqueue(queue: Seq<PlayView>, depth: usize, command: PlayView) -> (
    Seq<PlayView>,
    Option<PlayView>,
) {
    if queue.len() < depth {
        (queue.push(command), None)
    } else if queue.len() == 0 {
        (queue, Some(command))
    } else {
        (queue.skip(1).push(command), Some(queue[0]))
    }
}

impl PlaybackView {
    /// A player with nothing loaded.
    pub open spec fn idle(min_volume: i16, max_volume: i16) -> PlaybackView {
        PlaybackView {
            track: None,
            position_ms: 0,
            end_ms: None,
            duration_ms: None,
            is_paused: false,
            volume: clamp_volume(DEFAULT_VOLUME, min_volume, max_volume),
            filters: FiltersView::none(),
        }
    }

    /// Whether a track is loaded and running.
    pub open spec fn playing(self) -> bool {
        self.track is Some && !self.is_paused
    }

    /// Where the track ends, as far as it is known: at the end that the play
    /// command asked for, or at the duration that the source reported,
    /// whichever comes first.
    pub open spec fn end_of_track(self) -> Option<u64> {
        match (self.end_ms, self.duration_ms) {
            (Some(end), Some(duration)) => Some(if end <= duration {
                end
            } else {
                duration
            }),
            (Some(end), None) => Some(end),
            (None, duration) => duration,
        }
    }

    /// `position_ms`, or the end of the track if that comes first.
    pub open spec fn clamp_position(self, position_ms: u64) -> u64 {
        match self.end_of_track() {
            Some(end) if position_ms > end => end,
            _ => position_ms,
        }
    }

    /// What the client is told of the player.
    pub open spec fn snapshot(self, guild_id: Seq<char>) -> PlayerStateView {
        PlayerStateView {
            guild_id,
            track: self.track,
            position_ms: self.position_ms,
            is_paused: self.is_paused,
            volume: self.volume,
            filters: self.filters,
        }
    }

    /// The player after a play command took effect. With `noReplace` set
    /// and a track playing, nothing changes. Otherwise the track is loaded at
    /// its start time, or at the end of the track if that comes first, paused
    /// if asked, at the volume asked for and else at the volume there was.
    pub open spec fn started(self, min_volume: i16, max_volume: i16, command: PlayView)
        -> PlaybackView {
        if command.no_replace == Some(true) && self.playing() {
            self
        } else {
            let loaded = PlaybackView {
                track: Some(command.track),
                position_ms: 0,
                end_ms: command.end_time,
                duration_ms: None,
                is_paused: command.pause == Some(true),
                volume: match command.volume {
                    Some(volume) => clamp_volume(volume, min_volume, max_volume),
                    None => self.volume,
                },
                filters: self.filters,
            };
            PlaybackView {
                position_ms: loaded.clamp_position(
                    match command.start_time {
                        Some(start) => start,
                        None => 0,
                    },
                ),
                ..loaded
            }
        }
    }

    /// The player once the track is unloaded.
    pub open spec fn stopped(self) -> PlaybackView {
        PlaybackView {
            track: None,
            position_ms: 0,
            end_ms: None,
            duration_ms: None,
            is_paused: false,
            ..self
        }
    }
}

/// The commands of `queue` take effect one after the other, oldest first.
/// The result is the player after the last one and one player update for each
/// command, in the order of the commands.
pub open spec fn replay(
    guild_id: Seq<char>,
    min_volume: i16,
    max_volume: i16,
    playback: PlaybackView,
    queue: Seq<PlayView>,
) -> (PlaybackView, Seq<ClientEventView>)
    decreases queue.len(),
{
    if queue.len() == 0 {
        (playback, Seq::empty())
    } else {
        let next = playback.started(min_volume, max_volume, queue[0]);
        let (last, updates) = replay(guild_id, min_volume, max_volume, next, queue.skip(1));
        (last, seq![ClientEventView::PlayerUpdate(next.snapshot(guild_id))] + updates)
    }
}

/// The credentials that a voice update carries.
pub open spec fn credentials_of(update: VoiceUpdateView) -> VoiceCredentialsView {
    VoiceCredentialsView {
        session_id: update.session_id,
        token: update.event.token,
        endpoint: update.event.endpoint,
    }
}

impl SessionView {
    /// The session of a guild before its first voice update: no link, nothing
    /// loaded, nothing queued.
    pub open spec fn fresh(guild_id: Seq<char>, config: SessionConfigView) -> SessionView {
        SessionView {
            guild_id,
            config,
            link: LinkView::fresh(
                config.link,
                guild_id,
                config.user_id,
                VoiceCredentialsView {
                    session_id: Seq::empty(),
                    token: Seq::empty(),
                    endpoint: None,
                },
            ),
            playback: PlaybackView::idle(config.min_volume, config.max_volume),
            queue: Seq::empty(),
            destroyed: false,
        }
    }

    /// What the client is told of the session's player.
    pub open spec fn snapshot(self) -> PlayerStateView {
        self.playback.snapshot(self.guild_id)
    }

    /// The session with another player, and the update that tells of it.
    pub open spec fn with_playback(self, playback: PlaybackView) -> (
        SessionView,
        Result<PlayerStateView, SessionError>,
    ) {
        (SessionView { playback, ..self }, Ok(playback.snapshot(self.guild_id)))
    }

    /// Whether new credentials need a new connection: there is none, or
    /// they name another endpoint or another voice session. Otherwise only the
    /// secret can have changed.
    pub open spec fn needs_rebuild(self, credentials: VoiceCredentialsView) -> bool {
        self.link.state == LinkState::Disconnected || credentials.endpoint
            != self.link.credentials.endpoint || credentials.session_id
            != self.link.credentials.session_id
    }

    /// A voice update. Without a link, one is made and the handshake
    /// begins as soon as the update names an endpoint. With a link to another
    /// endpoint or for another voice session, that link is torn down and a new
    /// one made. With the same endpoint and voice session, the link stays and
    /// takes the new secret, which it will use to resume.
    pub open spec fn apply_voice_update(self, update: VoiceUpdateView) -> (
        SessionView,
        Seq<LinkCommandView>,
    ) {
        let credentials = credentials_of(update);
        if self.needs_rebuild(credentials) {
            let (link, reply) = self.link.rebuild(credentials);
            (SessionView { link, ..self }, reply.commands)
        } else {
            (SessionView { link: self.link.refresh(credentials.token), ..self }, Seq::empty())
        }
    }

    /// A play command. On a connected link it takes effect at once. On any
    /// other it fails with `NotConnected` and waits in the queue.
    pub open spec fn play(self, command: PlayView) -> (SessionView, PlayReplyView) {
        if self.link.state == LinkState::Connected {
            let playback = self.playback.started(
                self.config.min_volume,
                self.config.max_volume,
                command,
            );
            (
                SessionView { playback, ..self },
                PlayReplyView { result: Ok(playback.snapshot(self.guild_id)), superseded: None },
            )
        } else {
            let (queue, superseded) = enqueue(self.queue, self.config.queue_depth, command);
            (
                SessionView { queue, ..self },
                PlayReplyView { result: Err(SessionError::NotConnected), superseded },
            )
        }
    }

    /// A stop unloads the track; without one it fails with `NoActiveTrack`.
    pub open spec fn stop(self) -> (SessionView, Result<PlayerStateView, SessionError>) {
        if self.playback.track is None {
            (self, Err(SessionError::NoActiveTrack))
        } else {
            self.with_playback(self.playback.stopped())
        }
    }

    /// A pause sets the flag; without a track it fails with `NoActiveTrack`.
    pub open spec fn pause(self, flag: bool) -> (
        SessionView,
        Result<PlayerStateView, SessionError>,
    ) {
        if self.playback.track is None {
            (self, Err(SessionError::NoActiveTrack))
        } else {
            self.with_playback(PlaybackView { is_paused: flag, ..self.playback })
        }
    }

    /// A seek moves to `position_ms`, or to the end of the track if that
    /// comes first.
    pub open spec fn seek(self, position_ms: u64) -> (
        SessionView,
        Result<PlayerStateView, SessionError>,
    ) {
        if self.playback.track is None {
            (self, Err(SessionError::NoActiveTrack))
        } else {
            self.with_playback(
                PlaybackView {
                    position_ms: self.playback.clamp_position(position_ms),
                    ..self.playback
                },
            )
        }
    }

    /// The source reports how long the loaded track is. A position beyond
    /// the end moves to the end.
    pub open spec fn note_duration(self, duration_ms: u64) -> (
        SessionView,
        Result<PlayerStateView, SessionError>,
    ) {
        if self.playback.track is None {
            (self, Err(SessionError::NoActiveTrack))
        } else {
            let known = PlaybackView { duration_ms: Some(duration_ms), ..self.playback };
            self.with_playback(
                PlaybackView { position_ms: known.clamp_position(known.position_ms), ..known },
            )
        }
    }

    /// The volume is set within the configured range. Without a link the
    /// command fails with `NotConnected`.
    pub open spec fn set_volume(self, volume: i16) -> (
        SessionView,
        Result<PlayerStateView, SessionError>,
    ) {
        if self.link.state == LinkState::Disconnected {
            (self, Err(SessionError::NotConnected))
        } else {
            self.with_playback(
                PlaybackView {
                    volume: clamp_volume(volume, self.config.min_volume, self.config.max_volume),
                    ..self.playback
                },
            )
        }
    }

    /// The filters that `update` names are set, the others stay. Without a
    /// link the command fails with `NotConnected`.
    pub open spec fn set_filters(self, update: FiltersView) -> (
        SessionView,
        Result<PlayerStateView, SessionError>,
    ) {
        if self.link.state == LinkState::Disconnected {
            (self, Err(SessionError::NotConnected))
        } else {
            self.with_playback(
                PlaybackView { filters: self.playback.filters.overlaid(update), ..self.playback },
            )
        }
    }

    /// The end of the session: the link is closed, whatever its state, the
    /// queue is dropped, and the session is marked for the registry to drop.
    pub open spec fn destroy(self) -> (SessionView, Seq<LinkCommandView>) {
        let (link, reply) = self.link.close();
        (SessionView { link, queue: Seq::empty(), destroyed: true, ..self }, reply.commands)
    }

    /// An event of the gateway connection. The link takes it. A link that
    /// gives up ends the session, and the client is told why. A link that
    /// becomes connected lets the queued play commands take effect, oldest
    /// first. Nothing else touches the player.
    pub open spec fn gateway(self, event: LinkEventView, now_ms: u64) -> (
        SessionView,
        SessionOutputView,
    ) {
        let (link, reply) = self.link.step(event, now_ms);
        match reply.failure {
            Some(cause) => (
                SessionView { link, queue: Seq::empty(), destroyed: true, ..self },
                SessionOutputView {
                    events: seq![error_event(self.guild_id, error_of(cause))],
                    commands: reply.commands,
                },
            ),
            None => if link.state == LinkState::Connected && self.link.state
                != LinkState::Connected {
                let (playback, updates) = replay(
                    self.guild_id,
                    self.config.min_volume,
                    self.config.max_volume,
                    self.playback,
                    self.queue,
                );
                (
                    SessionView { link, playback, queue: Seq::empty(), ..self },
                    SessionOutputView { events: updates, commands: reply.commands },
                )
            } else {
                (
                    SessionView { link, ..self },
                    SessionOutputView { events: Seq::empty(), commands: reply.commands },
                )
            },
        }
    }

    /// The outcome of a command that either changed the player or failed,
    /// with the event that tells the client of it.
    pub open spec fn answered(
        self,
        outcome: (SessionView, Result<PlayerStateView, SessionError>),
    ) -> (SessionView, SessionOutputView) {
        (
            outcome.0,
            SessionOutputView { events: answer(self.guild_id, outcome.1), commands: Seq::empty() },
        )
    }

    /// Any command of the client. A voice update and a destroy answer with
    /// commands for the gateway connection, every other command with events
    /// for the client.
    pub open spec fn apply(self, op: OpcodeView) -> (SessionView, SessionOutputView) {
        match op {
            OpcodeView::VoiceUpdate(update) => {
                let (session, commands) = self.apply_voice_update(update);
                (session, SessionOutputView { events: Seq::empty(), commands })
            },
            OpcodeView::Play(command) => {
                let (session, reply) = self.play(command);
                (
                    session,
                    SessionOutputView {
                        events: play_answer(self.guild_id, reply),
                        commands: Seq::empty(),
                    },
                )
            },
            OpcodeView::Stop(_) => self.answered(self.stop()),
            OpcodeView::Pause(command) => self.answered(self.pause(command.pause)),
            OpcodeView::Seek(command) => self.answered(self.seek(command.position)),
            OpcodeView::Volume(command) => self.answered(self.set_volume(command.volume)),
            OpcodeView::Filters(update) => self.answered(self.set_filters(update)),
            OpcodeView::Destroy(_) => {
                let (session, commands) = self.destroy();
                (session, SessionOutputView { events: Seq::empty(), commands })
            },
        }
    }

    /// What holds of every session that was made by [`SessionView::fresh`]
    /// and moved by the functions above.
    pub open spec fn wf(self) -> bool {
        &&& self.link.wf()
        &&& self.link.server_id == self.guild_id
        &&& self.link.user_id == self.config.user_id
        &&& self.link.config == self.config.link
        &&& self.queue.len() <= self.config.queue_depth
        &&& self.link.state == LinkState::Connected ==> self.queue.len() == 0
        &&& self.playback.track is None ==> self.playback == self.playback.stopped()
        &&& self.playback.position_ms == self.playback.clamp_position(self.playback.position_ms)
    }
}

} // verus!
