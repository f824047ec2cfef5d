//! What holds of every session and of every registry, whatever they are fed.

use super::model::{
    enqueue, replay, PlaybackView, SessionError, SessionView,
};
use super::payloads::{ClientPayloadView, FiltersView, OpcodeView, PlayView, VoiceUpdateView};
use super::registry::{
    command_in, distinct, event_in, first_index, lemma_first_index, settled, ClientView,
};
use crate::discord::laws::{lemma_control_preserves_wf, lemma_step_preserves_wf};
use crate::discord::model::{LinkCommandView, LinkEventView, LinkState};
use crate::discord::payloads::PayloadView;
use crate::json::JsonView;
use vstd::prelude::*;

verus! {

/// No input changes the guild of a session.
pub proof fn lemma_session_keeps_guild(
    session: SessionView,
    op: OpcodeView,
    event: LinkEventView,
    now_ms: u64,
)
    ensures
        session.apply(op).0.guild_id == session.guild_id,
        session.gateway(event, now_ms).0.guild_id == session.guild_id,
{
}

/// A new session is well formed, as long as its queue may hold a command.
pub proof fn lemma_fresh_session_is_wf(
    guild_id: Seq<char>,
    config: super::model::SessionConfigView,
)
    ensures
        SessionView::fresh(guild_id, config).wf(),
{
}

/// The commands of a queue take effect without touching anything but the
/// player, and each yields one update.
pub proof fn lemma_replay_yields_one_update_each(
    guild_id: Seq<char>,
    min_volume: i16,
    max_volume: i16,
    playback: PlaybackView,
    queue: Seq<PlayView>,
)
    requires
        playback.track is None ==> playback == playback.stopped(),
        playback.position_ms == playback.clamp_position(playback.position_ms),
    ensures
        replay(guild_id, min_volume, max_volume, playback, queue).1.len() == queue.len(),
        ({
            let last = replay(guild_id, min_volume, max_volume, playback, queue).0;
            &&& last.track is None ==> last == last.stopped()
            &&& last.position_ms == last.clamp_position(last.position_ms)
            &&& last.filters == playback.filters
        }),
    decreases queue.len(),
{
    if queue.len() > 0 {
        let next = playback.started(min_volume, max_volume, queue[0]);
        lemma_replay_yields_one_update_each(guild_id, min_volume, max_volume, next, queue.skip(1));
    }
}

/// No command takes a well-formed session to one that is not.
pub proof fn lemma_apply_preserves_wf(session: SessionView, op: OpcodeView)
    requires
        session.wf(),
    ensures
        session.apply(op).0.wf(),
{
    match op {
        OpcodeView::VoiceUpdate(update) => {
            let credentials = super::model::credentials_of(update);
            lemma_control_preserves_wf(session.link, credentials, credentials.token);
        },
        OpcodeView::Destroy(_) => {
            lemma_control_preserves_wf(
                session.link,
                session.link.credentials,
                session.link.credentials.token,
            );
        },
        _ => {},
    }
}

/// Learning the duration of the track keeps a session well formed.
pub proof fn lemma_note_duration_preserves_wf(session: SessionView, duration_ms: u64)
    requires
        session.wf(),
    ensures
        session.note_duration(duration_ms).0.wf(),
{
}

/// No event of the gateway takes a well-formed session to one that is not.
pub proof fn lemma_gateway_preserves_wf(session: SessionView, event: LinkEventView, now_ms: u64)
    requires
        session.wf(),
    ensures
        session.gateway(event, now_ms).0.wf(),
{
    lemma_step_preserves_wf(session.link, event, now_ms);
    lemma_replay_yields_one_update_each(
        session.guild_id,
        session.config.min_volume,
        session.config.max_volume,
        session.playback,
        session.queue,
    );
}

/// The queue with `commands` added one after the other.
pub open spec fn enqueue_all(queue: Seq<PlayView>, depth: usize, commands: Seq<PlayView>) -> Seq<
    PlayView,
>
    decreases commands.len(),
{
    if commands.len() == 0 {
        queue
    } else {
        enqueue(enqueue_all(queue, depth, commands.drop_last()), depth, commands.last()).0
    }
}

/// The last `depth` items of `items`, or all of them if there are fewer.
pub open spec fn latest(items: Seq<PlayView>, depth: usize) -> Seq<PlayView> {
    if items.len() <= depth {
        items
    } else {
        items.skip(items.len() - depth)
    }
}

/// A queue keeps the commands it was given in their order, and if there were
/// more than it can hold, it keeps the latest. The commands that it lost are
/// the oldest.
pub proof fn lemma_queue_keeps_latest(queue: Seq<PlayView>, depth: usize, commands: Seq<PlayView>)
    requires
        queue.len() <= depth,
    ensures
        enqueue_all(queue, depth, commands) == latest(queue + commands, depth),
    decreases commands.len(),
{
    if commands.len() == 0 {
        assert(queue + commands =~= queue);
    } else {
        let front = commands.drop_last();
        let command = commands.last();
        lemma_queue_keeps_latest(queue, depth, front);
        let held = latest(queue + front, depth);
        assert((queue + front).push(command) =~= queue + commands);
        assert(enqueue(held, depth, command).0 =~= latest(queue + commands, depth));
    }
}

/// Each command that a full queue takes pushes out the oldest one it holds,
/// and that one is reported.
pub proof fn lemma_full_queue_supersedes_oldest(
    queue: Seq<PlayView>,
    depth: usize,
    command: PlayView,
)
    requires
        0 < queue.len() == depth,
    ensures
        enqueue(queue, depth, command).1 == Some(queue[0]),
        enqueue(queue, depth, command).0.len() == depth,
        enqueue(queue, depth, command).0.last() == command,
        forall|i: int|
            0 <= i < depth - 1 ==> enqueue(queue, depth, command).0[i] == queue[i + 1],
{
}

/// A play command before the link is connected fails with `NotConnected`,
/// waits in the queue, and leaves the player and the link as they are.
pub proof fn lemma_play_before_connected_is_queued(session: SessionView, command: PlayView)
    requires
        session.link.state != LinkState::Connected,
    ensures
        session.play(command).1.result == Err::<super::model::PlayerStateView, SessionError>(
            SessionError::NotConnected,
        ),
        session.play(command).0.queue == enqueue(
            session.queue,
            session.config.queue_depth,
            command,
        ).0,
        session.play(command).1.superseded == enqueue(
            session.queue,
            session.config.queue_depth,
            command,
        ).1,
        session.play(command).0.playback == session.playback,
        session.play(command).0.link == session.link,
{
}

/// The session after a sequence of play commands.
pub open spec fn after_plays(session: SessionView, commands: Seq<PlayView>) -> SessionView
    decreases commands.len(),
{
    if commands.len() == 0 {
        session
    } else {
        after_plays(session, commands.drop_last()).play(commands.last()).0
    }
}

/// Play commands that are given before the link is connected all wait in
/// the queue, in the order in which they were given; if they are more than the
/// queue can hold, the latest ones wait. Neither the link nor the player has
/// changed.
pub proof fn lemma_plays_before_connected_wait_in_order(
    session: SessionView,
    commands: Seq<PlayView>,
)
    requires
        session.link.state != LinkState::Connected,
        session.queue.len() <= session.config.queue_depth,
    ensures
        after_plays(session, commands) == (SessionView {
            queue: latest(session.queue + commands, session.config.queue_depth),
            ..session
        }),
    decreases commands.len(),
{
    if commands.len() == 0 {
        assert(session.queue + commands =~= session.queue);
    } else {
        let front = commands.drop_last();
        lemma_plays_before_connected_wait_in_order(session, front);
        lemma_queue_keeps_latest(session.queue, session.config.queue_depth, front);
        lemma_queue_keeps_latest(session.queue, session.config.queue_depth, commands);
    }
}

/// Queued commands take effect in their order: letting a queue take effect
/// is letting its first part take effect and then the rest, and the updates
/// come in the same order.
pub proof fn lemma_replay_is_in_order(
    guild_id: Seq<char>,
    min_volume: i16,
    max_volume: i16,
    playback: PlaybackView,
    first: Seq<PlayView>,
    rest: Seq<PlayView>,
)
    ensures
        replay(guild_id, min_volume, max_volume, playback, first + rest).0 == replay(
            guild_id,
            min_volume,
            max_volume,
            replay(guild_id, min_volume, max_volume, playback, first).0,
            rest,
        ).0,
        replay(guild_id, min_volume, max_volume, playback, first + rest).1 == replay(
            guild_id,
            min_volume,
            max_volume,
            playback,
            first,
        ).1 + replay(
            guild_id,
            min_volume,
            max_volume,
            replay(guild_id, min_volume, max_volume, playback, first).0,
            rest,
        ).1,
    decreases first.len(),
{
    if first.len() == 0 {
        assert(first + rest =~= rest);
        assert(Seq::<super::model::ClientEventView>::empty() + replay(
            guild_id,
            min_volume,
            max_volume,
            playback,
            rest,
        ).1 =~= replay(guild_id, min_volume, max_volume, playback, rest).1);
    } else {
        let next = playback.started(min_volume, max_volume, first[0]);
        lemma_replay_is_in_order(guild_id, min_volume, max_volume, next, first.skip(1), rest);
        assert((first + rest)[0] == first[0]);
        assert((first + rest).skip(1) =~= first.skip(1) + rest);
        let head = seq![super::model::ClientEventView::PlayerUpdate(next.snapshot(guild_id))];
        let middle = replay(guild_id, min_volume, max_volume, next, first.skip(1)).1;
        let tail = replay(
            guild_id,
            min_volume,
            max_volume,
            replay(guild_id, min_volume, max_volume, next, first.skip(1)).0,
            rest,
        ).1;
        assert(head + (middle + tail) =~= (head + middle) + tail);
    }
}

/// When the link becomes connected, the queued commands take effect in their
/// order and the queue is empty afterwards.
pub proof fn lemma_connecting_runs_the_queue(
    session: SessionView,
    event: LinkEventView,
    now_ms: u64,
)
    requires
        session.link.state != LinkState::Connected,
        session.link.step(event, now_ms).0.state == LinkState::Connected,
        session.link.step(event, now_ms).1.failure is None,
    ensures
        session.gateway(event, now_ms).0.queue == Seq::<PlayView>::empty(),
        session.gateway(event, now_ms).0.playback == replay(
            session.guild_id,
            session.config.min_volume,
            session.config.max_volume,
            session.playback,
            session.queue,
        ).0,
        session.gateway(event, now_ms).1.events == replay(
            session.guild_id,
            session.config.min_volume,
            session.config.max_volume,
            session.playback,
            session.queue,
        ).1,
{
}

/// With `noReplace` set and a track playing, a play command changes nothing
/// and still succeeds, with the player as it is.
pub proof fn lemma_no_replace_keeps_playing_track(session: SessionView, command: PlayView)
    requires
        session.link.state == LinkState::Connected,
        session.playback.playing(),
        command.no_replace == Some(true),
    ensures
        session.play(command).0 == session,
        session.play(command).1.result == Ok::<super::model::PlayerStateView, SessionError>(
            session.snapshot(),
        ),
        session.play(command).1.superseded is None,
{
}

/// A seek beyond the end of the track goes to the end, any other seek goes
/// where it was asked to go, and without a track a seek fails with
/// `NoActiveTrack` and changes nothing.
pub proof fn lemma_seek_clamps_to_end(session: SessionView, position_ms: u64)
    ensures
        session.playback.track is None ==> session.seek(position_ms) == (
            session,
            Err::<super::model::PlayerStateView, SessionError>(SessionError::NoActiveTrack),
        ),
        session.playback.track is Some ==> {
            &&& session.seek(position_ms).1 is Ok
            &&& session.seek(position_ms).0.playback.position_ms == match session.playback.end_of_track() {
                Some(end) => if position_ms > end {
                    end
                } else {
                    position_ms
                },
                None => position_ms,
            }
            &&& session.seek(position_ms).0.playback.track == session.playback.track
        },
{
}

/// No event of the gateway touches the player of a session whose queue is
/// empty. In particular the player is the same after the link went from
/// `Connected` to `Resuming` and after Resumed brought it back.
pub proof fn lemma_gateway_keeps_player(session: SessionView, event: LinkEventView, now_ms: u64)
    requires
        session.queue.len() == 0,
    ensures
        session.gateway(event, now_ms).0.playback == session.playback,
{
}

/// Two missed acknowledgements in a row take the session's link from
/// `Connected` to `Resuming`, and Resumed takes it back to `Connected`; the
/// session lives on and its player is the same throughout.
///
/// Three heartbeats fall due at `t0`, `t1` and `t2` without an
/// acknowledgement in between, and Resumed arrives at `t3`. No play command
/// waits in the queue; one that was given while the link was resuming would
/// take effect on Resumed.
pub proof fn lemma_missed_acks_resume_and_restore(
    session: SessionView,
    t0: u64,
    t1: u64,
    t2: u64,
    t3: u64,
)
    requires
        session.wf(),
        !session.destroyed,
        session.link.state == LinkState::Connected,
        session.link.heartbeat->0.awaiting is None,
        session.link.heartbeat->0.due(t0),
        session.link.on_tick(t0).0.heartbeat->0.due(t1),
        session.link.on_tick(t0).0.on_tick(t1).0.heartbeat->0.due(t2),
    ensures
        ({
            let first = session.gateway(LinkEventView::Tick, t0).0;
            let second = first.gateway(LinkEventView::Tick, t1).0;
            let third = second.gateway(LinkEventView::Tick, t2).0;
            let fourth = third.gateway(LinkEventView::Message(PayloadView::Resumed), t3).0;
            &&& first.link.state == LinkState::Connected
            &&& second.link.state == LinkState::Connected
            &&& third.link.state == LinkState::Resuming
            &&& third.playback == session.playback
            &&& !third.destroyed
            &&& fourth.link.state == LinkState::Connected
            &&& fourth.playback == session.playback
            &&& !fourth.destroyed
        }),
{
    crate::discord::laws::lemma_two_missed_acks_enter_resuming(session.link, t0, t1, t2);
    let first = session.gateway(LinkEventView::Tick, t0).0;
    let second = first.gateway(LinkEventView::Tick, t1).0;
    let third = second.gateway(LinkEventView::Tick, t2).0;
    assert(first.link == session.link.on_tick(t0).0);
    assert(second.link == first.link.on_tick(t1).0);
    assert(third.link == second.link.on_tick(t2).0);
    lemma_gateway_preserves_wf(session, LinkEventView::Tick, t0);
    lemma_gateway_preserves_wf(first, LinkEventView::Tick, t1);
    lemma_gateway_preserves_wf(second, LinkEventView::Tick, t2);
    crate::discord::laws::lemma_resumed_restores_connected(third.link, t3);
}

/// A filter command changes the filters it names and no other, and nothing
/// else of the player.
pub proof fn lemma_filters_are_updated_one_by_one(session: SessionView, update: FiltersView)
    requires
        session.link.state != LinkState::Disconnected,
    ensures
        session.set_filters(update).1 is Ok,
        session.set_filters(update).0.playback.filters == session.playback.filters.overlaid(
            update,
        ),
        session.set_filters(update).0.playback == (PlaybackView {
            filters: session.playback.filters.overlaid(update),
            ..session.playback
        }),
        update.equalizer is None ==> session.set_filters(update).0.playback.filters.equalizer
            == session.playback.filters.equalizer,
        update.volume is Some ==> session.set_filters(update).0.playback.filters.volume
            == update.volume,
{
}

/// A voice update that names another endpoint for a guild whose link is up
/// closes the connection and starts the handshake again from `Connecting`, at
/// the new endpoint. The player and the queue stay.
pub proof fn lemma_new_endpoint_rebuilds_link(session: SessionView, update: VoiceUpdateView)
    requires
        session.link.state != LinkState::Disconnected,
        update.event.endpoint is Some,
        update.event.endpoint != session.link.credentials.endpoint,
    ensures
        session.apply_voice_update(update).0.link.state == LinkState::Connecting,
        session.apply_voice_update(update).0.link.credentials == super::model::credentials_of(
            update,
        ),
        session.apply_voice_update(update).1 == seq![
            LinkCommandView::Close,
            LinkCommandView::Open(update.event.endpoint->0),
        ],
        session.apply_voice_update(update).0.playback == session.playback,
        session.apply_voice_update(update).0.queue == session.queue,
{
    let first = session.link.close().1.commands;
    let second = seq![LinkCommandView::Open(update.event.endpoint->0)];
    assert(first + second =~= seq![
        LinkCommandView::Close,
        LinkCommandView::Open(update.event.endpoint->0),
    ]);
}

/// A voice update that changes only the secret leaves the link in its state
/// and asks for nothing.
pub proof fn lemma_new_token_refreshes_link(session: SessionView, update: VoiceUpdateView)
    requires
        session.link.state != LinkState::Disconnected,
        update.event.endpoint == session.link.credentials.endpoint,
        update.session_id == session.link.credentials.session_id,
    ensures
        session.apply_voice_update(update).0.link == session.link.refresh(update.event.token),
        session.apply_voice_update(update).0.link.state == session.link.state,
        session.apply_voice_update(update).1 == Seq::<LinkCommandView>::empty(),
{
}

/// Destroying a session twice is the same as destroying it once, and the
/// second time asks for nothing.
pub proof fn lemma_destroy_is_idempotent(session: SessionView)
    ensures
        session.destroy().0.destroyed,
        session.destroy().0.link.state == LinkState::Disconnected,
        session.destroy().0.destroy().0 == session.destroy().0,
        session.destroy().0.destroy().1 == Seq::<LinkCommandView>::empty(),
{
    assert(session.destroy().0.destroy().0.queue =~= session.destroy().0.queue);
}

/// The number of sessions of `guild_id`.
pub open spec fn sessions_of(sessions: Seq<SessionView>, guild_id: Seq<char>) -> nat
    decreases sessions.len(),
{
    if sessions.len() == 0 {
        0
    } else {
        sessions_of(sessions.drop_last(), guild_id) + if sessions.last().guild_id == guild_id {
            1nat
        } else {
            0nat
        }
    }
}

proof fn lemma_absent_guild_counts_zero(sessions: Seq<SessionView>, guild_id: Seq<char>)
    requires
        forall|j: int| 0 <= j < sessions.len() ==> (#[trigger] sessions[j]).guild_id != guild_id,
    ensures
        sessions_of(sessions, guild_id) == 0,
    decreases sessions.len(),
{
    if sessions.len() > 0 {
        let front = sessions.drop_last();
        assert forall|j: int| 0 <= j < front.len() implies (#[trigger] front[j]).guild_id
            != guild_id by {
            assert(front[j] == sessions[j]);
        }
        lemma_absent_guild_counts_zero(front, guild_id);
    }
}

/// Among sessions of which no two belong to the same guild, a guild has at
/// most one.
pub proof fn lemma_distinct_means_at_most_one(sessions: Seq<SessionView>, guild_id: Seq<char>)
    requires
        distinct(sessions),
    ensures
        sessions_of(sessions, guild_id) <= 1,
    decreases sessions.len(),
{
    if sessions.len() > 0 {
        let front = sessions.drop_last();
        assert forall|i: int, j: int| 0 <= i < j < front.len() implies (
        #[trigger] front[i]).guild_id != (#[trigger] front[j]).guild_id by {
            assert(front[i] == sessions[i]);
            assert(front[j] == sessions[j]);
        }
        if sessions.last().guild_id == guild_id {
            assert forall|j: int| 0 <= j < front.len() implies (#[trigger] front[j]).guild_id
                != guild_id by {
                assert(front[j] == sessions[j]);
                assert(sessions[sessions.len() - 1] == sessions.last());
            }
            lemma_absent_guild_counts_zero(front, guild_id);
        } else {
            lemma_distinct_means_at_most_one(front, guild_id);
        }
    }
}

/// Replacing or dropping one session keeps the guilds distinct, as long as
/// a replacement belongs to the same guild.
pub proof fn lemma_settled_keeps_distinct(sessions: Seq<SessionView>, i: int, session: SessionView)
    requires
        distinct(sessions),
        0 <= i < sessions.len(),
        session.guild_id == sessions[i].guild_id,
    ensures
        distinct(settled(sessions, i, session)),
{
    let after = settled(sessions, i, session);
    if session.destroyed {
        assert forall|a: int, b: int| 0 <= a < b < after.len() implies (
        #[trigger] after[a]).guild_id != (#[trigger] after[b]).guild_id by {
            let a0 = if a < i {
                a
            } else {
                a + 1
            };
            let b0 = if b < i {
                b
            } else {
                b + 1
            };
            assert(after[a] == sessions[a0]);
            assert(after[b] == sessions[b0]);
        }
    } else {
        assert forall|a: int, b: int| 0 <= a < b < after.len() implies (
        #[trigger] after[a]).guild_id != (#[trigger] after[b]).guild_id by {
            assert(after[a].guild_id == sessions[a].guild_id);
            assert(after[b].guild_id == sessions[b].guild_id);
        }
    }
}

/// No command makes a second session for a guild.
pub proof fn lemma_dispatch_keeps_distinct(client: ClientView, payload: ClientPayloadView)
    requires
        distinct(client.sessions),
    ensures
        distinct(client.dispatch(payload).0.sessions),
{
    lemma_first_index(client.sessions, payload.guild_id);
    match first_index(client.sessions, payload.guild_id) {
        Some(i) => {
            lemma_settled_keeps_distinct(
                client.sessions,
                i,
                client.sessions[i].apply(payload.op).0,
            );
        },
        None => {
            if payload.op is VoiceUpdate {
                let after = client.dispatch(payload).0.sessions;
                assert forall|a: int, b: int| 0 <= a < b < after.len() implies (
                #[trigger] after[a]).guild_id != (#[trigger] after[b]).guild_id by {
                    assert(after[a] == client.sessions[a]);
                    if b < client.sessions.len() {
                        assert(after[b] == client.sessions[b]);
                    }
                }
            }
        },
    }
}

/// No event of a gateway connection makes a second session for a guild.
pub proof fn lemma_gateway_keeps_distinct(
    client: ClientView,
    guild_id: Seq<char>,
    event: LinkEventView,
    now_ms: u64,
)
    requires
        distinct(client.sessions),
    ensures
        distinct(client.gateway(guild_id, event, now_ms).0.sessions),
{
    lemma_first_index(client.sessions, guild_id);
    match first_index(client.sessions, guild_id) {
        Some(i) => {
            lemma_settled_keeps_distinct(
                client.sessions,
                i,
                client.sessions[i].gateway(event, now_ms).0,
            );
        },
        None => {},
    }
}

/// Replacing or dropping one session keeps a registry well formed, as long
/// as a replacement is well formed and belongs to the same guild.
proof fn lemma_settled_keeps_wf(client: ClientView, i: int, session: SessionView)
    requires
        client.wf(),
        0 <= i < client.sessions.len(),
        session.guild_id == client.sessions[i].guild_id,
        session.wf(),
    ensures
        (ClientView { sessions: settled(client.sessions, i, session), ..client }).wf(),
{
    lemma_settled_keeps_distinct(client.sessions, i, session);
    let after = settled(client.sessions, i, session);
    assert forall|a: int| 0 <= a < after.len() implies (#[trigger] after[a]).wf()
        && !after[a].destroyed by {
        if session.destroyed {
            let a0 = if a < i {
                a
            } else {
                a + 1
            };
            assert(after[a] == client.sessions[a0]);
        } else if a != i {
            assert(after[a] == client.sessions[a]);
        }
    }
}

/// No command takes a well-formed client to one that is not.
pub proof fn lemma_dispatch_preserves_wf(client: ClientView, payload: ClientPayloadView)
    requires
        client.wf(),
    ensures
        client.dispatch(payload).0.wf(),
{
    lemma_first_index(client.sessions, payload.guild_id);
    lemma_dispatch_keeps_distinct(client, payload);
    match first_index(client.sessions, payload.guild_id) {
        Some(i) => {
            lemma_apply_preserves_wf(client.sessions[i], payload.op);
            lemma_settled_keeps_wf(client, i, client.sessions[i].apply(payload.op).0);
        },
        None => {
            if payload.op is VoiceUpdate {
                let made = SessionView::fresh(payload.guild_id, client.config);
                lemma_fresh_session_is_wf(payload.guild_id, client.config);
                lemma_apply_preserves_wf(made, payload.op);
                let after = client.dispatch(payload).0.sessions;
                assert forall|a: int| 0 <= a < after.len() implies (#[trigger] after[a]).wf()
                    && !after[a].destroyed by {
                    if a < client.sessions.len() {
                        assert(after[a] == client.sessions[a]);
                    }
                }
            }
        },
    }
}

/// No event of a gateway connection takes a well-formed client to one that
/// is not.
pub proof fn lemma_gateway_preserves_client_wf(
    client: ClientView,
    guild_id: Seq<char>,
    event: LinkEventView,
    now_ms: u64,
)
    requires
        client.wf(),
    ensures
        client.gateway(guild_id, event, now_ms).0.wf(),
{
    lemma_first_index(client.sessions, guild_id);
    match first_index(client.sessions, guild_id) {
        Some(i) => {
            lemma_gateway_preserves_wf(client.sessions[i], event, now_ms);
            lemma_settled_keeps_wf(client, i, client.sessions[i].gateway(event, now_ms).0);
        },
        None => {},
    }
}

/// The client after a sequence of commands.
pub open spec fn after_all(client: ClientView, payloads: Seq<ClientPayloadView>) -> ClientView
    decreases payloads.len(),
{
    if payloads.len() == 0 {
        client
    } else {
        after_all(client, payloads.drop_last()).dispatch(payloads.last()).0
    }
}

/// Whatever commands a client sends, voice updates for one guild among them
/// or not, its registry never holds more than one session for a guild.
pub proof fn lemma_one_session_per_guild(
    client: ClientView,
    payloads: Seq<ClientPayloadView>,
    guild_id: Seq<char>,
)
    requires
        distinct(client.sessions),
    ensures
        distinct(after_all(client, payloads).sessions),
        sessions_of(after_all(client, payloads).sessions, guild_id) <= 1,
    decreases payloads.len(),
{
    if payloads.len() > 0 {
        lemma_one_session_per_guild(client, payloads.drop_last(), guild_id);
        lemma_dispatch_keeps_distinct(after_all(client, payloads.drop_last()), payloads.last());
    }
    lemma_distinct_means_at_most_one(after_all(client, payloads).sessions, guild_id);
}

/// A voice update makes the session of its guild if there is none, and never
/// fails: afterwards the guild has exactly one session, and no error is sent.
pub proof fn lemma_voice_update_always_succeeds(client: ClientView, payload: ClientPayloadView)
    requires
        client.wf(),
        payload.op is VoiceUpdate,
    ensures
        sessions_of(client.dispatch(payload).0.sessions, payload.guild_id) == 1,
        client.dispatch(payload).1.events == Seq::<super::model::ClientEventView>::empty(),
        first_index(client.sessions, payload.guild_id) is Some ==> client.dispatch(
            payload,
        ).0.sessions.len() == client.sessions.len(),
        first_index(client.sessions, payload.guild_id) is None ==> client.dispatch(
            payload,
        ).0.sessions.len() == client.sessions.len() + 1,
{
    lemma_first_index(client.sessions, payload.guild_id);
    lemma_dispatch_keeps_distinct(client, payload);
    let after = client.dispatch(payload).0.sessions;
    lemma_distinct_means_at_most_one(after, payload.guild_id);
    let i = match first_index(client.sessions, payload.guild_id) {
        Some(i) => i,
        None => client.sessions.len() as int,
    };
    assert(after[i].guild_id == payload.guild_id);
    lemma_present_guild_counts(after, payload.guild_id, i);
}

proof fn lemma_present_guild_counts(sessions: Seq<SessionView>, guild_id: Seq<char>, i: int)
    requires
        0 <= i < sessions.len(),
        sessions[i].guild_id == guild_id,
    ensures
        sessions_of(sessions, guild_id) >= 1,
    decreases sessions.len(),
{
    if i < sessions.len() - 1 {
        let front = sessions.drop_last();
        assert(front[i] == sessions[i]);
        lemma_present_guild_counts(front, guild_id, i);
    }
}

/// A command other than a voice update for a guild without a session fails
/// with `NoSessionForGuild` and changes nothing.
pub proof fn lemma_no_session_for_guild(client: ClientView, payload: ClientPayloadView)
    requires
        first_index(client.sessions, payload.guild_id) is None,
        !(payload.op is VoiceUpdate),
    ensures
        client.dispatch(payload).0 == client,
        client.dispatch(payload).1.events == seq![
            super::model::error_event(payload.guild_id, SessionError::NoSessionForGuild),
        ],
        client.dispatch(payload).1.commands == Seq::<super::registry::GuildCommandView>::empty(),
{
}

/// Anything that can reach a client.
pub enum ClientInputView {
    /// A frame of the client.
    Frame(Option<JsonView>),
    /// A command of the client.
    Command(ClientPayloadView),
    /// An event on the gateway connection of a guild, with the time.
    Gateway(Seq<char>, LinkEventView, u64),
    /// A frame on the gateway connection of a guild, with the time.
    GatewayFrame(Seq<char>, Option<JsonView>, u64),
    /// Time has passed.
    Tick(u64),
    /// The client has gone.
    Disconnect,
}

/// The client after one input.
pub open spec fn advanced(client: ClientView, input: ClientInputView) -> ClientView {
    match input {
        ClientInputView::Frame(frame) => client.receive(frame).0,
        ClientInputView::Command(payload) => client.dispatch(payload).0,
        ClientInputView::Gateway(guild_id, event, now_ms) => client.gateway(
            guild_id,
            event,
            now_ms,
        ).0,
        ClientInputView::GatewayFrame(guild_id, frame, now_ms) => client.gateway_frame(
            guild_id,
            frame,
            now_ms,
        ).0,
        ClientInputView::Tick(now_ms) => client.tick(now_ms).0,
        ClientInputView::Disconnect => client.disconnect().0,
    }
}

/// Telling sessions the time keeps a client well formed.
proof fn lemma_ticks_preserve_wf(client: ClientView, guilds: Seq<Seq<char>>, now_ms: u64)
    requires
        client.wf(),
    ensures
        super::registry::ticked_through(client, guilds, now_ms).0.wf(),
    decreases guilds.len(),
{
    if guilds.len() > 0 {
        lemma_ticks_preserve_wf(client, guilds.drop_last(), now_ms);
        lemma_gateway_preserves_client_wf(
            super::registry::ticked_through(client, guilds.drop_last(), now_ms).0,
            guilds.last(),
            LinkEventView::Tick,
            now_ms,
        );
    }
}

/// The client after a sequence of inputs.
pub open spec fn run(client: ClientView, inputs: Seq<ClientInputView>) -> ClientView
    decreases inputs.len(),
{
    if inputs.len() == 0 {
        client
    } else {
        advanced(run(client, inputs.drop_last()), inputs.last())
    }
}

/// No input takes a well-formed client to one that is not.
pub proof fn lemma_input_preserves_wf(client: ClientView, input: ClientInputView)
    requires
        client.wf(),
    ensures
        advanced(client, input).wf(),
{
    match input {
        ClientInputView::Frame(frame) => {
            if let Ok(payload) = command_in(frame) {
                lemma_dispatch_preserves_wf(client, payload);
            }
        },
        ClientInputView::Command(payload) => {
            lemma_dispatch_preserves_wf(client, payload);
        },
        ClientInputView::Gateway(guild_id, event, now_ms) => {
            lemma_gateway_preserves_client_wf(client, guild_id, event, now_ms);
        },
        ClientInputView::GatewayFrame(guild_id, frame, now_ms) => {
            lemma_gateway_preserves_client_wf(client, guild_id, event_in(frame), now_ms);
        },
        ClientInputView::Tick(now_ms) => {
            lemma_ticks_preserve_wf(client, client.guilds(), now_ms);
        },
        ClientInputView::Disconnect => {},
    }
}

/// At any time a client holds at most one session for a guild: whatever
/// frames, commands and gateway events have reached it since it was made, in
/// whatever order, its sessions are well formed and no two of them belong to
/// the same guild.
pub proof fn lemma_always_one_session_per_guild(
    config: super::model::SessionConfigView,
    inputs: Seq<ClientInputView>,
    guild_id: Seq<char>,
)
    ensures
        run(ClientView::fresh(config), inputs).wf(),
        sessions_of(run(ClientView::fresh(config), inputs).sessions, guild_id) <= 1,
    decreases inputs.len(),
{
    if inputs.len() > 0 {
        lemma_always_one_session_per_guild(config, inputs.drop_last(), guild_id);
        lemma_input_preserves_wf(run(ClientView::fresh(config), inputs.drop_last()), inputs.last());
    }
    lemma_distinct_means_at_most_one(run(ClientView::fresh(config), inputs).sessions, guild_id);
}

} // verus!
