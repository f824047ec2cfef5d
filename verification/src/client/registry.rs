//! The sessions of one client, and the routing of commands and gateway
//! events to them.

use super::codec::{decode_command, decoded_command};
use super::model::{
    error_event, ClientEventView, SessionConfigView, SessionError, SessionOutputView, SessionView,
};
use super::payloads::{ClientPayload, ClientPayloadView, Opcode};
use super::session::{error_frame, ClientEvent, SessionConfig, SessionOutput, VoiceSession};
use crate::discord::link::{LinkCommand, LinkEvent};
use crate::discord::model::{LinkCommandView, LinkEventView};
use crate::discord::codec::{decode, decoded};
use crate::json::{DecodeError, JsonValue, JsonView};
use vstd::prelude::*;

verus! {

/// A command for the gateway connection of one guild.
#[derive(Debug, Clone, PartialEq, Eq)]
pub struct GuildCommand {
    pub guild_id: String,
    pub command: LinkCommand,
}

/// What the client's owner is to do after an input: events to send down to
/// the client, and commands for the gateway connections, each list in order.
#[derive(Debug, Clone, PartialEq, Eq)]
pub struct Dispatch {
    pub events: Vec<ClientEvent>,
    pub commands: Vec<GuildCommand>,
}

/// The sessions of one client, at most one for each guild.
pub struct SessionRegistry {
    sessions: Vec<VoiceSession>,
}

/// One controlling connection: its settings and its sessions.
pub struct Client {
    config: SessionConfig,
    registry: SessionRegistry,
}

/// The mathematical value of a [`GuildCommand`].
pub struct GuildCommandView {
    pub guild_id: Seq<char>,
    pub command: LinkCommandView,
}

/// The mathematical value of a [`Dispatch`].
pub struct DispatchView {
    pub events: Seq<ClientEventView>,
    pub commands: Seq<GuildCommandView>,
}

/// The settings and the sessions of a client, as a mathematical value.
pub struct ClientView {
    pub config: SessionConfigView,
    pub sessions: Seq<SessionView>,
}

impl View for GuildCommand {
    type V = GuildCommandView;

    open spec fn view(&self) -> GuildCommandView {
        GuildCommandView { guild_id: self.guild_id@, command: self.command@ }
    }
}

impl DeepView for GuildCommand {
    type V = GuildCommandView;

    open spec fn deep_view(&self) -> GuildCommandView {
        self@
    }
}

impl View for Dispatch {
    type V = DispatchView;

    open spec fn view(&self) -> DispatchView {
        DispatchView { events: self.events.deep_view(), commands: self.commands.deep_view() }
    }
}

impl View for SessionRegistry {
    type V = Seq<SessionView>;

    closed spec fn view(&self) -> Seq<SessionView> {
        self.sessions.deep_view()
    }
}

impl View for Client {
    type V = ClientView;

    closed spec fn view(&self) -> ClientView {
        ClientView { config: self.config@, sessions: self.registry@ }
    }
}

/// No two sessions belong to the same guild.
pub open spec fn distinct(sessions: Seq<SessionView>) -> bool {
    forall|i: int, j: int|
        0 <= i < j < sessions.len() ==> (#[trigger] sessions[i]).guild_id != (
        #[trigger] sessions[j]).guild_id
}

/// The index of the first session of `guild_id`.
pub open spec fn first_index(sessions: Seq<SessionView>, guild_id: Seq<char>) -> Option<int>
    decreases sessions.len(),
{
    if sessions.len() == 0 {
        None
    } else {
        match first_index(sessions.drop_last(), guild_id) {
            Some(i) => Some(i),
            None => if sessions.last().guild_id == guild_id {
                Some(sessions.len() - 1)
            } else {
                None
            },
        }
    }
}

/// [`first_index`] finds a session of the guild before which there is no
/// other, and finds none only if there is none.
pub proof fn lemma_first_index(sessions: Seq<SessionView>, guild_id: Seq<char>)
    ensures
        match first_index(sessions, guild_id) {
            Some(i) => {
                &&& 0 <= i < sessions.len()
                &&& sessions[i].guild_id == guild_id
                &&& forall|j: int| 0 <= j < i ==> (#[trigger] sessions[j]).guild_id != guild_id
            },
            None => forall|j: int|
                0 <= j < sessions.len() ==> (#[trigger] sessions[j]).guild_id != guild_id,
        },
    decreases sessions.len(),
{
    if sessions.len() > 0 {
        let front = sessions.drop_last();
        lemma_first_index(front, guild_id);
        assert forall|j: int| 0 <= j < front.len() implies front[j] == sessions[j] by {}
        match first_index(front, guild_id) {
            Some(i) => {
                assert forall|j: int| 0 <= j < i implies (#[trigger] sessions[j]).guild_id
                    != guild_id by {
                    assert(front[j] == sessions[j]);
                }
            },
            None => {
                assert forall|j: int| 0 <= j < sessions.len() - 1 implies (
                #[trigger] sessions[j]).guild_id != guild_id by {
                    assert(front[j] == sessions[j]);
                }
            },
        }
    }
}

/// The commands of one guild's session, each with the name of the guild.
pub open spec fn tagged(guild_id: Seq<char>, commands: Seq<LinkCommandView>) -> Seq<
    GuildCommandView,
> {
    commands.map_values(|command: LinkCommandView| GuildCommandView { guild_id, command })
}

/// The sessions after the session at `i` took an input: it takes its new
/// value, or leaves the registry if it has ended.
pub open spec fn settled(sessions: Seq<SessionView>, i: int, session: SessionView) -> Seq<
    SessionView,
> {
    if session.destroyed {
        sessions.remove(i)
    } else {
        sessions.update(i, session)
    }
}

/// What is to be done after the session of `guild_id` answered with `out`.
pub open spec fn forwarded(guild_id: Seq<char>, out: SessionOutputView) -> DispatchView {
    DispatchView { events: out.events, commands: tagged(guild_id, out.commands) }
}

/// The commands that close the links of all of `sessions`, in their order.
pub open spec fn shutdown(sessions: Seq<SessionView>) -> Seq<GuildCommandView>
    decreases sessions.len(),
{
    if sessions.len() == 0 {
        Seq::empty()
    } else {
        shutdown(sessions.drop_last()) + tagged(
            sessions.last().guild_id,
            sessions.last().destroy().1,
        )
    }
}

/// The command in a frame of the client.
pub open spec fn command_in(frame: Option<JsonView>) -> Result<ClientPayloadView, DecodeError> {
    match frame {
        Some(doc) => decoded_command(doc),
        None => Err(DecodeError::Malformed),
    }
}

/// The event that a frame of the gateway is.
pub open spec fn event_in(frame: Option<JsonView>) -> LinkEventView {
    match frame {
        Some(doc) => match decoded(doc) {
            Ok(message) => LinkEventView::Message(message),
            Err(_) => LinkEventView::Garbled,
        },
        None => LinkEventView::Garbled,
    }
}

/// The earlier of two times, where either may be missing.
pub open spec fn sooner(a: Option<u64>, b: Option<u64>) -> Option<u64> {
    match (a, b) {
        (Some(x), Some(y)) => Some(if x <= y {
            x
        } else {
            y
        }),
        (Some(_), None) => a,
        (None, _) => b,
    }
}

/// The earliest time at which one of `sessions` wants a tick.
pub open spec fn earliest(sessions: Seq<SessionView>) -> Option<u64>
    decreases sessions.len(),
{
    if sessions.len() == 0 {
        None
    } else {
        sooner(earliest(sessions.drop_last()), sessions.last().link.next_wakeup())
    }
}

/// What is to be done after two inputs, one after the other.
pub open spec fn followed(first: DispatchView, second: DispatchView) -> DispatchView {
    DispatchView {
        events: first.events + second.events,
        commands: first.commands + second.commands,
    }
}

/// The client after the sessions of `guilds` were told the time, one after
/// the other, and what is to be done then.
pub open spec fn ticked_through(client: ClientView, guilds: Seq<Seq<char>>, now_ms: u64) -> (
    ClientView,
    DispatchView,
)
    decreases guilds.len(),
{
    if guilds.len() == 0 {
        (client, DispatchView { events: Seq::empty(), commands: Seq::empty() })
    } else {
        let (before, first) = ticked_through(client, guilds.drop_last(), now_ms);
        let (after, second) = before.gateway(guilds.last(), LinkEventView::Tick, now_ms);
        (after, followed(first, second))
    }
}

impl ClientView {
    /// A client without sessions.
    pub open spec fn fresh(config: SessionConfigView) -> ClientView {
        ClientView { config, sessions: Seq::empty() }
    }

    /// A command of the client. A voice update for a guild without a session
    /// makes the session first; it cannot fail. Every command goes to the
    /// session of its guild; where there is none, the command fails with
    /// `NoSessionForGuild`. A session that ended leaves the registry.
    pub open spec fn dispatch(self, payload: ClientPayloadView) -> (ClientView, DispatchView) {
        match first_index(self.sessions, payload.guild_id) {
            Some(i) => {
                let (session, out) = self.sessions[i].apply(payload.op);
                (
                    ClientView { sessions: settled(self.sessions, i, session), ..self },
                    forwarded(payload.guild_id, out),
                )
            },
            None => if payload.op is VoiceUpdate {
                let (session, out) = SessionView::fresh(payload.guild_id, self.config).apply(
                    payload.op,
                );
                (
                    ClientView { sessions: self.sessions.push(session), ..self },
                    forwarded(payload.guild_id, out),
                )
            } else {
                (
                    self,
                    DispatchView {
                        events: seq![error_event(payload.guild_id, SessionError::NoSessionForGuild)],
                        commands: Seq::empty(),
                    },
                )
            },
        }
    }

    /// A frame of the client: a document, or nothing where the frame was
    /// none. A frame that is a command is dispatched. Any other frame is
    /// answered with an event that names the fault, and changes nothing.
    pub open spec fn receive(self, frame: Option<JsonView>) -> (ClientView, DispatchView) {
        match command_in(frame) {
            Ok(payload) => self.dispatch(payload),
            Err(fault) => (
                self,
                DispatchView {
                    events: seq![ClientEventView::Malformed(fault)],
                    commands: Seq::empty(),
                },
            ),
        }
    }

    /// A frame on the gateway connection of `guild_id`: a document, or
    /// nothing where the frame was none. A frame that is a message reaches the
    /// session as that message, any other as a garbled one.
    pub open spec fn gateway_frame(self, guild_id: Seq<char>, frame: Option<JsonView>, now_ms: u64)
        -> (ClientView, DispatchView) {
        self.gateway(guild_id, event_in(frame), now_ms)
    }

    /// Time has passed: every session is told the time, in the order of the
    /// sessions.
    pub open spec fn tick(self, now_ms: u64) -> (ClientView, DispatchView) {
        ticked_through(self, self.guilds(), now_ms)
    }

    /// The earliest time at which a session wants a tick, if any does.
    pub open spec fn next_wakeup(self) -> Option<u64> {
        earliest(self.sessions)
    }

    /// The guilds that have a session, in the order of the sessions.
    pub open spec fn guilds(self) -> Seq<Seq<char>> {
        self.sessions.map_values(|session: SessionView| session.guild_id)
    }

    /// An event on the gateway connection of `guild_id`. It goes to the
    /// session of the guild; without one it is dropped.
    pub open spec fn gateway(self, guild_id: Seq<char>, event: LinkEventView, now_ms: u64) -> (
        ClientView,
        DispatchView,
    ) {
        match first_index(self.sessions, guild_id) {
            Some(i) => {
                let (session, out) = self.sessions[i].gateway(event, now_ms);
                (
                    ClientView { sessions: settled(self.sessions, i, session), ..self },
                    forwarded(guild_id, out),
                )
            },
            None => (self, DispatchView { events: Seq::empty(), commands: Seq::empty() }),
        }
    }

    /// The client has gone: every session ends, and every link is closed.
    pub open spec fn disconnect(self) -> (ClientView, Seq<GuildCommandView>) {
        (ClientView { sessions: Seq::empty(), ..self }, shutdown(self.sessions))
    }

    /// What holds of every client that was made by [`ClientView::fresh`]
    /// and moved by the functions above: no guild has two sessions, and every
    /// session is well formed and has not ended.
    pub open spec fn wf(self) -> bool {
        &&& distinct(self.sessions)
        &&& forall|i: int|
            0 <= i < self.sessions.len() ==> (#[trigger] self.sessions[i]).wf()
                && !self.sessions[i].destroyed
    }
}

fn reversed(commands: Vec<LinkCommand>) -> (r: Vec<LinkCommand>)
    ensures
        r.len() == commands.len(),
        forall|j: int| 0 <= j < r.len() ==> r@[j] == commands@[commands.len() - 1 - j],
{
    let mut rest = commands;
    let mut out: Vec<LinkCommand> = Vec::new();
    while rest.len() > 0
        invariant
            rest.len() + out.len() == commands.len(),
            forall|j: int| 0 <= j < rest.len() ==> rest@[j] == commands@[j],
            forall|j: int| 0 <= j < out.len() ==> out@[j] == commands@[commands.len() - 1 - j],
        decreases rest.len(),
    {
        let command = rest.pop().unwrap();
        out.push(command);
    }
    out
}

fn tag(guild_id: &String, commands: Vec<LinkCommand>) -> (r: Vec<GuildCommand>)
    ensures
        r.deep_view() == tagged(guild_id@, commands.deep_view()),
{
    let mut out: Vec<GuildCommand> = Vec::new();
    let ghost all = commands.deep_view();
    let ghost want = tagged(guild_id@, all);
    let mut i: usize = 0;
    let n = commands.len();
    let mut rest = reversed(commands);
    while i < n
        invariant
            i <= n,
            n == all.len(),
            want == tagged(guild_id@, all),
            rest.len() == n - i,
            out.len() == i,
            forall|j: int| 0 <= j < n - i ==> rest@[j]@ == all[n - 1 - j],
            forall|j: int| 0 <= j < i ==> out@[j]@ == want[j],
        decreases n - i,
    {
        let command = rest.pop().unwrap();
        out.push(GuildCommand { guild_id: guild_id.clone(), command });
        i += 1;
    }
    assert(out.deep_view() =~= want);
    out
}

fn forward(guild_id: &String, out: SessionOutput) -> (r: Dispatch)
    ensures
        r@ == forwarded(guild_id@, out@),
{
    Dispatch { events: out.events, commands: tag(guild_id, out.commands) }
}

impl SessionRegistry {
    /// A registry without sessions.
    pub fn new() -> (r: SessionRegistry)
        ensures
            r@ == Seq::<SessionView>::empty(),
    {
        let r = SessionRegistry { sessions: Vec::new() };
        assert(r@ =~= Seq::empty());
        r
    }

    /// The number of sessions.
    pub fn len(&self) -> (r: usize)
        ensures
            r == self@.len(),
    {
        self.sessions.len()
    }

    /// Where the session of `guild_id` is, if there is one.
    pub fn find(&self, guild_id: &String) -> (r: Option<usize>)
        ensures
            match r {
                Some(i) => first_index(self@, guild_id@) == Some(i as int),
                None => first_index(self@, guild_id@) is None,
            },
    {
        let mut i: usize = 0;
        while i < self.sessions.len()
            invariant
                i <= self.sessions.len(),
                forall|j: int| 0 <= j < i ==> (#[trigger] self@[j]).guild_id != guild_id@,
            decreases self.sessions.len() - i,
        {
            if *self.sessions[i].guild_id() == *guild_id {
                proof {
                    lemma_first_index(self@, guild_id@);
                    assert(self@[i as int].guild_id == guild_id@);
                }
                return Some(i);
            }
            assert(self@[i as int].guild_id != guild_id@);
            i += 1;
        }
        proof {
            lemma_first_index(self@, guild_id@);
        }
        None
    }

    /// The session of `guild_id`, if there is one.
    pub fn session(&self, guild_id: &String) -> (r: Option<&VoiceSession>)
        ensures
            match (r, first_index(self@, guild_id@)) {
                (Some(session), Some(i)) => session@ == self@[i],
                (None, None) => true,
                _ => false,
            },
    {
        match self.find(guild_id) {
            Some(i) => {
                proof {
                    lemma_first_index(self@, guild_id@);
                }
                Some(&self.sessions[i])
            },
            None => None,
        }
    }

    /// Makes the session of `guild_id` unless there is one. Returns whether
    /// one was made.
    pub fn create(&mut self, guild_id: &String, config: &SessionConfig) -> (made: bool)
        ensures
            made == (first_index(old(self)@, guild_id@) is None),
            final(self)@ == if made {
                old(self)@.push(SessionView::fresh(guild_id@, config@))
            } else {
                old(self)@
            },
    {
        match self.find(guild_id) {
            Some(_) => false,
            None => {
                let ghost before = self@;
                self.sessions.push(VoiceSession::new(guild_id.clone(), config.copy()));
                assert(self@ =~= before.push(SessionView::fresh(guild_id@, config@)));
                true
            },
        }
    }

    /// Drops the session of `guild_id`. Returns whether there was one.
    pub fn remove(&mut self, guild_id: &String) -> (found: bool)
        ensures
            match first_index(old(self)@, guild_id@) {
                Some(i) => found && final(self)@ == old(self)@.remove(i),
                None => !found && final(self)@ == old(self)@,
            },
    {
        match self.find(guild_id) {
            Some(i) => {
                let ghost before = self@;
                proof {
                    lemma_first_index(self@, guild_id@);
                }
                let _ = self.sessions.remove(i);
                assert(self@ =~= before.remove(i as int));
                true
            },
            None => false,
        }
    }

    fn settle(&mut self, i: usize, Ghost(before): Ghost<Seq<SessionView>>)
        requires
            i < old(self)@.len(),
            before.len() == old(self)@.len(),
            forall|j: int| 0 <= j < before.len() && j != i ==> before[j] == old(self)@[j],
        ensures
            final(self)@ == settled(before, i as int, old(self)@[i as int]),
    {
        if self.sessions[i].is_destroyed() {
            let ghost now = self@;
            let _ = self.sessions.remove(i);
            assert(self@ =~= now.remove(i as int));
            assert(now.remove(i as int) =~= before.remove(i as int));
        } else {
            assert(self@ =~= before.update(i as int, self@[i as int]));
        }
    }

    /// Hands a command to the session of `guild_id` and drops the session if
    /// that ended it. Without a session nothing happens.
    pub fn route(&mut self, guild_id: &String, op: Opcode) -> (r: Option<SessionOutput>)
        ensures
            match first_index(old(self)@, guild_id@) {
                Some(i) => {
                    &&& r matches Some(out)
                    &&& out@ == old(self)@[i].apply(op@).1
                    &&& final(self)@ == settled(old(self)@, i, old(self)@[i].apply(op@).0)
                },
                None => r is None && final(self)@ == old(self)@,
            },
    {
        match self.find(guild_id) {
            Some(i) => {
                let ghost before = self@;
                proof {
                    lemma_first_index(self@, guild_id@);
                }
                let out = self.sessions[i].apply(op);
                self.settle(i, Ghost(before));
                Some(out)
            },
            None => None,
        }
    }

    /// Hands a gateway event to the session of `guild_id` and drops the
    /// session if that ended it. Without a session nothing happens.
    pub fn route_gateway(&mut self, guild_id: &String, event: LinkEvent, now_ms: u64) -> (r: Option<
        SessionOutput,
    >)
        ensures
            match first_index(old(self)@, guild_id@) {
                Some(i) => {
                    &&& r matches Some(out)
                    &&& out@ == old(self)@[i].gateway(event@, now_ms).1
                    &&& final(self)@ == settled(
                        old(self)@,
                        i,
                        old(self)@[i].gateway(event@, now_ms).0,
                    )
                },
                None => r is None && final(self)@ == old(self)@,
            },
    {
        match self.find(guild_id) {
            Some(i) => {
                let ghost before = self@;
                proof {
                    lemma_first_index(self@, guild_id@);
                }
                let out = self.sessions[i].gateway(event, now_ms);
                self.settle(i, Ghost(before));
                Some(out)
            },
            None => None,
        }
    }

    /// The earliest time at which a session wants a tick.
    pub fn next_wakeup(&self) -> (r: Option<u64>)
        ensures
            r == earliest(self@),
    {
        let mut best: Option<u64> = None;
        let mut i: usize = 0;
        assert(self@.take(0) =~= Seq::empty());
        while i < self.sessions.len()
            invariant
                i <= self.sessions.len(),
                best == earliest(self@.take(i as int)),
            decreases self.sessions.len() - i,
        {
            let wanted = self.sessions[i].link().next_wakeup();
            proof {
                assert(self@.take(i + 1).drop_last() =~= self@.take(i as int));
                assert(self@.take(i + 1).last() == self@[i as int]);
            }
            best = match (best, wanted) {
                (Some(x), Some(y)) => Some(if x <= y {
                    x
                } else {
                    y
                }),
                (Some(x), None) => Some(x),
                (None, y) => y,
            };
            i += 1;
        }
        assert(self@.take(self@.len() as int) =~= self@);
        best
    }

    /// The guilds that have a session, in the order of the sessions.
    pub fn guilds(&self) -> (r: Vec<String>)
        ensures
            r.deep_view() == self@.map_values(|session: SessionView| session.guild_id),
    {
        let mut out: Vec<String> = Vec::new();
        let mut i: usize = 0;
        while i < self.sessions.len()
            invariant
                i <= self.sessions.len(),
                out.len() == i,
                forall|j: int| 0 <= j < i ==> out@[j]@ == self@[j].guild_id,
            decreases self.sessions.len() - i,
        {
            out.push(self.sessions[i].guild_id().clone());
            i += 1;
        }
        assert(out.deep_view() =~= self@.map_values(|session: SessionView| session.guild_id));
        out
    }

    /// Ends every session and returns the commands that close their links.
    pub fn clear(&mut self) -> (commands: Vec<GuildCommand>)
        ensures
            final(self)@ == Seq::<SessionView>::empty(),
            commands.deep_view() == shutdown(old(self)@),
    {
        let mut commands: Vec<GuildCommand> = Vec::new();
        let ghost all = self@;
        let mut i: usize = 0;
        assert(all.take(0) =~= Seq::empty());
        assert(commands.deep_view() =~= Seq::empty());
        while i < self.sessions.len()
            invariant
                i <= self.sessions.len(),
                self@.len() == all.len(),
                forall|j: int| i <= j < all.len() ==> self@[j] == all[j],
                commands.deep_view() == shutdown(all.take(i as int)),
            decreases self.sessions.len() - i,
        {
            let ghost done = commands.deep_view();
            let ghost now = self@;
            let closing = self.sessions[i].destroy();
            let mut more = tag(self.sessions[i].guild_id(), closing);
            let ghost added = more.deep_view();
            commands.append(&mut more);
            proof {
                assert(commands.deep_view() =~= done + added);
                assert(all.take(i + 1).drop_last() =~= all.take(i as int));
                assert(all.take(i + 1).last() == all[i as int]);
                assert(now[i as int] == all[i as int]);
                assert(self@.len() == now.len());
                assert forall|j: int| i < j < all.len() implies self@[j] == all[j] by {
                    assert(self@[j] == now[j]);
                }
            }
            i += 1;
        }
        assert(all.take(all.len() as int) =~= all);
        self.sessions = Vec::new();
        assert(self@ =~= Seq::empty());
        commands
    }
}

impl Client {
    /// A client without sessions. Each session it makes takes `config`.
    pub fn new(config: SessionConfig) -> (r: Client)
        ensures
            r@ == ClientView::fresh(config@),
    {
        Client { config, registry: SessionRegistry::new() }
    }

    /// The number of sessions.
    pub fn sessions(&self) -> (r: usize)
        ensures
            r == self@.sessions.len(),
    {
        self.registry.len()
    }

    /// The session of `guild_id`, if there is one.
    pub fn session(&self, guild_id: &String) -> (r: Option<&VoiceSession>)
        ensures
            match (r, first_index(self@.sessions, guild_id@)) {
                (Some(session), Some(i)) => session@ == self@.sessions[i],
                (None, None) => true,
                _ => false,
            },
    {
        self.registry.session(guild_id)
    }

    /// Takes a command of the client: see [`ClientView::dispatch`].
    pub fn dispatch(&mut self, payload: ClientPayload) -> (r: Dispatch)
        ensures
            (final(self)@, r@) == old(self)@.dispatch(payload@),
    {
        let guild_id = payload.guild_id;
        let is_update = match &payload.op {
            Opcode::VoiceUpdate(_) => true,
            _ => false,
        };
        let ghost before = self@.sessions;
        if is_update {
            let made = self.registry.create(&guild_id, &self.config);
            proof {
                lemma_first_index(before, guild_id@);
                lemma_first_index(self@.sessions, guild_id@);
                if made {
                    assert(self@.sessions[before.len() as int].guild_id == guild_id@);
                    assert forall|j: int| 0 <= j < before.len() implies (
                    #[trigger] self@.sessions[j]).guild_id != guild_id@ by {
                        assert(self@.sessions[j] == before[j]);
                    }
                    assert(first_index(self@.sessions, guild_id@) == Some(before.len() as int));
                }
            }
        }
        let ghost ready = self@.sessions;
        match self.registry.route(&guild_id, payload.op) {
            Some(out) => {
                proof {
                    if first_index(before, guild_id@) is None {
                        let i = before.len() as int;
                        let session = SessionView::fresh(guild_id@, self@.config).apply(
                            payload.op@,
                        ).0;
                        assert(!session.destroyed);
                        assert(ready.update(i, session) =~= before.push(session));
                    }
                }
                forward(&guild_id, out)
            },
            None => {
                let mut events: Vec<ClientEvent> = Vec::new();
                events.push(error_frame(&guild_id, SessionError::NoSessionForGuild));
                let commands: Vec<GuildCommand> = Vec::new();
                assert(events.deep_view() =~= seq![
                    error_event(guild_id@, SessionError::NoSessionForGuild),
                ]);
                assert(commands.deep_view() =~= Seq::empty());
                Dispatch { events, commands }
            },
        }
    }

    /// Takes a frame of the client; `None` stands for a frame that is no
    /// document. See [`ClientView::receive`].
    pub fn receive(&mut self, frame: Option<&JsonValue>) -> (r: Dispatch)
        ensures
            (final(self)@, r@) == old(self)@.receive(frame.deep_view()),
    {
        let command = match frame {
            Some(doc) => decode_command(doc),
            None => Err(DecodeError::Malformed),
        };
        match command {
            Ok(payload) => self.dispatch(payload),
            Err(fault) => {
                let mut events: Vec<ClientEvent> = Vec::new();
                events.push(ClientEvent::Malformed(fault));
                let commands: Vec<GuildCommand> = Vec::new();
                assert(events.deep_view() =~= seq![ClientEventView::Malformed(fault)]);
                assert(commands.deep_view() =~= Seq::empty());
                Dispatch { events, commands }
            },
        }
    }

    /// Takes an event of the gateway connection of `guild_id`: see
    /// [`ClientView::gateway`].
    pub fn gateway(&mut self, guild_id: &String, event: LinkEvent, now_ms: u64) -> (r: Dispatch)
        ensures
            (final(self)@, r@) == old(self)@.gateway(guild_id@, event@, now_ms),
    {
        match self.registry.route_gateway(guild_id, event, now_ms) {
            Some(out) => forward(guild_id, out),
            None => {
                let events: Vec<ClientEvent> = Vec::new();
                let commands: Vec<GuildCommand> = Vec::new();
                assert(events.deep_view() =~= Seq::empty());
                assert(commands.deep_view() =~= Seq::empty());
                Dispatch { events, commands }
            },
        }
    }

    /// Takes a frame of the gateway connection of `guild_id`; `None` stands
    /// for a frame that is no document. See [`ClientView::gateway_frame`].
    pub fn gateway_frame(&mut self, guild_id: &String, frame: Option<&JsonValue>, now_ms: u64) -> (r:
        Dispatch)
        ensures
            (final(self)@, r@) == old(self)@.gateway_frame(guild_id@, frame.deep_view(), now_ms),
    {
        let event = match frame {
            Some(doc) => match decode(doc) {
                Ok(message) => LinkEvent::Message(message),
                Err(_) => LinkEvent::Garbled,
            },
            None => LinkEvent::Garbled,
        };
        self.gateway(guild_id, event, now_ms)
    }

    /// Tells every session the time: see [`ClientView::tick`].
    pub fn tick(&mut self, now_ms: u64) -> (r: Dispatch)
        ensures
            (final(self)@, r@) == old(self)@.tick(now_ms),
    {
        let guilds = self.guilds();
        let mut events: Vec<ClientEvent> = Vec::new();
        let mut commands: Vec<GuildCommand> = Vec::new();
        let ghost start = self@;
        let ghost names = guilds.deep_view();
        let mut i: usize = 0;
        proof {
            assert(names.take(0) =~= Seq::empty());
            assert(events.deep_view() =~= Seq::empty());
            assert(commands.deep_view() =~= Seq::empty());
        }
        while i < guilds.len()
            invariant
                i <= guilds.len(),
                names == guilds.deep_view(),
                (
                    self@,
                    DispatchView { events: events.deep_view(), commands: commands.deep_view() },
                ) == ticked_through(start, names.take(i as int), now_ms),
            decreases guilds.len() - i,
        {
            let ghost done_events = events.deep_view();
            let ghost done_commands = commands.deep_view();
            let mut more = self.gateway(&guilds[i], LinkEvent::Tick, now_ms);
            let ghost more_events = more.events.deep_view();
            let ghost more_commands = more.commands.deep_view();
            events.append(&mut more.events);
            commands.append(&mut more.commands);
            proof {
                assert(names.take(i + 1).drop_last() =~= names.take(i as int));
                assert(names.take(i + 1).last() == guilds@[i as int]@);
                assert(events.deep_view() =~= done_events + more_events);
                assert(commands.deep_view() =~= done_commands + more_commands);
            }
            i += 1;
        }
        assert(names.take(names.len() as int) =~= names);
        Dispatch { events, commands }
    }

    /// When the client wants its next tick: the earliest time at which one
    /// of its sessions wants one.
    pub fn next_wakeup(&self) -> (r: Option<u64>)
        ensures
            r == self@.next_wakeup(),
    {
        self.registry.next_wakeup()
    }

    /// The guilds that have a session.
    pub fn guilds(&self) -> (r: Vec<String>)
        ensures
            r.deep_view() == self@.guilds(),
    {
        self.registry.guilds()
    }

    /// The client has gone: ends every session and returns the commands
    /// that close their links.
    pub fn disconnect(&mut self) -> (commands: Vec<GuildCommand>)
        ensures
            (final(self)@, commands.deep_view()) == old(self)@.disconnect(),
    {
        self.registry.clear()
    }
}

} // verus!
