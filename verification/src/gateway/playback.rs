//! A request to play: from the wish to join a voice channel to the connection to its server.

use vstd::prelude::*;

use crate::gateway::events::VoiceServer;
use crate::text::same_text;

verus! {

/// How long to wait for the bot to join a voice channel, in milliseconds.
pub const JOIN_TIMEOUT: u64 = 5000;

/// How long to wait once everything is known, in milliseconds.
pub const SETTLE_DELAY: u64 = 2000;

/// A voice server, as a mathematical value.
pub struct ServerModel {
    pub endpoint: Seq<char>,
    pub token: Seq<char>,
    pub guild_id: Seq<char>,
}

impl View for VoiceServer {
    type V = ServerModel;

    open spec fn view(&self) -> ServerModel {
        ServerModel {
            endpoint: self.endpoint@,
            token: self.token@,
            guild_id: self.guild_id@,
        }
    }
}

/// A copy of a voice server.
fn copy_server(server: &VoiceServer) -> (copy: VoiceServer)
    ensures
        copy@ == server@,
{
    VoiceServer {
        endpoint: server.endpoint.clone(),
        token: server.token.clone(),
        guild_id: server.guild_id.clone(),
    }
}

/// What is known of the voice connections at a moment.
pub struct VoiceInfo {
    /// The session of the bot.
    pub session_id: Option<String>,
    /// The user that the bot is.
    pub user_id: Option<String>,
    /// The guild of the bot's last voice state, and the channel in it.
    pub bot_voice: Option<(String, Option<String>)>,
    /// The voice server that was named last.
    pub voice_server: Option<VoiceServer>,
}

impl VoiceInfo {
    /// Whether the bot is in a voice channel of the guild.
    pub open spec fn has_joined(self, guild_id: Seq<char>) -> bool {
        self.bot_voice matches Some(state) && state.0@ == guild_id && state.1 is Some
    }

    /// Whether the voice server is one of the guild.
    pub open spec fn has_server(self, guild_id: Seq<char>) -> bool {
        self.voice_server matches Some(server) && server.guild_id@ == guild_id
    }

    /// Whether the bot is in a voice channel of the guild.
    pub fn joined(&self, guild_id: &str) -> (yes: bool)
        ensures
            yes == self.has_joined(guild_id@),
    {
        match &self.bot_voice {
            Some(state) => same_text(state.0.as_str(), guild_id) && state.1.is_some(),
            None => false,
        }
    }

    /// Whether the voice server is one of the guild.
    pub fn server_known(&self, guild_id: &str) -> (yes: bool)
        ensures
            yes == self.has_server(guild_id@),
    {
        match &self.voice_server {
            Some(server) => same_text(server.guild_id.as_str(), guild_id),
            None => false,
        }
    }
}

/// How far a request to play has come.
#[derive(Clone, Copy, PartialEq, Eq, Structural)]
pub enum PlayStage {
    Starting,
    AwaitingSession,
    AwaitingUser,
    AwaitingJoin,
    AwaitingServer,
    Settling,
    Done,
}

/// What happened to a request to play.
#[derive(Clone, Copy, PartialEq, Eq, Structural)]
pub enum PlayEvent {
    Started,
    SessionChanged,
    UserChanged,
    BotVoiceChanged,
    JoinTimedOut,
    VoiceServerChanged,
    Settled,
}

/// What is done next for a request to play.
#[derive(Clone, Copy, PartialEq, Eq, Structural)]
pub enum PlayMove {
    /// Go on waiting.
    Wait,
    /// Wait for news of the session.
    WaitForSession,
    /// Wait for news of the bot's user.
    WaitForUser,
    /// Wait for the bot to join, and no longer than the timeout.
    WaitForJoin,
    /// Wait for news of a voice server.
    WaitForServer,
    /// Wait for things to settle.
    Settle,
    /// Connect with what is known now.
    Connect,
}

/// The stage and the move where only the voice server may be missing.
pub open spec fn seek_server(info: VoiceInfo, guild_id: Seq<char>) -> (PlayStage, PlayMove) {
    if info.has_server(guild_id) {
        (PlayStage::Settling, PlayMove::Settle)
    } else {
        (PlayStage::AwaitingServer, PlayMove::WaitForServer)
    }
}

/// The stage and the move where the bot may not have joined yet.
pub open spec fn seek_join(info: VoiceInfo, guild_id: Seq<char>) -> (PlayStage, PlayMove) {
    if info.has_joined(guild_id) {
        seek_server(info, guild_id)
    } else {
        (PlayStage::AwaitingJoin, PlayMove::WaitForJoin)
    }
}

/// The stage and the move where the bot's user may be missing.
pub open spec fn seek_user(info: VoiceInfo, guild_id: Seq<char>) -> (PlayStage, PlayMove) {
    if info.user_id is Some {
        seek_join(info, guild_id)
    } else {
        (PlayStage::AwaitingUser, PlayMove::WaitForUser)
    }
}

/// The stage and the move behind `event`. News are waited for once: whatever they are, the request
/// goes on, but that a voice server must be one of the guild.
pub open spec fn play_next(
    stage: PlayStage,
    event: PlayEvent,
    info: VoiceInfo,
    guild_id: Seq<char>,
) -> (PlayStage, PlayMove) {
    match (stage, event) {
        (PlayStage::Starting, PlayEvent::Started) => if info.session_id is Some {
            seek_user(info, guild_id)
        } else {
            (PlayStage::AwaitingSession, PlayMove::WaitForSession)
        },
        (PlayStage::AwaitingSession, PlayEvent::SessionChanged) => seek_user(info, guild_id),
        (PlayStage::AwaitingUser, PlayEvent::UserChanged) => seek_join(info, guild_id),
        (PlayStage::AwaitingJoin, PlayEvent::BotVoiceChanged) => if info.has_joined(guild_id) {
            seek_server(info, guild_id)
        } else {
            (PlayStage::AwaitingJoin, PlayMove::Wait)
        },
        (PlayStage::AwaitingJoin, PlayEvent::JoinTimedOut) => seek_server(info, guild_id),
        (PlayStage::AwaitingServer, PlayEvent::VoiceServerChanged) => seek_server(info, guild_id),
        (PlayStage::Settling, PlayEvent::Settled) => (PlayStage::Done, PlayMove::Connect),
        _ => (stage, PlayMove::Wait),
    }
}

fn find_server(info: &VoiceInfo, guild_id: &str) -> (next: (PlayStage, PlayMove))
    ensures
        next == seek_server(*info, guild_id@),
{
    if info.server_known(guild_id) {
        (PlayStage::Settling, PlayMove::Settle)
    } else {
        (PlayStage::AwaitingServer, PlayMove::WaitForServer)
    }
}

fn find_join(info: &VoiceInfo, guild_id: &str) -> (next: (PlayStage, PlayMove))
    ensures
        next == seek_join(*info, guild_id@),
{
    if info.joined(guild_id) {
        find_server(info, guild_id)
    } else {
        (PlayStage::AwaitingJoin, PlayMove::WaitForJoin)
    }
}

fn find_user(info: &VoiceInfo, guild_id: &str) -> (next: (PlayStage, PlayMove))
    ensures
        next == seek_user(*info, guild_id@),
{
    if info.user_id.is_some() {
        find_join(info, guild_id)
    } else {
        (PlayStage::AwaitingUser, PlayMove::WaitForUser)
    }
}

/// What is done next for a request to play in the guild, and the stage behind it.
pub fn play_step(stage: PlayStage, event: PlayEvent, info: &VoiceInfo, guild_id: &str) -> (next: (
    PlayStage,
    PlayMove,
))
    ensures
        next == play_next(stage, event, *info, guild_id@),
{
    match (stage, event) {
        (PlayStage::Starting, PlayEvent::Started) => if info.session_id.is_some() {
            find_user(info, guild_id)
        } else {
            (PlayStage::AwaitingSession, PlayMove::WaitForSession)
        },
        (PlayStage::AwaitingSession, PlayEvent::SessionChanged) => find_user(info, guild_id),
        (PlayStage::AwaitingUser, PlayEvent::UserChanged) => find_join(info, guild_id),
        (PlayStage::AwaitingJoin, PlayEvent::BotVoiceChanged) => if info.joined(guild_id) {
            find_server(info, guild_id)
        } else {
            (PlayStage::AwaitingJoin, PlayMove::Wait)
        },
        (PlayStage::AwaitingJoin, PlayEvent::JoinTimedOut) => find_server(info, guild_id),
        (PlayStage::AwaitingServer, PlayEvent::VoiceServerChanged) => find_server(info, guild_id),
        (PlayStage::Settling, PlayEvent::Settled) => (PlayStage::Done, PlayMove::Connect),
        _ => (stage, PlayMove::Wait),
    }
}

/// What it takes to connect to a voice server.
pub struct VoiceTarget {
    pub guild_id: String,
    pub endpoint: String,
    pub token: String,
    pub session_id: String,
    pub user_id: String,
    pub youtube_url: String,
}

/// What is missing to connect to a voice server.
#[derive(Debug, Clone, Copy, PartialEq, Eq, Structural)]
pub enum MissingInfo {
    Session,
    User,
    VoiceServer,
}

/// A request to play, as a mathematical value.
pub struct PlayModel {
    pub guild_id: Seq<char>,
    pub link: Seq<char>,
    pub stage: PlayStage,
    pub server: Option<ServerModel>,
}

impl PlayModel {
    /// A request that nothing was done for yet.
    pub open spec fn started(guild_id: Seq<char>, link: Seq<char>) -> PlayModel {
        PlayModel { guild_id, link, stage: PlayStage::Starting, server: None }
    }

    /// Whether the server is one of the guild, and there is one from when things settle on.
    pub open spec fn well_formed(self) -> bool {
        &&& self.server matches Some(server) ==> server.guild_id == self.guild_id
        &&& self.stage == PlayStage::Settling || self.stage == PlayStage::Done
            ==> self.server is Some
    }

    /// The request behind `event`, and the move. From when things settle on, the latest voice
    /// server of the guild is kept, whatever other guilds are told.
    pub open spec fn behind(self, event: PlayEvent, info: VoiceInfo) -> (PlayModel, PlayMove) {
        let (stage, step) = play_next(self.stage, event, info, self.guild_id);
        let settled = stage == PlayStage::Settling || stage == PlayStage::Done;
        let server = if settled && info.has_server(self.guild_id) {
            Some(info.voice_server->0@)
        } else {
            self.server
        };
        (PlayModel { guild_id: self.guild_id, link: self.link, stage, server }, step)
    }

    /// The request behind all of the events, each with what was known then.
    pub open spec fn behind_all(self, steps: Seq<(PlayEvent, VoiceInfo)>) -> PlayModel
        decreases steps.len(),
    {
        if steps.len() == 0 {
            self
        } else {
            self.behind_all(steps.drop_last()).behind(steps.last().0, steps.last().1).0
        }
    }
}

/// A request to play a link in a guild.
pub struct PlayRequest {
    guild_id: String,
    link: String,
    stage: PlayStage,
    server: Option<VoiceServer>,
}

impl View for PlayRequest {
    type V = PlayModel;

    closed spec fn view(&self) -> PlayModel {
        PlayModel {
            guild_id: self.guild_id@,
            link: self.link@,
            stage: self.stage,
            server: match self.server {
                Some(server) => Some(server@),
                None => None,
            },
        }
    }
}

impl PlayRequest {
    #[verifier::type_invariant]
    spec fn keeps_guild(self) -> bool {
        self@.well_formed()
    }

    /// A request that nothing was done for yet.
    pub fn new(guild_id: &str, link: &str) -> (request: PlayRequest)
        ensures
            request@ == PlayModel::started(guild_id@, link@),
    {
        PlayRequest {
            guild_id: guild_id.to_owned(),
            link: link.to_owned(),
            stage: PlayStage::Starting,
            server: None,
        }
    }

    /// What is done next for the request behind `event`.
    pub fn step(&mut self, event: PlayEvent, info: &VoiceInfo) -> (next: PlayMove)
        ensures
            (final(self)@, next) == old(self)@.behind(event, *info),
            final(self)@.well_formed(),
    {
        proof {
            use_type_invariant(&*self);
        }
        let (stage, step) = play_step(self.stage, event, info, self.guild_id.as_str());
        if stage == PlayStage::Settling || stage == PlayStage::Done {
            if info.server_known(self.guild_id.as_str()) {
                if let Some(server) = &info.voice_server {
                    self.server = Some(copy_server(server));
                }
            }
        }
        self.stage = stage;
        step
    }

    /// What it takes to connect and play, as far as it is known. The session is missed first, then
    /// the user, then the voice server, which is always one of the guild.
    pub fn voice_target(&self, info: &VoiceInfo) -> (target: Result<VoiceTarget, MissingInfo>)
        ensures
            info.session_id is None ==> target == Err::<VoiceTarget, MissingInfo>(
                MissingInfo::Session,
            ),
            info.session_id is Some && info.user_id is None ==> target == Err::<
                VoiceTarget,
                MissingInfo,
            >(MissingInfo::User),
            info.session_id is Some && info.user_id is Some && self@.server is None ==> target
                == Err::<VoiceTarget, MissingInfo>(MissingInfo::VoiceServer),
            info.session_id is Some && info.user_id is Some && self@.server is Some ==> (
            target matches Ok(t) && t.endpoint@ == self@.server->0.endpoint && t.token@
                == self@.server->0.token && t.session_id@ == info.session_id->0@ && t.user_id@
                == info.user_id->0@ && t.youtube_url@ == self@.link),
            target matches Ok(t) ==> t.guild_id@ == self@.guild_id,
            self@.stage == PlayStage::Done ==> target != Err::<VoiceTarget, MissingInfo>(
                MissingInfo::VoiceServer,
            ),
    {
        proof {
            use_type_invariant(self);
        }
        let session_id = match &info.session_id {
            Some(id) => id.clone(),
            None => {
                return Err(MissingInfo::Session);
            },
        };
        let user_id = match &info.user_id {
            Some(id) => id.clone(),
            None => {
                return Err(MissingInfo::User);
            },
        };
        match &self.server {
            Some(server) => Ok(
                VoiceTarget {
                    guild_id: server.guild_id.clone(),
                    endpoint: server.endpoint.clone(),
                    token: server.token.clone(),
                    session_id,
                    user_id,
                    youtube_url: self.link.clone(),
                },
            ),
            None => Err(MissingInfo::VoiceServer),
        }
    }
}

/// How many stages lie behind.
pub open spec fn rank(stage: PlayStage) -> nat {
    match stage {
        PlayStage::Starting => 0,
        PlayStage::AwaitingSession => 1,
        PlayStage::AwaitingUser => 2,
        PlayStage::AwaitingJoin => 3,
        PlayStage::AwaitingServer => 4,
        PlayStage::Settling => 5,
        PlayStage::Done => 6,
    }
}

/// A request to play never goes back a stage.
pub proof fn play_never_goes_back(
    stage: PlayStage,
    event: PlayEvent,
    info: VoiceInfo,
    guild_id: Seq<char>,
)
    ensures
        rank(stage) <= rank(play_next(stage, event, info, guild_id).0),
{
}

/// A request to play settles only once a voice server of its guild is known.
pub proof fn play_needs_server_of_guild(
    stage: PlayStage,
    event: PlayEvent,
    info: VoiceInfo,
    guild_id: Seq<char>,
)
    ensures
        play_next(stage, event, info, guild_id).1 == PlayMove::Settle ==> info.has_server(guild_id),
        play_next(stage, event, info, guild_id).1 == PlayMove::Connect ==> stage
            == PlayStage::Settling,
        play_next(stage, event, info, guild_id).0 == PlayStage::Settling && stage
            != PlayStage::Settling ==> info.has_server(guild_id),
{
}

/// Whatever happens to a request, and whatever voice servers other guilds are told meanwhile, the
/// server that it keeps was one of its own guild at one of the steps. It is known when the request
/// connects.
pub proof fn play_connects_to_its_guild(
    guild_id: Seq<char>,
    link: Seq<char>,
    steps: Seq<(PlayEvent, VoiceInfo)>,
)
    ensures
        ({
            let request = PlayModel::started(guild_id, link).behind_all(steps);
            &&& request.well_formed()
            &&& request.guild_id == guild_id
            &&& request.link == link
            &&& request.server is Some ==> exists|i: int|
                0 <= i < steps.len() && (#[trigger] steps[i]).1.has_server(guild_id)
                    && request.server == Some(steps[i].1.voice_server->0@)
            &&& request.stage == PlayStage::Done ==> request.server is Some
        }),
    decreases steps.len(),
{
    if steps.len() > 0 {
        let earlier = steps.drop_last();
        let before = PlayModel::started(guild_id, link).behind_all(earlier);
        let request = PlayModel::started(guild_id, link).behind_all(steps);
        play_connects_to_its_guild(guild_id, link, earlier);
        let last = steps.len() - 1;
        assert(steps.last() == steps[last]);
        if request.server is Some {
            if request.server == before.server {
                let i = choose|i: int|
                    0 <= i < earlier.len() && (#[trigger] earlier[i]).1.has_server(guild_id)
                        && before.server == Some(earlier[i].1.voice_server->0@);
                assert(steps[i] == earlier[i]);
            } else {
                assert(steps[last].1.has_server(guild_id));
            }
        }
    }
}

/// The move at one of the steps.
pub open spec fn move_at(
    request: PlayModel,
    steps: Seq<(PlayEvent, VoiceInfo)>,
    i: int,
) -> PlayMove {
    request.behind_all(steps.take(i)).behind(steps[i].0, steps[i].1).1
}

/// A request that is done stays done.
proof fn lemma_stays_done(request: PlayModel, steps: Seq<(PlayEvent, VoiceInfo)>, i: int, j: int)
    requires
        0 <= i < j <= steps.len(),
        move_at(request, steps, i) == PlayMove::Connect,
    ensures
        request.behind_all(steps.take(j)).stage == PlayStage::Done,
    decreases j,
{
    assert(steps.take(j).drop_last() =~= steps.take(j - 1));
    assert(steps.take(j).last() == steps[j - 1]);
    if i < j - 1 {
        lemma_stays_done(request, steps, i, j - 1);
    }
}

/// A request to play connects at most once.
pub proof fn play_connects_once(
    request: PlayModel,
    steps: Seq<(PlayEvent, VoiceInfo)>,
    i: int,
    j: int,
)
    requires
        0 <= i < j < steps.len(),
        move_at(request, steps, i) == PlayMove::Connect,
    ensures
        move_at(request, steps, j) != PlayMove::Connect,
{
    lemma_stays_done(request, steps, i, j);
}

/// Where everything is known from the start, nothing is waited for but for things to settle.
pub proof fn play_settles_at_once_when_ready(info: VoiceInfo, guild_id: Seq<char>)
    requires
        info.session_id is Some,
        info.user_id is Some,
        info.has_joined(guild_id),
        info.has_server(guild_id),
    ensures
        play_next(PlayStage::Starting, PlayEvent::Started, info, guild_id) == (
            PlayStage::Settling,
            PlayMove::Settle,
        ),
{
}

/// A voice server is seen whole.
pub proof fn voice_server_is_seen_whole(server: VoiceServer)
    ensures
        server@.endpoint == server.endpoint@,
        server@.token == server.token@,
        server@.guild_id == server.guild_id@,
{
}

/// The bot has joined a guild exactly when its last voice state is one of that guild and names a
/// channel; a server of the guild is known exactly when the last one named is of that guild.
pub proof fn joining_and_server_are_told_by_guild(
    info: VoiceInfo,
    guild_id: Seq<char>,
    state: (String, Option<String>),
    server: VoiceServer,
)
    ensures
        info.bot_voice is None ==> !info.has_joined(guild_id),
        info.bot_voice == Some(state) ==> (info.has_joined(guild_id) <==> state.0@ == guild_id
            && state.1 is Some),
        info.voice_server is None ==> !info.has_server(guild_id),
        info.voice_server == Some(server) ==> (info.has_server(guild_id) <==> server.guild_id@
            == guild_id),
{
}

/// A request waits for the first thing that is missing: the session, the user, the bot in a channel
/// of the guild, a server of the guild. What was waited for once is not waited for again, but for
/// the server, and for joining until the time is over.
pub proof fn play_waits_for_what_is_missing(info: VoiceInfo, guild_id: Seq<char>)
    ensures
        info.session_id is None ==> play_next(
            PlayStage::Starting,
            PlayEvent::Started,
            info,
            guild_id,
        ).1 == PlayMove::WaitForSession,
        info.session_id is Some && info.user_id is None ==> play_next(
            PlayStage::Starting,
            PlayEvent::Started,
            info,
            guild_id,
        ).1 == PlayMove::WaitForUser,
        info.session_id is Some && info.user_id is Some && !info.has_joined(guild_id) ==> play_next(
            PlayStage::Starting,
            PlayEvent::Started,
            info,
            guild_id,
        ).1 == PlayMove::WaitForJoin,
        info.session_id is Some && info.user_id is Some && info.has_joined(guild_id)
            && !info.has_server(guild_id) ==> play_next(
            PlayStage::Starting,
            PlayEvent::Started,
            info,
            guild_id,
        ).1 == PlayMove::WaitForServer,
        info.session_id is Some && info.user_id is Some && info.has_joined(guild_id)
            && info.has_server(guild_id) ==> play_next(
            PlayStage::Starting,
            PlayEvent::Started,
            info,
            guild_id,
        ).1 == PlayMove::Settle,
        info.user_id is None ==> play_next(
            PlayStage::AwaitingSession,
            PlayEvent::SessionChanged,
            info,
            guild_id,
        ).1 == PlayMove::WaitForUser,
        info.user_id is Some && !info.has_joined(guild_id) ==> play_next(
            PlayStage::AwaitingSession,
            PlayEvent::SessionChanged,
            info,
            guild_id,
        ).1 == PlayMove::WaitForJoin,
        info.user_id is Some && info.has_joined(guild_id)
            && !info.has_server(guild_id) ==> play_next(
            PlayStage::AwaitingSession,
            PlayEvent::SessionChanged,
            info,
            guild_id,
        ).1 == PlayMove::WaitForServer,
        info.user_id is Some && info.has_joined(guild_id)
            && info.has_server(guild_id) ==> play_next(
            PlayStage::AwaitingSession,
            PlayEvent::SessionChanged,
            info,
            guild_id,
        ).1 == PlayMove::Settle,
        !info.has_joined(guild_id) ==> play_next(
            PlayStage::AwaitingUser,
            PlayEvent::UserChanged,
            info,
            guild_id,
        ).1 == PlayMove::WaitForJoin,
        info.has_joined(guild_id) && !info.has_server(guild_id) ==> play_next(
            PlayStage::AwaitingUser,
            PlayEvent::UserChanged,
            info,
            guild_id,
        ).1 == PlayMove::WaitForServer,
        info.has_joined(guild_id) && info.has_server(guild_id) ==> play_next(
            PlayStage::AwaitingUser,
            PlayEvent::UserChanged,
            info,
            guild_id,
        ).1 == PlayMove::Settle,
        !info.has_server(guild_id) ==> play_next(
            PlayStage::AwaitingJoin,
            PlayEvent::JoinTimedOut,
            info,
            guild_id,
        ).1 == PlayMove::WaitForServer,
        info.has_server(guild_id) ==> play_next(
            PlayStage::AwaitingJoin,
            PlayEvent::JoinTimedOut,
            info,
            guild_id,
        ).1 == PlayMove::Settle,
        !info.has_server(guild_id) ==> play_next(
            PlayStage::AwaitingServer,
            PlayEvent::VoiceServerChanged,
            info,
            guild_id,
        ).1 == PlayMove::WaitForServer,
        info.has_server(guild_id) ==> play_next(
            PlayStage::AwaitingServer,
            PlayEvent::VoiceServerChanged,
            info,
            guild_id,
        ).1 == PlayMove::Settle,
        info.has_joined(guild_id) && !info.has_server(guild_id) ==> play_next(
            PlayStage::AwaitingJoin,
            PlayEvent::BotVoiceChanged,
            info,
            guild_id,
        ).1 == PlayMove::WaitForServer,
        info.has_joined(guild_id) && info.has_server(guild_id) ==> play_next(
            PlayStage::AwaitingJoin,
            PlayEvent::BotVoiceChanged,
            info,
            guild_id,
        ).1 == PlayMove::Settle,
        !info.has_joined(guild_id) ==> play_next(
            PlayStage::AwaitingJoin,
            PlayEvent::BotVoiceChanged,
            info,
            guild_id,
        ) == (PlayStage::AwaitingJoin, PlayMove::Wait),
        play_next(PlayStage::Settling, PlayEvent::Settled, info, guild_id) == (
            PlayStage::Done,
            PlayMove::Connect,
        ),
{
}

/// The stage of a request is the one of what it waits for.
pub proof fn stage_tells_what_is_waited_for(
    stage: PlayStage,
    event: PlayEvent,
    info: VoiceInfo,
    guild_id: Seq<char>,
)
    ensures
        ({
            let next = play_next(stage, event, info, guild_id);
            &&& next.1 == PlayMove::WaitForSession ==> next.0 == PlayStage::AwaitingSession
                && info.session_id is None
            &&& next.1 == PlayMove::WaitForUser ==> next.0 == PlayStage::AwaitingUser
                && info.user_id is None
            &&& next.1 == PlayMove::WaitForJoin ==> next.0 == PlayStage::AwaitingJoin
                && !info.has_joined(guild_id)
            &&& next.1 == PlayMove::WaitForServer ==> next.0 == PlayStage::AwaitingServer
                && !info.has_server(guild_id)
            &&& next.1 == PlayMove::Settle ==> next.0 == PlayStage::Settling && info.has_server(
                guild_id,
            )
            &&& next.1 == PlayMove::Connect ==> next.0 == PlayStage::Done
            &&& next.1 == PlayMove::Wait ==> next.0 == stage
        }),
{
}

/// A request keeps its guild and its link, and from when things settle on the latest server of the
/// guild, word for word; no other server takes its place.
pub proof fn request_keeps_what_it_was_made_with(
    guild_id: Seq<char>,
    link: Seq<char>,
    request: PlayModel,
    event: PlayEvent,
    info: VoiceInfo,
    server: VoiceServer,
)
    requires
        info.voice_server == Some(server),
    ensures
        PlayModel::started(guild_id, link).guild_id == guild_id,
        PlayModel::started(guild_id, link).link == link,
        PlayModel::started(guild_id, link).stage == PlayStage::Starting,
        PlayModel::started(guild_id, link).server is None,
        request.behind(event, info).0.guild_id == request.guild_id,
        request.behind(event, info).0.link == request.link,
        request.behind(event, info).0.stage == play_next(
            request.stage,
            event,
            info,
            request.guild_id,
        ).0,
        request.behind(event, info).1 == play_next(request.stage, event, info, request.guild_id).1,
        server.guild_id@ != request.guild_id ==> request.behind(event, info).0.server
            == request.server,
        server.guild_id@ == request.guild_id && (request.behind(event, info).1 == PlayMove::Settle
            || request.behind(event, info).1 == PlayMove::Connect) ==> (request.behind(
            event,
            info,
        ).0.server matches Some(kept) && kept.endpoint == server.endpoint@ && kept.token
            == server.token@ && kept.guild_id == server.guild_id@),
{
}

} // verus!
