//! Events of the gateway: who is in which voice channel, and what the bot is asked to do.

use vstd::hash_map::StringHashMap;
use vstd::prelude::*;

use crate::gateway::discord::get_random_number;
#[allow(unused_imports)]
use crate::gateway::discord::{
    payloads_are_forwarded_unchanged, sender_moves, SenderAction, SenderContext, SenderEvent,
    SenderState,
};
use crate::gateway::payloads::voice_state_text;
#[allow(unused_imports)]
use crate::gateway::payloads::{voice_state_reads_as, voice_state_tree};
use crate::json::Json;
#[allow(unused_imports)]
use crate::json::{item_trees, json_parsed, json_rendered, lemma_item_trees, JsonTree};
use crate::text::{
    copy_text, has_prefix, own, push_decimal, same_text, strip_prefix, usual_notation,
};
#[allow(unused_imports)]
use crate::text::{
    after, all_digits, decimal, decimal_reads_back, decimal_value, denoted, digits_are_notation,
    notation_is_exact, numbers_are_denoted, opt_str_view, opt_view, prefix_stands_in_front,
    signed_decimal, starts_with,
};

verus! {

/// The answer to a request for help.
pub const HELP_TEXT: &'static str = "**Leo Cap-lan Bot Commands:**\n\n\
    `!askleo play <youtube_url>` - Play audio from a YouTube video in the voice channel\n\
    `!askleo leave` - Leave the current voice channel\n\
    `!askleo slanderleo` - Send the slander image of Leo\n\
    `!askleo randomleo` - Get a random image of Leo\n\n\
    Use `!askleo help` to see this message again.";

/// The answer to a request to play that names nothing to play.
pub const INVALID_LINK_TEXT: &'static str = "Invalid link was sent";

/// What an image is sent with.
pub const IMAGE_TEXT: &'static str = "Here is an image of Leo";

/// The image that is sent on request.
pub const SLANDER_IMAGE: &'static str = "images/leo_slander.jpg";

/// How many images there are to choose from.
pub const IMAGE_COUNT: u64 = 21;

/// A voice server that a guild may use.
pub struct VoiceServer {
    pub endpoint: String,
    pub token: String,
    pub guild_id: String,
}

/// What an event makes the bot do.
pub enum BotAction {
    /// Make the session known.
    PublishSession(String),
    /// Make the bot's own user known.
    PublishUser(String),
    /// Make known which session can be resumed, and where.
    PublishResume(Option<String>, Option<String>),
    /// Make known in which channel of a guild the bot is.
    PublishBotVoice(String, Option<String>),
    /// Make a voice server known.
    PublishVoiceServer(VoiceServer),
    /// Send a text message, and go on before it is sent where that is left to the background.
    SendText { channel_id: String, text: String, in_background: bool },
    /// Join the voice channel and play what is behind the link.
    Play { guild_id: String, voice_channel: Option<String>, link: String },
    /// Send an image.
    SendImage { channel_id: String, text: String, path: String },
    /// Send an image drawn at random.
    SendRandomImage { channel_id: String, text: String },
    /// Leave the voice channels of the guild.
    Leave { guild_id: String },
}

/// What an event makes the bot do, as a mathematical value.
pub enum ActionModel {
    PublishSession(Seq<char>),
    PublishUser(Seq<char>),
    PublishResume(Option<Seq<char>>, Option<Seq<char>>),
    PublishBotVoice(Seq<char>, Option<Seq<char>>),
    PublishVoiceServer { endpoint: Seq<char>, token: Seq<char>, guild_id: Seq<char> },
    SendText { channel_id: Seq<char>, text: Seq<char>, in_background: bool },
    Play { guild_id: Seq<char>, voice_channel: Option<Seq<char>>, link: Seq<char> },
    SendImage { channel_id: Seq<char>, text: Seq<char>, path: Seq<char> },
    SendRandomImage { channel_id: Seq<char>, text: Seq<char> },
    Leave { guild_id: Seq<char> },
}

impl View for BotAction {
    type V = ActionModel;

    open spec fn view(&self) -> ActionModel {
        match *self {
            BotAction::PublishSession(id) => ActionModel::PublishSession(id@),
            BotAction::PublishUser(id) => ActionModel::PublishUser(id@),
            BotAction::PublishResume(session_id, url) => ActionModel::PublishResume(
                opt_view(session_id),
                opt_view(url),
            ),
            BotAction::PublishBotVoice(guild_id, channel_id) => ActionModel::PublishBotVoice(
                guild_id@,
                opt_view(channel_id),
            ),
            BotAction::PublishVoiceServer(server) => ActionModel::PublishVoiceServer {
                endpoint: server.endpoint@,
                token: server.token@,
                guild_id: server.guild_id@,
            },
            BotAction::SendText { channel_id, text, in_background } => ActionModel::SendText {
                channel_id: channel_id@,
                text: text@,
                in_background,
            },
            BotAction::Play { guild_id, voice_channel, link } => ActionModel::Play {
                guild_id: guild_id@,
                voice_channel: opt_view(voice_channel),
                link: link@,
            },
            BotAction::SendImage { channel_id, text, path } => ActionModel::SendImage {
                channel_id: channel_id@,
                text: text@,
                path: path@,
            },
            BotAction::SendRandomImage { channel_id, text } => ActionModel::SendRandomImage {
                channel_id: channel_id@,
                text: text@,
            },
            BotAction::Leave { guild_id } => ActionModel::Leave { guild_id: guild_id@ },
        }
    }
}

/// What an action asks of the gateway: to be in a voice channel of a guild, or in none.
pub open spec fn voice_request(action: ActionModel) -> Option<JsonTree> {
    match action {
        ActionModel::Play { guild_id, voice_channel, .. } => Some(
            voice_state_tree(guild_id, voice_channel),
        ),
        ActionModel::Leave { guild_id } => Some(voice_state_tree(guild_id, None)),
        _ => None,
    }
}

impl BotAction {
    /// The payload that asks the gateway for a voice channel, where the action needs one.
    pub fn voice_request_text(&self) -> (text: Option<String>)
        ensures
            text is Some == voice_request(self@) is Some,
            text matches Some(t) ==> t@ == json_rendered(voice_request(self@)->0) && json_parsed(t@)
                == Some(voice_request(self@)->0),
    {
        match self {
            BotAction::Play { guild_id, voice_channel, .. } => match voice_channel {
                Some(channel) => Some(voice_state_text(guild_id.as_str(), Some(channel.as_str()))),
                None => Some(voice_state_text(guild_id.as_str(), None)),
            },
            BotAction::Leave { guild_id } => Some(voice_state_text(guild_id.as_str(), None)),
            _ => None,
        }
    }
}

/// The actions of a list, as mathematical values.
pub open spec fn action_models(actions: Seq<BotAction>) -> Seq<ActionModel> {
    actions.map_values(|action: BotAction| action@)
}

/// Which voice channel each user is in; a user without one is in none.
pub type Users = Map<Seq<char>, Option<Seq<char>>>;

/// The user and the channel that a voice state names.
pub open spec fn with_voice_state(users: Users, state: JsonTree) -> Users {
    users.insert(state.get("user_id"@).str_or_empty(), state.get("channel_id"@).as_str())
}

/// The users behind all of the voice states.
pub open spec fn with_voice_states(users: Users, states: Seq<JsonTree>) -> Users
    decreases states.len(),
{
    if states.len() == 0 {
        users
    } else {
        with_voice_state(with_voice_states(users, states.drop_last()), states.last())
    }
}

/// The name of the event `tree`, where it is one.
pub open spec fn event_name(tree: JsonTree) -> Option<Seq<char>> {
    match tree.get("op"@).as_u64() {
        Some(0) => tree.get("t"@).as_str(),
        _ => None,
    }
}

/// The users behind the event `tree`.
pub open spec fn users_behind(users: Users, tree: JsonTree) -> Users {
    let data = tree.get("d"@);
    if event_name(tree) == Some("GUILD_CREATE"@) {
        match data.get("voice_states"@).as_array() {
            Some(states) => with_voice_states(users, states),
            None => users,
        }
    } else if event_name(tree) == Some("VOICE_STATE_UPDATE"@) {
        with_voice_state(users, data)
    } else {
        users
    }
}

/// What a greeting of the gateway makes known.
pub open spec fn ready_actions(data: JsonTree) -> Seq<ActionModel> {
    let session_id = data.get("session_id"@).as_str();
    let user = data.get("user"@).get("id"@).as_str();
    let session_part = match session_id {
        Some(id) => seq![ActionModel::PublishSession(id)],
        None => seq![],
    };
    let user_part = match user {
        Some(id) => seq![ActionModel::PublishUser(id)],
        None => seq![],
    };
    session_part + user_part + seq![
        ActionModel::PublishResume(session_id, data.get("resume_gateway_url"@).as_str()),
    ]
}

/// What a change of a voice state makes known: where the bot is, if it is the bot's own.
pub open spec fn voice_state_actions(data: JsonTree, app_id: Option<Seq<char>>) -> Seq<
    ActionModel,
> {
    let bot_id = match app_id {
        Some(id) => id,
        None => Seq::empty(),
    };
    if data.get("user_id"@).str_or_empty() == bot_id {
        seq![
            ActionModel::PublishBotVoice(
                data.get("guild_id"@).str_or_empty(),
                data.get("channel_id"@).as_str(),
            ),
        ]
    } else {
        seq![]
    }
}

/// What news of a voice server make known: the server, if it is named and can be used.
pub open spec fn voice_server_actions(data: JsonTree) -> Seq<ActionModel> {
    match (data.get("endpoint"@).as_str(), data.get("token"@).as_str()) {
        (Some(endpoint), Some(token)) => if endpoint.len() > 0 {
            seq![
                ActionModel::PublishVoiceServer {
                    endpoint,
                    token,
                    guild_id: data.get("guild_id"@).str_or_empty(),
                },
            ]
        } else {
            seq![]
        },
        _ => seq![],
    }
}

/// The channel that a user is known to be in.
pub open spec fn channel_of(users: Users, user_id: Seq<char>) -> Option<Seq<char>> {
    if users.dom().contains(user_id) {
        users[user_id]
    } else {
        None
    }
}

/// The answer to a request to play.
pub open spec fn play_action(
    content: Seq<char>,
    channel_id: Seq<char>,
    guild_id: Seq<char>,
    voice_channel: Option<Seq<char>>,
) -> ActionModel {
    if starts_with(content, "!askleo play "@) {
        ActionModel::Play {
            guild_id,
            voice_channel,
            link: after(content, "!askleo play "@.len()),
        }
    } else {
        ActionModel::SendText { channel_id, text: INVALID_LINK_TEXT@, in_background: false }
    }
}

/// What a message asks of the bot.
pub open spec fn command_actions(
    content: Seq<char>,
    channel_id: Seq<char>,
    guild_id: Seq<char>,
    voice_channel: Option<Seq<char>>,
) -> Seq<ActionModel> {
    let help = if starts_with(content, "!askleo help"@) {
        seq![ActionModel::SendText { channel_id, text: HELP_TEXT@, in_background: true }]
    } else {
        seq![]
    };
    let play = if starts_with(content, "!askleo play"@) {
        seq![play_action(content, channel_id, guild_id, voice_channel)]
    } else {
        seq![]
    };
    let slander = if starts_with(content, "!askleo slanderleo"@) {
        seq![ActionModel::SendImage { channel_id, text: IMAGE_TEXT@, path: SLANDER_IMAGE@ }]
    } else {
        seq![]
    };
    let random = if starts_with(content, "!askleo randomleo"@) {
        seq![ActionModel::SendRandomImage { channel_id, text: IMAGE_TEXT@ }]
    } else {
        seq![]
    };
    let leave = if starts_with(content, "!askleo leave"@) {
        seq![ActionModel::Leave { guild_id }]
    } else {
        seq![]
    };
    help + play + slander + random + leave
}

/// The author id by which the bot knows its own messages: its application id, which a number may
/// stand for in any notation. Without an id that is 0.
pub open spec fn own_author_id(app_id: Seq<char>) -> Seq<char> {
    match denoted(app_id) {
        Some(n) => signed_decimal(n),
        None => if app_id.len() == 0 {
            signed_decimal(0)
        } else {
            app_id
        },
    }
}

/// The author id by which the bot knows its own messages.
pub fn own_id(app_id: &str) -> (id: String)
    ensures
        id@ == own_author_id(app_id@),
{
    match usual_notation(app_id) {
        Some(usual) => usual,
        None => if app_id.is_empty() {
            proof {
                reveal_strlit("0");
            }
            assert("0"@ =~= signed_decimal(0));
            "0".to_owned()
        } else {
            app_id.to_owned()
        },
    }
}

/// What a message makes the bot do: nothing where its author is the bot itself.
pub open spec fn message_actions(users: Users, data: JsonTree, app_id: Seq<char>) -> Seq<
    ActionModel,
> {
    let author_id = data.get("author"@).get("id"@).str_or_empty();
    if author_id == own_author_id(app_id) {
        seq![]
    } else {
        command_actions(
            data.get("content"@).str_or_empty(),
            data.get("channel_id"@).str_or_empty(),
            data.get("guild_id"@).str_or_empty(),
            channel_of(users, author_id),
        )
    }
}

/// What the event `tree` makes the bot do.
pub open spec fn event_actions(users: Users, tree: JsonTree, app_id: Option<Seq<char>>) -> Seq<
    ActionModel,
> {
    let data = tree.get("d"@);
    if event_name(tree) == Some("READY"@) {
        ready_actions(data)
    } else if event_name(tree) == Some("VOICE_STATE_UPDATE"@) {
        voice_state_actions(data, app_id)
    } else if event_name(tree) == Some("VOICE_SERVER_UPDATE"@) {
        voice_server_actions(data)
    } else if event_name(tree) == Some("MESSAGE_CREATE"@) {
        message_actions(users, data, app_id->0)
    } else {
        seq![]
    }
}

/// Which voice channel each user is in, as far as the events told.
pub struct VoiceDirectory {
    users: StringHashMap<Option<String>>,
}

impl View for VoiceDirectory {
    type V = Users;

    closed spec fn view(&self) -> Users {
        self.users@.map_values(|channel: Option<String>| opt_view(channel))
    }
}

impl VoiceDirectory {
    /// A directory without users.
    pub fn new() -> (directory: VoiceDirectory)
        ensures
            directory@ == Map::<Seq<char>, Option<Seq<char>>>::empty(),
    {
        let directory = VoiceDirectory { users: StringHashMap::new() };
        assert(directory@ =~= Map::<Seq<char>, Option<Seq<char>>>::empty());
        directory
    }

    /// The channel that the user is known to be in.
    pub fn channel_of(&self, user_id: &str) -> (channel: Option<String>)
        ensures
            opt_view(channel) == channel_of(self@, user_id@),
    {
        match self.users.get(user_id) {
            Some(channel) => copy_text(channel),
            None => None,
        }
    }

    /// Notes the user and the channel that a voice state names.
    fn note(&mut self, state: &Json)
        ensures
            final(self)@ == with_voice_state(old(self)@, state@),
    {
        let user_id = state.get("user_id").str_or_empty();
        let channel_id = own(state.get("channel_id").as_str());
        self.users.insert(user_id, channel_id);
        assert(self@ =~= with_voice_state(old(self)@, state@));
    }

    /// Notes all of the voice states.
    fn note_all(&mut self, states: &Vec<Json>)
        ensures
            final(self)@ == with_voice_states(old(self)@, item_trees(states@)),
    {
        let ghost before = self@;
        let ghost trees = item_trees(states@);
        proof {
            lemma_item_trees(states@);
            assert(trees.take(0) =~= Seq::<JsonTree>::empty());
        }
        for i in 0..states.len()
            invariant
                trees == item_trees(states@),
                trees.len() == states.len(),
                forall|k: int| 0 <= k < trees.len() ==> #[trigger] trees[k] == states@[k]@,
                self@ == with_voice_states(before, trees.take(i as int)),
        {
            self.note(&states[i]);
            proof {
                assert(trees.take(i + 1).drop_last() =~= trees.take(i as int));
                assert(trees.take(i + 1).last() == trees[i as int]);
            }
        }
        assert(trees.take(trees.len() as int) =~= trees);
    }
}

/// Whether the event is one for which the bot has to know its application id: a message.
pub fn needs_app_id(json: &Json) -> (needed: bool)
    ensures
        needed == (event_name(json@) == Some("MESSAGE_CREATE"@)),
{
    if json.get("op").as_u64() != Some(0) {
        return false;
    }
    match json.get("t").as_str() {
        Some(name) => same_text(name, "MESSAGE_CREATE"),
        None => false,
    }
}

/// What a greeting of the gateway makes known.
fn on_ready(data: &Json) -> (actions: Vec<BotAction>)
    ensures
        action_models(actions@) == ready_actions(data@),
{
    let mut actions: Vec<BotAction> = Vec::new();
    let session_id = own(data.get("session_id").as_str());
    if let Some(id) = &session_id {
        actions.push(BotAction::PublishSession(id.clone()));
    }
    let resume_gateway_url = own(data.get("resume_gateway_url").as_str());
    if let Some(id) = data.get("user").get("id").as_str() {
        actions.push(BotAction::PublishUser(id.to_owned()));
    }
    actions.push(BotAction::PublishResume(session_id, resume_gateway_url));
    assert(action_models(actions@) =~= ready_actions(data@));
    actions
}

/// What a change of a voice state makes known.
fn on_voice_state(data: &Json, app_id: Option<&str>) -> (actions: Vec<BotAction>)
    ensures
        action_models(actions@) == voice_state_actions(data@, opt_str_view(app_id)),
{
    let mut actions: Vec<BotAction> = Vec::new();
    let user_id = data.get("user_id").str_or_empty();
    let own_state = match app_id {
        Some(id) => same_text(user_id.as_str(), id),
        None => user_id.as_str().is_empty(),
    };
    assert(own_state == (user_id@ == match opt_str_view(app_id) {
        Some(id) => id,
        None => Seq::empty(),
    })) by {
        if user_id@.len() == 0 {
            assert(user_id@ =~= Seq::<char>::empty());
        }
    }
    if own_state {
        actions.push(
            BotAction::PublishBotVoice(
                data.get("guild_id").str_or_empty(),
                own(data.get("channel_id").as_str()),
            ),
        );
    }
    assert(action_models(actions@) =~= voice_state_actions(data@, opt_str_view(app_id)));
    actions
}

/// What news of a voice server make known.
fn on_voice_server(data: &Json) -> (actions: Vec<BotAction>)
    ensures
        action_models(actions@) == voice_server_actions(data@),
{
    let mut actions: Vec<BotAction> = Vec::new();
    if let Some(endpoint) = data.get("endpoint").as_str() {
        if !endpoint.is_empty() {
            if let Some(token) = data.get("token").as_str() {
                actions.push(
                    BotAction::PublishVoiceServer(
                        VoiceServer {
                            endpoint: endpoint.to_owned(),
                            token: token.to_owned(),
                            guild_id: data.get("guild_id").str_or_empty(),
                        },
                    ),
                );
            }
        }
    }
    assert(action_models(actions@) =~= voice_server_actions(data@));
    actions
}

/// What a message asks of the bot, where its author is in `voice_channel`.
pub fn on_command(
    content: &str,
    channel_id: &str,
    guild_id: &str,
    voice_channel: Option<String>,
) -> (actions: Vec<BotAction>)
    ensures
        action_models(actions@) == command_actions(
            content@,
            channel_id@,
            guild_id@,
            opt_view(voice_channel),
        ),
{
    let mut actions: Vec<BotAction> = Vec::new();
    if has_prefix(content, "!askleo help") {
        actions.push(
            BotAction::SendText {
                channel_id: channel_id.to_owned(),
                text: HELP_TEXT.to_owned(),
                in_background: true,
            },
        );
    }
    if has_prefix(content, "!askleo play") {
        match strip_prefix(content, "!askleo play ") {
            Some(link) => {
                actions.push(
                    BotAction::Play {
                        guild_id: guild_id.to_owned(),
                        voice_channel,
                        link: link.to_owned(),
                    },
                );
            },
            None => {
                actions.push(
                    BotAction::SendText {
                        channel_id: channel_id.to_owned(),
                        text: INVALID_LINK_TEXT.to_owned(),
                        in_background: false,
                    },
                );
            },
        }
    }
    if has_prefix(content, "!askleo slanderleo") {
        actions.push(
            BotAction::SendImage {
                channel_id: channel_id.to_owned(),
                text: IMAGE_TEXT.to_owned(),
                path: SLANDER_IMAGE.to_owned(),
            },
        );
    }
    if has_prefix(content, "!askleo randomleo") {
        actions.push(
            BotAction::SendRandomImage {
                channel_id: channel_id.to_owned(),
                text: IMAGE_TEXT.to_owned(),
            },
        );
    }
    if has_prefix(content, "!askleo leave") {
        actions.push(BotAction::Leave { guild_id: guild_id.to_owned() });
    }
    assert(action_models(actions@) =~= command_actions(
        content@,
        channel_id@,
        guild_id@,
        opt_view(voice_channel),
    ));
    actions
}

impl VoiceDirectory {
    /// What a message makes the bot do.
    fn on_message(&self, data: &Json, app_id: &str) -> (actions: Vec<BotAction>)
        ensures
            action_models(actions@) == message_actions(self@, data@, app_id@),
    {
        let author_id = data.get("author").get("id").str_or_empty();
        let bot_id = own_id(app_id);
        if same_text(author_id.as_str(), bot_id.as_str()) {
            let actions: Vec<BotAction> = Vec::new();
            assert(action_models(actions@) =~= Seq::<ActionModel>::empty());
            return actions;
        }
        let content = data.get("content").str_or_empty();
        let channel_id = data.get("channel_id").str_or_empty();
        let guild_id = data.get("guild_id").str_or_empty();
        let voice_channel = self.channel_of(author_id.as_str());
        on_command(content.as_str(), channel_id.as_str(), guild_id.as_str(), voice_channel)
    }

    /// What an event makes the bot do. A message cannot be judged without the application id.
    pub fn handle_event(&mut self, json: &Json, app_id: Option<&str>) -> (actions: Vec<BotAction>)
        requires
            event_name(json@) == Some("MESSAGE_CREATE"@) ==> app_id is Some,
        ensures
            final(self)@ == users_behind(old(self)@, json@),
            action_models(actions@) == event_actions(old(self)@, json@, opt_str_view(app_id)),
    {
        let nothing: Vec<BotAction> = Vec::new();
        assert(action_models(nothing@) =~= Seq::<ActionModel>::empty());
        proof {
            lemma_event_names_differ();
        }
        if json.get("op").as_u64() != Some(0) {
            return nothing;
        }
        let name = match json.get("t").as_str() {
            Some(name) => name,
            None => {
                return nothing;
            },
        };
        let data = json.get("d");
        if same_text(name, "READY") {
            on_ready(data)
        } else if same_text(name, "GUILD_CREATE") {
            if let Some(states) = data.get("voice_states").as_array() {
                self.note_all(states);
            }
            nothing
        } else if same_text(name, "VOICE_STATE_UPDATE") {
            self.note(data);
            on_voice_state(data, app_id)
        } else if same_text(name, "VOICE_SERVER_UPDATE") {
            on_voice_server(data)
        } else if same_text(name, "MESSAGE_CREATE") {
            match app_id {
                Some(id) => self.on_message(data, id),
                None => nothing,
            }
        } else {
            nothing
        }
    }
}

/// The events that are handled have different names.
proof fn lemma_event_names_differ()
    ensures
        "READY"@ != "GUILD_CREATE"@,
        "READY"@ != "VOICE_STATE_UPDATE"@,
        "READY"@ != "VOICE_SERVER_UPDATE"@,
        "READY"@ != "MESSAGE_CREATE"@,
        "GUILD_CREATE"@ != "VOICE_STATE_UPDATE"@,
        "GUILD_CREATE"@ != "VOICE_SERVER_UPDATE"@,
        "GUILD_CREATE"@ != "MESSAGE_CREATE"@,
        "VOICE_STATE_UPDATE"@ != "VOICE_SERVER_UPDATE"@,
        "VOICE_STATE_UPDATE"@ != "MESSAGE_CREATE"@,
        "VOICE_SERVER_UPDATE"@ != "MESSAGE_CREATE"@,
{
    reveal_strlit("READY");
    reveal_strlit("GUILD_CREATE");
    reveal_strlit("VOICE_STATE_UPDATE");
    reveal_strlit("VOICE_SERVER_UPDATE");
    reveal_strlit("MESSAGE_CREATE");
    assert("READY"@.len() == 5 && "GUILD_CREATE"@.len() == 12);
    assert("VOICE_STATE_UPDATE"@.len() == 18 && "VOICE_SERVER_UPDATE"@.len() == 19);
    assert("MESSAGE_CREATE"@.len() == 14);
}

/// Where the image with this number lies.
pub open spec fn image_path(number: nat) -> Seq<char> {
    "images/leo_"@ + decimal(number) + ".jpg"@
}

/// Where the image with this number lies.
pub fn numbered_image(number: u64) -> (path: String)
    ensures
        path@ == image_path(number as nat),
{
    let mut path = "images/leo_".to_owned();
    push_decimal(&mut path, number);
    path.append(".jpg");
    path
}

/// Where an image drawn at random lies.
pub fn random_image() -> (path: String)
    ensures
        exists|number: nat| 1 <= number <= IMAGE_COUNT && path@ == #[trigger] image_path(number),
{
    let number: u64 = get_random_number(1, IMAGE_COUNT);
    let path = numbered_image(number);
    assert(path@ == image_path(number as nat));
    path
}

/// Of a text that begins with `prefix`, the characters of `prefix` are known.
proof fn lemma_prefix_char(text: Seq<char>, prefix: Seq<char>, i: int)
    requires
        starts_with(text, prefix),
        0 <= i < prefix.len(),
    ensures
        text[i] == prefix[i],
{
    assert(text.take(prefix.len() as int)[i] == text[i]);
}

/// Every command begins with the same eight characters, and the one behind them tells which
/// command it is.
proof fn lemma_command_letters(content: Seq<char>)
    ensures
        starts_with(content, "!askleo help"@) ==> content[8] == 'h' && starts_with(
            content,
            "!askleo "@,
        ),
        starts_with(content, "!askleo play"@) ==> content[8] == 'p' && starts_with(
            content,
            "!askleo "@,
        ),
        starts_with(content, "!askleo slanderleo"@) ==> content[8] == 's' && starts_with(
            content,
            "!askleo "@,
        ),
        starts_with(content, "!askleo randomleo"@) ==> content[8] == 'r' && starts_with(
            content,
            "!askleo "@,
        ),
        starts_with(content, "!askleo leave"@) ==> content[8] == 'l' && starts_with(
            content,
            "!askleo "@,
        ),
{
    reveal_strlit("!askleo ");
    reveal_strlit("!askleo help");
    reveal_strlit("!askleo play");
    reveal_strlit("!askleo slanderleo");
    reveal_strlit("!askleo randomleo");
    reveal_strlit("!askleo leave");
    let name = "!askleo "@;
    if starts_with(content, "!askleo help"@) {
        lemma_prefix_char(content, "!askleo help"@, 8);
        assert(content.take(8) =~= content.take(12).take(8));
        assert("!askleo help"@.take(8) =~= name);
    }
    if starts_with(content, "!askleo play"@) {
        lemma_prefix_char(content, "!askleo play"@, 8);
        assert(content.take(8) =~= content.take(12).take(8));
        assert("!askleo play"@.take(8) =~= name);
    }
    if starts_with(content, "!askleo slanderleo"@) {
        lemma_prefix_char(content, "!askleo slanderleo"@, 8);
        assert(content.take(8) =~= content.take(18).take(8));
        assert("!askleo slanderleo"@.take(8) =~= name);
    }
    if starts_with(content, "!askleo randomleo"@) {
        lemma_prefix_char(content, "!askleo randomleo"@, 8);
        assert(content.take(8) =~= content.take(17).take(8));
        assert("!askleo randomleo"@.take(8) =~= name);
    }
    if starts_with(content, "!askleo leave"@) {
        lemma_prefix_char(content, "!askleo leave"@, 8);
        assert(content.take(8) =~= content.take(13).take(8));
        assert("!askleo leave"@.take(8) =~= name);
    }
}

/// A message is at most one command: it never makes the bot do two things.
pub proof fn message_is_at_most_one_command(users: Users, data: JsonTree, app_id: Seq<char>)
    ensures
        message_actions(users, data, app_id).len() <= 1,
{
    lemma_command_letters(data.get("content"@).str_or_empty());
}

/// Each of the five commands is answered, and by nothing but its own answer.
pub proof fn listed_commands_are_answered(users: Users, data: JsonTree, app_id: Seq<char>)
    requires
        data.get("author"@).get("id"@).str_or_empty() != own_author_id(app_id),
    ensures
        ({
            let content = data.get("content"@).str_or_empty();
            let channel_id = data.get("channel_id"@).str_or_empty();
            let guild_id = data.get("guild_id"@).str_or_empty();
            let author_id = data.get("author"@).get("id"@).str_or_empty();
            let actions = message_actions(users, data, app_id);
            &&& starts_with(content, "!askleo help"@) ==> actions == seq![
                ActionModel::SendText { channel_id, text: HELP_TEXT@, in_background: true },
            ]
            &&& starts_with(content, "!askleo play"@) ==> actions == seq![
                play_action(content, channel_id, guild_id, channel_of(users, author_id)),
            ]
            &&& starts_with(content, "!askleo slanderleo"@) ==> actions == seq![
                ActionModel::SendImage { channel_id, text: IMAGE_TEXT@, path: SLANDER_IMAGE@ },
            ]
            &&& starts_with(content, "!askleo randomleo"@) ==> actions == seq![
                ActionModel::SendRandomImage { channel_id, text: IMAGE_TEXT@ },
            ]
            &&& starts_with(content, "!askleo leave"@) ==> actions == seq![
                ActionModel::Leave { guild_id },
            ]
        }),
{
    let content = data.get("content"@).str_or_empty();
    let channel_id = data.get("channel_id"@).str_or_empty();
    let guild_id = data.get("guild_id"@).str_or_empty();
    let author_id = data.get("author"@).get("id"@).str_or_empty();
    let actions = message_actions(users, data, app_id);
    lemma_command_letters(content);
    if starts_with(content, "!askleo help"@) {
        assert(actions =~= seq![ActionModel::SendText { channel_id, text: HELP_TEXT@, in_background: true }]);
    }
    if starts_with(content, "!askleo play"@) {
        assert(actions =~= seq![
            play_action(content, channel_id, guild_id, channel_of(users, author_id)),
        ]);
    }
    if starts_with(content, "!askleo slanderleo"@) {
        assert(actions =~= seq![
            ActionModel::SendImage { channel_id, text: IMAGE_TEXT@, path: SLANDER_IMAGE@ },
        ]);
    }
    if starts_with(content, "!askleo randomleo"@) {
        assert(actions =~= seq![ActionModel::SendRandomImage { channel_id, text: IMAGE_TEXT@ }]);
    }
    if starts_with(content, "!askleo leave"@) {
        assert(actions =~= seq![ActionModel::Leave { guild_id }]);
    }
}

/// A message that is not addressed to the bot makes it do nothing.
pub proof fn other_messages_are_ignored(users: Users, data: JsonTree, app_id: Seq<char>)
    requires
        !starts_with(data.get("content"@).str_or_empty(), "!askleo "@),
    ensures
        message_actions(users, data, app_id) == Seq::<ActionModel>::empty(),
{
    lemma_command_letters(data.get("content"@).str_or_empty());
    assert(message_actions(users, data, app_id) =~= Seq::<ActionModel>::empty());
}

/// The texts that the bot answers with are no commands: whoever repeats them, itself included, gets
/// no answer.
pub proof fn answers_are_no_commands(users: Users, data: JsonTree, app_id: Seq<char>)
    requires
        data.get("content"@).str_or_empty() == HELP_TEXT@ || data.get("content"@).str_or_empty()
            == INVALID_LINK_TEXT@ || data.get("content"@).str_or_empty() == IMAGE_TEXT@,
    ensures
        message_actions(users, data, app_id) == Seq::<ActionModel>::empty(),
{
    reveal_strlit("!askleo ");
    reveal_strlit(
        "**Leo Cap-lan Bot Commands:**\n\n\
    `!askleo play <youtube_url>` - Play audio from a YouTube video in the voice channel\n\
    `!askleo leave` - Leave the current voice channel\n\
    `!askleo slanderleo` - Send the slander image of Leo\n\
    `!askleo randomleo` - Get a random image of Leo\n\n\
    Use `!askleo help` to see this message again.",
    );
    reveal_strlit("Invalid link was sent");
    reveal_strlit("Here is an image of Leo");
    let content = data.get("content"@).str_or_empty();
    assert(content[0] != '!');
    if starts_with(content, "!askleo "@) {
        lemma_prefix_char(content, "!askleo "@, 0);
    }
    other_messages_are_ignored(users, data, app_id);
}

/// Whether an application id is written as the id of an author is: it is not empty and, where it
/// denotes a number, is the number's usual notation.
pub open spec fn is_usual_id(app_id: Seq<char>) -> bool {
    app_id.len() > 0 && (denoted(app_id) matches Some(n) ==> app_id == signed_decimal(n))
}

/// The ids that the gateway gives, digits without zeros in front, are written in the usual way.
pub proof fn given_ids_are_usual(app_id: Seq<char>)
    requires
        all_digits(app_id),
        app_id[0] != '0',
    ensures
        is_usual_id(app_id),
{
    assert(crate::text::is_digit(app_id[0]));
    digits_are_notation(app_id);
}

/// The bot's own messages make it do nothing, for every application id that is written as the id of
/// an author is.
pub proof fn own_messages_are_ignored(users: Users, data: JsonTree, app_id: Seq<char>)
    requires
        is_usual_id(app_id),
        data.get("author"@).get("id"@).str_or_empty() == app_id,
    ensures
        message_actions(users, data, app_id) == Seq::<ActionModel>::empty(),
{
}

/// An application id that denotes a number stands for the author with that number, however it is
/// written.
pub proof fn number_stands_for_author(users: Users, data: JsonTree, app_id: Seq<char>)
    requires
        denoted(app_id) is Some,
        data.get("author"@).get("id"@).str_or_empty() == signed_decimal(denoted(app_id)->0),
    ensures
        message_actions(users, data, app_id) == Seq::<ActionModel>::empty(),
{
}

/// The users behind all of the events.
pub open spec fn users_behind_all(users: Users, events: Seq<JsonTree>) -> Users
    decreases events.len(),
{
    if events.len() == 0 {
        users
    } else {
        users_behind(users_behind_all(users, events.drop_last()), events.last())
    }
}

/// Whether the voice state is one of the user.
pub open spec fn is_state_of(state: JsonTree, user_id: Seq<char>) -> bool {
    state.get("user_id"@).str_or_empty() == user_id
}

/// The voice states that the event tells: those of a guild, or the one that changed.
pub open spec fn entries_of(tree: JsonTree) -> Seq<JsonTree> {
    let data = tree.get("d"@);
    if event_name(tree) == Some("GUILD_CREATE"@) {
        match data.get("voice_states"@).as_array() {
            Some(states) => states,
            None => seq![],
        }
    } else if event_name(tree) == Some("VOICE_STATE_UPDATE"@) {
        seq![data]
    } else {
        seq![]
    }
}

/// The voice states that the events tell, in their order.
pub open spec fn all_entries(events: Seq<JsonTree>) -> Seq<JsonTree>
    decreases events.len(),
{
    if events.len() == 0 {
        seq![]
    } else {
        all_entries(events.drop_last()) + entries_of(events.last())
    }
}

/// The channel that the user's latest entry names, or the one known before where there is no entry
/// of the user.
pub open spec fn latest_channel(
    entries: Seq<JsonTree>,
    user_id: Seq<char>,
    known: Option<Seq<char>>,
) -> Option<Seq<char>>
    decreases entries.len(),
{
    if entries.len() == 0 {
        known
    } else if is_state_of(entries.last(), user_id) {
        entries.last().get("channel_id"@).as_str()
    } else {
        latest_channel(entries.drop_last(), user_id, known)
    }
}

/// Noting voice states makes the latest of a user known.
proof fn lemma_noted_channel(users: Users, states: Seq<JsonTree>, user_id: Seq<char>)
    ensures
        channel_of(with_voice_states(users, states), user_id) == latest_channel(
            states,
            user_id,
            channel_of(users, user_id),
        ),
    decreases states.len(),
{
    if states.len() > 0 {
        lemma_noted_channel(users, states.drop_last(), user_id);
    }
}

/// An event has its voice states noted, and nothing else.
proof fn lemma_event_notes_entries(users: Users, tree: JsonTree)
    ensures
        users_behind(users, tree) == with_voice_states(users, entries_of(tree)),
{
    lemma_event_names_differ();
    let data = tree.get("d"@);
    if event_name(tree) == Some("VOICE_STATE_UPDATE"@) {
        assert(seq![data].drop_last() =~= Seq::<JsonTree>::empty());
        assert(seq![data].last() == data);
        reveal_with_fuel(with_voice_states, 2);
    }
}

/// The latest entry of two lists is looked for in the second list first.
proof fn lemma_latest_of_both(
    first: Seq<JsonTree>,
    second: Seq<JsonTree>,
    user_id: Seq<char>,
    known: Option<Seq<char>>,
)
    ensures
        latest_channel(first + second, user_id, known) == latest_channel(
            second,
            user_id,
            latest_channel(first, user_id, known),
        ),
    decreases second.len(),
{
    if second.len() == 0 {
        assert(first + second =~= first);
    } else {
        assert((first + second).drop_last() =~= first + second.drop_last());
        assert((first + second).last() == second.last());
        lemma_latest_of_both(first, second.drop_last(), user_id, known);
    }
}

/// After any events, the channel that a user is known to be in is the one of the user's latest
/// entry among all voice states that the events told.
pub proof fn channel_is_of_latest_entry(users: Users, events: Seq<JsonTree>, user_id: Seq<char>)
    ensures
        channel_of(users_behind_all(users, events), user_id) == latest_channel(
            all_entries(events),
            user_id,
            channel_of(users, user_id),
        ),
    decreases events.len(),
{
    if events.len() > 0 {
        let earlier = users_behind_all(users, events.drop_last());
        let entries = entries_of(events.last());
        channel_is_of_latest_entry(users, events.drop_last(), user_id);
        lemma_event_notes_entries(earlier, events.last());
        lemma_noted_channel(earlier, entries, user_id);
        lemma_latest_of_both(
            all_entries(events.drop_last()),
            entries,
            user_id,
            channel_of(users, user_id),
        );
    }
}

/// Entries of other users do not count.
pub proof fn entries_of_others_do_not_count(
    entries: Seq<JsonTree>,
    user_id: Seq<char>,
    known: Option<Seq<char>>,
)
    requires
        forall|i: int| 0 <= i < entries.len() ==> !is_state_of(#[trigger] entries[i], user_id),
    ensures
        latest_channel(entries, user_id, known) == known,
    decreases entries.len(),
{
    if entries.len() > 0 {
        assert(entries.last() == entries[entries.len() - 1]);
        assert forall|i: int| 0 <= i < entries.drop_last().len() implies !is_state_of(
            #[trigger] entries.drop_last()[i],
            user_id,
        ) by {
            assert(entries.drop_last()[i] == entries[i]);
        }
        entries_of_others_do_not_count(entries.drop_last(), user_id, known);
    }
}

/// Whoever asks to play is joined in the channel of their latest entry among the voice states of
/// all events since the start, and in none where there is no entry or it names no channel.
pub proof fn play_joins_latest_channel(events: Seq<JsonTree>, data: JsonTree, app_id: Seq<char>)
    requires
        data.get("author"@).get("id"@).str_or_empty() != own_author_id(app_id),
        starts_with(data.get("content"@).str_or_empty(), "!askleo play "@),
    ensures
        ({
            let author_id = data.get("author"@).get("id"@).str_or_empty();
            let guild_id = data.get("guild_id"@).str_or_empty();
            let channel = latest_channel(all_entries(events), author_id, None);
            let actions = message_actions(users_behind_all(Map::empty(), events), data, app_id);
            &&& actions == seq![
                ActionModel::Play {
                    guild_id,
                    voice_channel: channel,
                    link: after(data.get("content"@).str_or_empty(), "!askleo play "@.len()),
                },
            ]
            &&& voice_request(actions[0]) == Some(voice_state_tree(guild_id, channel))
        }),
{
    let users = users_behind_all(Map::empty(), events);
    let content = data.get("content"@).str_or_empty();
    channel_is_of_latest_entry(
        Map::empty(),
        events,
        data.get("author"@).get("id"@).str_or_empty(),
    );
    reveal_strlit("!askleo play");
    reveal_strlit("!askleo play ");
    assert(content.take(12) =~= content.take(13).take(12));
    assert("!askleo play "@.take(12) =~= "!askleo play"@);
    assert(starts_with(content, "!askleo play"@));
    listed_commands_are_answered(users, data, app_id);
}

/// Different numbers stand for different images.
pub proof fn image_paths_differ(a: nat, b: nat)
    requires
        image_path(a) == image_path(b),
    ensures
        a == b,
{
    let front = "images/leo_"@;
    let back = ".jpg"@;
    let path = image_path(a);
    assert(path.len() == front.len() + decimal(a).len() + back.len());
    assert(path.len() == front.len() + decimal(b).len() + back.len());
    assert(decimal(a) =~= path.subrange(
        front.len() as int,
        (front.len() + decimal(a).len()) as int,
    ));
    assert(decimal(b) =~= path.subrange(
        front.len() as int,
        (front.len() + decimal(b).len()) as int,
    ));
    decimal_reads_back(a);
    decimal_reads_back(b);
}

/// A voice server that an event names is made known with the very endpoint, token and guild of the
/// event, however long they are.
pub proof fn voice_server_is_published_whole(
    users: Users,
    tree: JsonTree,
    app_id: Option<Seq<char>>,
    endpoint: Seq<char>,
    token: Seq<char>,
    guild_id: Seq<char>,
)
    requires
        tree.get("op"@) == JsonTree::UInt(0),
        tree.get("t"@) == JsonTree::Str("VOICE_SERVER_UPDATE"@),
        tree.get("d"@).get("endpoint"@) == JsonTree::Str(endpoint),
        tree.get("d"@).get("token"@) == JsonTree::Str(token),
        tree.get("d"@).get("guild_id"@) == JsonTree::Str(guild_id),
        endpoint.len() > 0,
    ensures
        event_actions(users, tree, app_id) == seq![
            ActionModel::PublishVoiceServer { endpoint, token, guild_id },
        ],
        users_behind(users, tree) == users,
{
    lemma_event_names_differ();
    assert(event_actions(users, tree, app_id) =~= seq![
        ActionModel::PublishVoiceServer { endpoint, token, guild_id },
    ]);
}

/// A voice server without an endpoint or a token is not made known.
pub proof fn unusable_voice_server_is_not_published(
    users: Users,
    tree: JsonTree,
    app_id: Option<Seq<char>>,
)
    requires
        tree.get("op"@) == JsonTree::UInt(0),
        tree.get("t"@) == JsonTree::Str("VOICE_SERVER_UPDATE"@),
        !(tree.get("d"@).get("endpoint"@) is Str) || tree.get("d"@).get("endpoint"@)
            == JsonTree::Str(Seq::empty()) || !(tree.get("d"@).get("token"@) is Str),
    ensures
        event_actions(users, tree, app_id).len() == 0,
{
    lemma_event_names_differ();
}

/// A greeting makes known the session, the user and how to resume, each as the event has it.
pub proof fn greeting_is_published_whole(
    users: Users,
    tree: JsonTree,
    app_id: Option<Seq<char>>,
    session: Option<Seq<char>>,
    user: Option<Seq<char>>,
    url: Option<Seq<char>>,
)
    requires
        tree.get("op"@) == JsonTree::UInt(0),
        tree.get("t"@) == JsonTree::Str("READY"@),
        tree.get("d"@).get("session_id"@).as_str() == session,
        tree.get("d"@).get("user"@).get("id"@).as_str() == user,
        tree.get("d"@).get("resume_gateway_url"@).as_str() == url,
    ensures
        users_behind(users, tree) == users,
        session is Some && user is Some ==> event_actions(users, tree, app_id) == seq![
            ActionModel::PublishSession(session->0),
            ActionModel::PublishUser(user->0),
            ActionModel::PublishResume(session, url),
        ],
        session is Some && user is None ==> event_actions(users, tree, app_id) == seq![
            ActionModel::PublishSession(session->0),
            ActionModel::PublishResume(session, url),
        ],
        session is None && user is Some ==> event_actions(users, tree, app_id) == seq![
            ActionModel::PublishUser(user->0),
            ActionModel::PublishResume(None, url),
        ],
        session is None && user is None ==> event_actions(users, tree, app_id) == seq![
            ActionModel::PublishResume(None, url),
        ],
{
    lemma_event_names_differ();
}

/// A changed voice state moves its user to the channel that it names, or to none, and moves nobody
/// else. Where the bot is, is made known when the user is the bot.
pub proof fn voice_state_moves_its_user(
    users: Users,
    tree: JsonTree,
    bot_id: Seq<char>,
    user_id: Seq<char>,
    channel: Option<Seq<char>>,
    guild_id: Seq<char>,
    other: Seq<char>,
)
    requires
        tree.get("op"@) == JsonTree::UInt(0),
        tree.get("t"@) == JsonTree::Str("VOICE_STATE_UPDATE"@),
        tree.get("d"@).get("user_id"@) == JsonTree::Str(user_id),
        tree.get("d"@).get("channel_id"@).as_str() == channel,
        tree.get("d"@).get("guild_id"@) == JsonTree::Str(guild_id),
        other != user_id,
    ensures
        users_behind(users, tree).dom().contains(user_id),
        users_behind(users, tree)[user_id] == channel,
        users_behind(users, tree).dom().contains(other) == users.dom().contains(other),
        users.dom().contains(other) ==> users_behind(users, tree)[other] == users[other],
        user_id == bot_id ==> event_actions(users, tree, Some(bot_id)) == seq![
            ActionModel::PublishBotVoice(guild_id, channel),
        ],
        user_id != bot_id ==> event_actions(users, tree, Some(bot_id)).len() == 0,
        user_id.len() > 0 ==> event_actions(users, tree, None).len() == 0,
{
    lemma_event_names_differ();
    assert(user_id.len() > 0 ==> user_id != Seq::<char>::empty());
}

/// The voice states of a guild move each user to the channel of their last state, and nobody else;
/// nothing else comes of them.
pub proof fn guild_moves_its_users(
    users: Users,
    tree: JsonTree,
    app_id: Option<Seq<char>>,
    states: Seq<JsonTree>,
    user_id: Seq<char>,
    i: int,
)
    requires
        tree.get("op"@) == JsonTree::UInt(0),
        tree.get("t"@) == JsonTree::Str("GUILD_CREATE"@),
        tree.get("d"@).get("voice_states"@) == JsonTree::Array(states),
        -1 <= i < states.len(),
        i >= 0 ==> states[i].get("user_id"@) == JsonTree::Str(user_id),
        user_id.len() > 0,
        forall|k: int|
            i < k < states.len() ==> (#[trigger] states[k]).get("user_id"@) != JsonTree::Str(
                user_id,
            ),
    ensures
        i >= 0 ==> users_behind(users, tree).dom().contains(user_id) && users_behind(
            users,
            tree,
        )[user_id] == states[i].get("channel_id"@).as_str(),
        i == -1 ==> users_behind(users, tree).dom().contains(user_id) == users.dom().contains(
            user_id,
        ),
        i == -1 && users.dom().contains(user_id) ==> users_behind(users, tree)[user_id]
            == users[user_id],
        event_actions(users, tree, app_id).len() == 0,
{
    lemma_event_names_differ();
    lemma_last_state_counts(users, states, user_id, i);
}

proof fn lemma_last_state_counts(
    users: Users,
    states: Seq<JsonTree>,
    user_id: Seq<char>,
    i: int,
)
    requires
        -1 <= i < states.len(),
        i >= 0 ==> states[i].get("user_id"@) == JsonTree::Str(user_id),
        user_id.len() > 0,
        forall|k: int|
            i < k < states.len() ==> (#[trigger] states[k]).get("user_id"@) != JsonTree::Str(
                user_id,
            ),
    ensures
        ({
            let behind = with_voice_states(users, states);
            &&& i >= 0 ==> behind.dom().contains(user_id) && behind[user_id] == states[i].get(
                "channel_id"@,
            ).as_str()
            &&& i == -1 ==> behind.dom().contains(user_id) == users.dom().contains(user_id)
            &&& i == -1 && users.dom().contains(user_id) ==> behind[user_id] == users[user_id]
        }),
    decreases states.len(),
{
    if states.len() > 0 {
        let last = states.last();
        assert(last == states[states.len() - 1]);
        if i < states.len() - 1 {
            let shorter = states.drop_last();
            assert forall|k: int| i < k < shorter.len() implies (#[trigger] shorter[k]).get(
                "user_id"@,
            ) != JsonTree::Str(user_id) by {
                assert(shorter[k] == states[k]);
            }
            if i >= 0 {
                assert(shorter[i] == states[i]);
            }
            lemma_last_state_counts(users, shorter, user_id, i);
            assert(last.get("user_id"@).str_or_empty() != user_id);
        }
    }
}

/// Frames that are no event, and events of another name, move nobody and make the bot do nothing.
pub proof fn other_events_do_nothing(users: Users, tree: JsonTree, app_id: Option<Seq<char>>)
    requires
        tree.get("op"@) != JsonTree::UInt(0) || !(tree.get("t"@) is Str) || (tree.get("t"@)
            != JsonTree::Str("READY"@) && tree.get("t"@) != JsonTree::Str("GUILD_CREATE"@)
            && tree.get("t"@) != JsonTree::Str("VOICE_STATE_UPDATE"@) && tree.get("t"@)
            != JsonTree::Str("VOICE_SERVER_UPDATE"@) && tree.get("t"@) != JsonTree::Str(
            "MESSAGE_CREATE"@,
        )),
    ensures
        users_behind(users, tree) == users,
        event_actions(users, tree, app_id).len() == 0,
{
}

/// An application id of digits without a zero in front is the id of the bot as it stands, and so is
/// one that is neither empty nor a number; zeros in front do not count, and no id stands for 0.
pub proof fn bot_goes_by_its_application_id(app_id: Seq<char>, n: nat)
    ensures
        app_id.len() > 0 && app_id[0] != '0' && (forall|i: int|
            0 <= i < app_id.len() ==> 48 <= #[trigger] app_id[i] as int <= 57) ==> own_author_id(
            app_id,
        ) == app_id,
        app_id.len() > 0 && app_id[0] != '+' && app_id[0] != '-' && !(48 <= app_id[0] as int <= 57)
            ==> own_author_id(app_id) == app_id,
        app_id.len() > 0 && (forall|i: int|
            0 <= i < app_id.len() ==> 48 <= #[trigger] app_id[i] as int <= 57)
            ==> decimal_value(own_author_id(app_id)) == decimal_value(app_id) && own_author_id(
            app_id,
        ) == decimal(decimal_value(app_id)),
        own_author_id(decimal(n)) == decimal(n),
        own_author_id(Seq::empty()) == seq!['0'],
{
    notation_is_exact(n);
    notation_is_exact(0);
    numbers_are_denoted(n as int, decimal(n), app_id);
    numbers_are_denoted(0, decimal(0), Seq::empty());
    if app_id.len() > 0 && (forall|i: int|
        0 <= i < app_id.len() ==> 48 <= #[trigger] app_id[i] as int <= 57) {
        numbers_are_denoted(decimal_value(app_id) as int, app_id, app_id);
        notation_is_exact(decimal_value(app_id));
        assert forall|i: int| 0 <= i < app_id.len() implies crate::text::is_digit(
            #[trigger] app_id[i],
        ) by {}
        if app_id[0] != '0' {
            digits_are_notation(app_id);
        }
    }
}

/// A message of the bot itself makes it do nothing, however long its id is.
pub proof fn bot_never_answers_itself(users: Users, tree: JsonTree, app_id: Seq<char>)
    requires
        tree.get("op"@) == JsonTree::UInt(0),
        tree.get("t"@) == JsonTree::Str("MESSAGE_CREATE"@),
        app_id.len() > 0,
        app_id[0] != '0',
        forall|i: int| 0 <= i < app_id.len() ==> 48 <= #[trigger] app_id[i] as int <= 57,
        tree.get("d"@).get("author"@).get("id"@) == JsonTree::Str(app_id),
    ensures
        event_actions(users, tree, Some(app_id)).len() == 0,
        users_behind(users, tree) == users,
{
    lemma_event_names_differ();
    bot_goes_by_its_application_id(app_id, 0);
}

/// A request to play is answered by playing the very link that follows the command, character by
/// character, in the channel that its author is in.
pub proof fn play_takes_the_whole_link(
    users: Users,
    tree: JsonTree,
    app_id: Seq<char>,
    author_id: Seq<char>,
    link: Seq<char>,
    channel_id: Seq<char>,
    guild_id: Seq<char>,
)
    requires
        tree.get("op"@) == JsonTree::UInt(0),
        tree.get("t"@) == JsonTree::Str("MESSAGE_CREATE"@),
        tree.get("d"@).get("author"@).get("id"@) == JsonTree::Str(author_id),
        tree.get("d"@).get("content"@) == JsonTree::Str("!askleo play "@ + link),
        tree.get("d"@).get("channel_id"@) == JsonTree::Str(channel_id),
        tree.get("d"@).get("guild_id"@) == JsonTree::Str(guild_id),
        author_id != own_author_id(app_id),
    ensures
        users.dom().contains(author_id) ==> event_actions(users, tree, Some(app_id)) == seq![
            ActionModel::Play { guild_id, voice_channel: users[author_id], link },
        ],
        !users.dom().contains(author_id) ==> event_actions(users, tree, Some(app_id)) == seq![
            ActionModel::Play { guild_id, voice_channel: None, link },
        ],
{
    lemma_event_names_differ();
    let content = "!askleo play "@ + link;
    prefix_stands_in_front("!askleo play "@, link, content);
    reveal_strlit("!askleo play");
    reveal_strlit("!askleo play ");
    assert(content.take(12) =~= "!askleo play"@);
    listed_commands_are_answered(users, tree.get("d"@), app_id);
}

/// Each of the other commands, with anything behind it, is answered in its own way and in no other.
pub proof fn commands_lead_to_their_actions(
    users: Users,
    tree: JsonTree,
    app_id: Seq<char>,
    author_id: Seq<char>,
    content: Seq<char>,
    rest: Seq<char>,
    channel_id: Seq<char>,
    guild_id: Seq<char>,
)
    requires
        tree.get("op"@) == JsonTree::UInt(0),
        tree.get("t"@) == JsonTree::Str("MESSAGE_CREATE"@),
        tree.get("d"@).get("author"@).get("id"@) == JsonTree::Str(author_id),
        tree.get("d"@).get("content"@) == JsonTree::Str(content),
        tree.get("d"@).get("channel_id"@) == JsonTree::Str(channel_id),
        tree.get("d"@).get("guild_id"@) == JsonTree::Str(guild_id),
        author_id != own_author_id(app_id),
    ensures
        content == "!askleo help"@ + rest ==> event_actions(users, tree, Some(app_id)) == seq![
            ActionModel::SendText {
                channel_id,
                text: "**Leo Cap-lan Bot Commands:**\n\n\
    `!askleo play <youtube_url>` - Play audio from a YouTube video in the voice channel\n\
    `!askleo leave` - Leave the current voice channel\n\
    `!askleo slanderleo` - Send the slander image of Leo\n\
    `!askleo randomleo` - Get a random image of Leo\n\n\
    Use `!askleo help` to see this message again."@,
                in_background: true,
            },
        ],
        content == "!askleo play"@ + rest && (rest.len() == 0 || rest[0] != ' ') ==> event_actions(
            users,
            tree,
            Some(app_id),
        ) == seq![
            ActionModel::SendText {
                channel_id,
                text: "Invalid link was sent"@,
                in_background: false,
            },
        ],
        content == "!askleo slanderleo"@ + rest ==> event_actions(users, tree, Some(app_id))
            == seq![
            ActionModel::SendImage {
                channel_id,
                text: "Here is an image of Leo"@,
                path: "images/leo_slander.jpg"@,
            },
        ],
        content == "!askleo randomleo"@ + rest ==> event_actions(users, tree, Some(app_id)) == seq![
            ActionModel::SendRandomImage { channel_id, text: "Here is an image of Leo"@ },
        ],
        content == "!askleo leave"@ + rest ==> event_actions(users, tree, Some(app_id)) == seq![
            ActionModel::Leave { guild_id },
        ],
{
    lemma_event_names_differ();
    listed_commands_are_answered(users, tree.get("d"@), app_id);
    prefix_stands_in_front("!askleo help"@, rest, content);
    prefix_stands_in_front("!askleo play"@, rest, content);
    prefix_stands_in_front("!askleo slanderleo"@, rest, content);
    prefix_stands_in_front("!askleo randomleo"@, rest, content);
    prefix_stands_in_front("!askleo leave"@, rest, content);
    if content == "!askleo play"@ + rest && (rest.len() == 0 || rest[0] != ' ') {
        reveal_strlit("!askleo play");
        reveal_strlit("!askleo play ");
        if starts_with(content, "!askleo play "@) {
            lemma_prefix_char(content, "!askleo play "@, 12);
            assert(content[12] == rest[0]);
        }
    }
}

/// A message that is none of the commands, whatever else it says, makes the bot do nothing.
pub proof fn only_commands_are_answered(users: Users, tree: JsonTree, app_id: Seq<char>)
    requires
        tree.get("op"@) == JsonTree::UInt(0),
        tree.get("t"@) == JsonTree::Str("MESSAGE_CREATE"@),
        forall|rest: Seq<char>|
            tree.get("d"@).get("content"@) != JsonTree::Str(#[trigger] ("!askleo help"@ + rest)),
        forall|rest: Seq<char>|
            tree.get("d"@).get("content"@) != JsonTree::Str(#[trigger] ("!askleo play"@ + rest)),
        forall|rest: Seq<char>|
            tree.get("d"@).get("content"@) != JsonTree::Str(
                #[trigger] ("!askleo slanderleo"@ + rest),
            ),
        forall|rest: Seq<char>|
            tree.get("d"@).get("content"@) != JsonTree::Str(
                #[trigger] ("!askleo randomleo"@ + rest),
            ),
        forall|rest: Seq<char>|
            tree.get("d"@).get("content"@) != JsonTree::Str(#[trigger] ("!askleo leave"@ + rest)),
    ensures
        event_actions(users, tree, Some(app_id)).len() == 0,
        users_behind(users, tree) == users,
{
    lemma_event_names_differ();
    let content = tree.get("d"@).get("content"@).str_or_empty();
    prefix_stands_in_front("!askleo help"@, Seq::empty(), content);
    prefix_stands_in_front("!askleo play"@, Seq::empty(), content);
    prefix_stands_in_front("!askleo slanderleo"@, Seq::empty(), content);
    prefix_stands_in_front("!askleo randomleo"@, Seq::empty(), content);
    prefix_stands_in_front("!askleo leave"@, Seq::empty(), content);
    if !(tree.get("d"@).get("content"@) is Str) {
        reveal_strlit("!askleo help");
        reveal_strlit("!askleo play");
        reveal_strlit("!askleo slanderleo");
        reveal_strlit("!askleo randomleo");
        reveal_strlit("!askleo leave");
    }
}

/// What playing and leaving ask of the gateway: to be in the channel, or in none, of the guild. A
/// listening sender forwards the request as it is.
pub proof fn voice_requests_are_forwarded(
    action: ActionModel,
    guild_id: Seq<char>,
    voice_channel: Option<Seq<char>>,
    link: Seq<char>,
    message: String,
    context: SenderContext,
    next: SenderState,
    sent: SenderAction,
)
    requires
        action == (ActionModel::Play { guild_id, voice_channel, link }) || (action == (
        ActionModel::Leave { guild_id }) && voice_channel is None),
        voice_request(action) is Some ==> json_parsed(message@) == voice_request(action),
        sender_moves(SenderState::Listening, SenderEvent::Outbound(message), context, next, sent),
    ensures
        voice_request(action) matches Some(tree) && tree.get("op"@) == JsonTree::UInt(4)
            && tree.get("d"@).get("guild_id"@) == JsonTree::Str(guild_id) && tree.get("d"@).get(
            "channel_id"@,
        ).as_str() == voice_channel && (voice_channel is None ==> tree.get("d"@).get("channel_id"@)
            == JsonTree::Null),
        next is Forwarding,
        sent matches SenderAction::Forward(text) && text@ == message@,
{
    voice_state_reads_as(guild_id, voice_channel);
    payloads_are_forwarded_unchanged(
        message,
        voice_state_tree(guild_id, voice_channel),
        4,
        context,
        next,
        sent,
    );
}

/// The actions are seen as they are, each text whole, and a list of them one by one.
pub proof fn actions_are_seen_whole(
    a: String,
    b: String,
    c: String,
    x: Option<String>,
    y: Option<String>,
    flag: bool,
    actions: Seq<BotAction>,
)
    ensures
        BotAction::PublishSession(a)@ == ActionModel::PublishSession(a@),
        BotAction::PublishUser(a)@ == ActionModel::PublishUser(a@),
        BotAction::PublishResume(x, y)@ == ActionModel::PublishResume(opt_view(x), opt_view(y)),
        BotAction::PublishBotVoice(a, x)@ == ActionModel::PublishBotVoice(a@, opt_view(x)),
        BotAction::PublishVoiceServer(VoiceServer { endpoint: a, token: b, guild_id: c })@ == (
        ActionModel::PublishVoiceServer { endpoint: a@, token: b@, guild_id: c@ }),
        (BotAction::SendText { channel_id: a, text: b, in_background: flag })@ == (
        ActionModel::SendText { channel_id: a@, text: b@, in_background: flag }),
        (BotAction::Play { guild_id: a, voice_channel: x, link: b })@ == (ActionModel::Play {
            guild_id: a@,
            voice_channel: opt_view(x),
            link: b@,
        }),
        (BotAction::SendImage { channel_id: a, text: b, path: c })@ == (ActionModel::SendImage {
            channel_id: a@,
            text: b@,
            path: c@,
        }),
        (BotAction::SendRandomImage { channel_id: a, text: b })@ == (
        ActionModel::SendRandomImage { channel_id: a@, text: b@ }),
        (BotAction::Leave { guild_id: a })@ == (ActionModel::Leave { guild_id: a@ }),
        action_models(actions).len() == actions.len(),
        forall|i: int| 0 <= i < actions.len() ==> #[trigger] action_models(actions)[i]
            == actions[i]@,
{
}

/// The channel of a user is the one that is noted, and none for a user of whom nothing is noted.
pub proof fn noted_channel_is_found(users: Users, user_id: Seq<char>)
    ensures
        users.dom().contains(user_id) ==> channel_of(users, user_id) == users[user_id],
        !users.dom().contains(user_id) ==> channel_of(users, user_id) is None,
{
}

/// The path of an image is the folder and the beginning of its name, digits that denote its number,
/// and the ending.
pub proof fn image_path_names_its_number(number: nat)
    ensures
        image_path(number).len() > 15,
        image_path(number).take(11) == "images/leo_"@,
        image_path(number).skip(image_path(number).len() - 4) == ".jpg"@,
        ({
            let digits = image_path(number).subrange(11, image_path(number).len() - 4);
            &&& decimal_value(digits) == number
            &&& forall|i: int| 0 <= i < digits.len() ==> 48 <= #[trigger] digits[i] as int <= 57
            &&& number > 0 ==> digits[0] != '0'
        }),
{
    reveal_strlit("images/leo_");
    reveal_strlit(".jpg");
    notation_is_exact(number);
    let path = image_path(number);
    assert(path.take(11) =~= "images/leo_"@);
    assert(path.skip(path.len() - 4) =~= ".jpg"@);
    assert(path.subrange(11, path.len() - 4) =~= decimal(number));
}

/// A guild that tells no voice states moves nobody.
pub proof fn guild_without_states_moves_nobody(
    users: Users,
    tree: JsonTree,
    app_id: Option<Seq<char>>,
)
    requires
        tree.get("op"@) == JsonTree::UInt(0),
        tree.get("t"@) == JsonTree::Str("GUILD_CREATE"@),
        !(tree.get("d"@).get("voice_states"@) is Array),
    ensures
        users_behind(users, tree) == users,
        event_actions(users, tree, app_id).len() == 0,
{
    lemma_event_names_differ();
}

} // verus!
