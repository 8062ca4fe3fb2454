//! The decisions of the bot's command handler: which command a name
//! denotes, what `/summon`, `/play` and `/stop` do with their options, and
//! the text the bot answers with.

use vstd::prelude::*;
use crate::error::{AngyError, AngyResult};
use crate::options::{
    missing_option_message, option_optional_string, option_required_channel,
    option_required_string, OptionValue, OptionsHashMap,
};
use crate::plex::{plex_track_path, plex_track_path_spec, string_result_view, SearchResults};
use crate::schema::registered_commands;
use crate::text::{decimal_spec, push_decimal, starts_with};

verus! {

/// The configuration of the bot that its commands read.
pub struct Config {
    /// The id of the only user allowed to play local files.
    pub dev_user_id: u64,
    /// The base URL of the Plex server.
    pub plex_server: String,
    /// The token that authorizes requests to the Plex server.
    pub plex_token: String,
    /// The Plex library whose results may be played.
    pub plex_library: String,
    /// The part of a Plex file path to replace before opening the file.
    pub plex_replace_from: String,
    /// What replaces `plex_replace_from` in a Plex file path.
    pub plex_replace_to: String,
}

/// The command handler of the bot.
pub struct AngyHandler {
    pub config: Config,
}

/// The command a slash-command name denotes.
#[derive(Debug, Clone, Copy, PartialEq, Eq, Structural)]
pub enum Command {
    Summon,
    Play,
    Stop,
    Unknown,
}

/// The command denoted by the name `name`.
pub open spec fn command_spec(name: Seq<char>) -> Command {
    if name == "summon"@ {
        Command::Summon
    } else if name == "play"@ {
        Command::Play
    } else if name == "stop"@ {
        Command::Stop
    } else {
        Command::Unknown
    }
}

/// Whether two strings hold the same characters.
fn same_text(a: &str, b: &str) -> (r: bool)
    ensures
        r == (a@ == b@),
{
    a.to_owned() == b.to_owned()
}

/// The command a received slash-command name denotes.
pub fn command_for(name: &str) -> (c: Command)
    ensures
        c == command_spec(name@),
{
    if same_text(name, "summon") {
        Command::Summon
    } else if same_text(name, "play") {
        Command::Play
    } else if same_text(name, "stop") {
        Command::Stop
    } else {
        Command::Unknown
    }
}

/// The answer to a command the bot does not know.
pub fn unknown(name: &str) -> (r: AngyResult<String>)
    ensures
        r == Err::<String, AngyError>(AngyError::Bot("Unknown command")),
{
    Err(AngyError::Bot("Unknown command"))
}

/// The error of a command that needs the bot in a voice channel when it is
/// in none.
pub open spec fn not_connected_error() -> AngyError {
    AngyError::User("Not connected to voice.")
}

// ----- /summon -----

/// The voice channel that `/summon` asks the bot to join: the id held by
/// its `channel` option. Any member of the guild may summon the bot: the
/// result is the same whatever `_member_id` sent the command.
pub fn summon_channel(opts: &OptionsHashMap, _member_id: u64) -> (r: AngyResult<u64>)
    requires
        opts@.contains_key("channel"@) ==> opts@["channel"@] is Channel,
    ensures
        r is Ok == opts@.contains_key("channel"@),
        r matches Ok(id) ==> opts@["channel"@] == OptionValue::Channel(id),
        r matches Err(e) ==> e == AngyError::User(missing_option_message()),
{
    let id = option_required_channel(opts, "channel")?;
    Ok(*id)
}

/// The answer of `/summon` once the bot joined the channel `channel`.
pub fn joined_message(channel: u64) -> (r: String)
    ensures
        r@ == ":crystal_ball: Joined channel <#"@ + decimal_spec(channel as nat) + ">!"@,
{
    let mut r = ":crystal_ball: Joined channel <#".to_owned();
    push_decimal(&mut r, channel);
    r.append(">!");
    r
}

// ----- /stop -----

/// The answer of `/stop`: the bot stops the track of the voice connection
/// `connected` tells it has, or answers that it has none.
pub fn stop_reply(connected: bool) -> (r: AngyResult<String>)
    ensures
        !connected ==> r == Err::<String, AngyError>(not_connected_error()),
        connected ==> (r matches Ok(t) && t@ == ":stop_button: Stopped playing current track."@),
{
    if !connected {
        return Err(AngyError::User("Not connected to voice."));
    }
    Ok(":stop_button: Stopped playing current track.".to_owned())
}

// ----- /play -----

/// Where `/play` takes its audio from.
pub enum PlaySource {
    /// A URL or a search query handed to yt-dlp.
    Ytdl(String),
    /// A path on the local computer.
    File(String),
    /// A query to search on the configured Plex library.
    Plex(String),
}

/// The view of a `PlaySource`.
pub enum PlaySourceView {
    Ytdl(Seq<char>),
    File(Seq<char>),
    Plex(Seq<char>),
}

impl View for PlaySource {
    type V = PlaySourceView;

    open spec fn view(&self) -> PlaySourceView {
        match self {
            PlaySource::Ytdl(s) => PlaySourceView::Ytdl(s@),
            PlaySource::File(s) => PlaySourceView::File(s@),
            PlaySource::Plex(s) => PlaySourceView::Plex(s@),
        }
    }
}

/// Whether `s` begins with `prefix`.
pub open spec fn has_prefix(s: Seq<char>, prefix: Seq<char>) -> bool {
    prefix.len() <= s.len() && s.take(prefix.len() as int) == prefix
}

/// What yt-dlp is asked for: `what` itself when it is an http(s) URL, a
/// search for it otherwise.
pub open spec fn ytdl_target_spec(what: Seq<char>) -> Seq<char> {
    if has_prefix(what, "http://"@) || has_prefix(what, "https://"@) {
        what
    } else {
        "ytsearch:"@ + what
    }
}

/// What yt-dlp is asked for when `/play ytdl` is given `what`.
pub fn ytdl_target(what: &str) -> (r: String)
    ensures
        r@ == ytdl_target_spec(what@),
{
    if starts_with(what, "http://") || starts_with(what, "https://") {
        what.to_owned()
    } else {
        let r = "ytsearch:".to_owned();
        r.concat(what)
    }
}

/// The options `/play` reads hold strings. `what` is read first; `ytdl`
/// only when `what` is given and the bot is `connected`; `file` only when,
/// besides, `ytdl` is absent; `plex` only when `file` is absent too.
pub open spec fn play_options_are_strings(opts: Map<Seq<char>, OptionValue>, connected: bool) -> bool {
    let reads_sub_commands = opts.contains_key("what"@) && connected;
    &&& opts.contains_key("what"@) ==> opts["what"@] is String
    &&& reads_sub_commands && opts.contains_key("ytdl"@) ==> opts["ytdl"@] is String
    &&& reads_sub_commands && !opts.contains_key("ytdl"@) && opts.contains_key("file"@)
        ==> opts["file"@] is String
    &&& reads_sub_commands && !opts.contains_key("ytdl"@) && !opts.contains_key("file"@)
        && opts.contains_key("plex"@) ==> opts["plex"@] is String
}

/// The source `/play` takes its audio from, given its options `opts`, the
/// user `member` who sent it, the owner `dev_user` of the bot and whether
/// the bot is `connected` to a voice channel; or the error it answers.
pub open spec fn plan_play_spec(
    opts: Map<Seq<char>, OptionValue>,
    member: u64,
    dev_user: u64,
    connected: bool,
) -> Result<PlaySourceView, AngyError> {
    if !opts.contains_key("what"@) {
        Err(AngyError::User(missing_option_message()))
    } else if !connected {
        Err(not_connected_error())
    } else {
        let what = opts["what"@]->String_0@;
        if opts.contains_key("ytdl"@) {
            Ok(PlaySourceView::Ytdl(ytdl_target_spec(what)))
        } else if opts.contains_key("file"@) {
            if member == dev_user {
                Ok(PlaySourceView::File(what))
            } else {
                Err(AngyError::User("This command can be used only by the bot's owner."))
            }
        } else if opts.contains_key("plex"@) {
            Ok(PlaySourceView::Plex(what))
        } else {
            Err(AngyError::User("Unknown subcommand."))
        }
    }
}

/// The view of a planned source.
pub open spec fn plan_view(r: AngyResult<PlaySource>) -> Result<PlaySourceView, AngyError> {
    match r {
        Ok(s) => Ok(s@),
        Err(e) => Err(e),
    }
}

/// The track name shown when the audio source tells none.
pub open spec fn unknown_track_name() -> Seq<char> {
    "*unknown track*"@
}

/// How a playing track is shown: its name (its track name, else its title,
/// else `*unknown track*`), linked to its URL when it has one.
pub open spec fn track_text_spec(
    track: Option<Seq<char>>,
    title: Option<Seq<char>>,
    url: Option<Seq<char>>,
) -> Seq<char> {
    let name = match track {
        Some(t) => t,
        None => match title {
            Some(t) => t,
            None => unknown_track_name(),
        },
    };
    match url {
        None => name,
        Some(u) => "["@ + name + "](<"@ + u + ">)"@,
    }
}

/// The view of an optional string.
pub open spec fn opt_view(s: Option<String>) -> Option<Seq<char>> {
    match s {
        Some(t) => Some(t@),
        None => None,
    }
}

/// How a playing track is shown, from the metadata of its audio source.
pub fn track_text(track: Option<String>, title: Option<String>, url: Option<String>) -> (r: String)
    ensures
        r@ == track_text_spec(opt_view(track), opt_view(title), opt_view(url)),
{
    let name = match track {
        Some(t) => t,
        None => match title {
            Some(t) => t,
            None => "*unknown track*".to_owned(),
        },
    };
    match url {
        None => name,
        Some(u) => {
            let mut r = "[".to_owned();
            r.append(name.as_str());
            r.append("](<");
            r.append(u.as_str());
            r.append(">)");
            r
        },
    }
}

/// The answer of `/play` once the track shown as `track_text` plays.
pub fn now_playing_message(track_text: &str) -> (r: String)
    ensures
        r@ == "\u{fe0f}:arrow_forward: Now playing: **"@ + track_text@ + "**"@,
{
    let mut r = "\u{fe0f}:arrow_forward: Now playing: **".to_owned();
    r.append(track_text);
    r.append("**");
    r
}

impl AngyHandler {
    /// The source `/play` takes its audio from, given its options `opts`,
    /// the id of the user `member_id` who sent it and whether the bot is
    /// `connected` to a voice channel of the guild.
    pub fn plan_play(&self, opts: &OptionsHashMap, member_id: u64, connected: bool) -> (r:
        AngyResult<PlaySource>)
        requires
            play_options_are_strings(opts@, connected),
        ensures
            plan_view(r) == plan_play_spec(opts@, member_id, self.config.dev_user_id, connected),
    {
        let what = option_required_string(opts, "what")?;
        if !connected {
            return Err(AngyError::User("Not connected to voice."));
        }
        if option_optional_string(opts, "ytdl").is_some() {
            Ok(PlaySource::Ytdl(ytdl_target(what.as_str())))
        } else if option_optional_string(opts, "file").is_some() {
            if member_id == self.config.dev_user_id {
                Ok(PlaySource::File(what.clone()))
            } else {
                Err(AngyError::User("This command can be used only by the bot's owner."))
            }
        } else if option_optional_string(opts, "plex").is_some() {
            Ok(PlaySource::Plex(what.clone()))
        } else {
            Err(AngyError::User("Unknown subcommand."))
        }
    }

    /// The URL of the Plex search endpoint.
    pub fn plex_search_url(&self) -> (r: String)
        ensures
            r@ == self.config.plex_server@ + "/hubs/search/"@,
    {
        let r = self.config.plex_server.clone();
        r.concat("/hubs/search/")
    }

    /// The query parameters of a Plex search for `what`.
    pub fn plex_search_query(&self, what: &str) -> (r: Vec<(String, String)>)
        ensures
            r@.len() == 5,
            r@[0].0@ == "X-Plex-Token"@ && r@[0].1@ == self.config.plex_token@,
            r@[1].0@ == "query"@ && r@[1].1@ == what@,
            r@[2].0@ == "limit"@ && r@[2].1@ == "25"@,
            r@[3].0@ == "includeCollections"@ && r@[3].1@ == "0"@,
            r@[4].0@ == "includeExternalMedia"@ && r@[4].1@ == "0"@,
    {
        let mut r: Vec<(String, String)> = Vec::new();
        r.push(("X-Plex-Token".to_owned(), self.config.plex_token.clone()));
        r.push(("query".to_owned(), what.to_owned()));
        r.push(("limit".to_owned(), "25".to_owned()));
        r.push(("includeCollections".to_owned(), "0".to_owned()));
        r.push(("includeExternalMedia".to_owned(), "0".to_owned()));
        r
    }

    /// The path of the file to play for the Plex search answer `results`,
    /// taken from the configured library and rewritten by the configured
    /// replacement.
    pub fn plex_track_path(&self, results: &SearchResults) -> (r: AngyResult<String>)
        ensures
            string_result_view(r) == plex_track_path_spec(
                *results,
                self.config.plex_library@,
                self.config.plex_replace_from@,
                self.config.plex_replace_to@,
            ),
    {
        plex_track_path(
            results,
            self.config.plex_library.as_str(),
            self.config.plex_replace_from.as_str(),
            self.config.plex_replace_to.as_str(),
        )
    }
}

// ----- the answer -----

/// The text the bot answers a command with: the command's own text when it
/// succeeded, a warning for an error of the user, and for any other error
/// its `rendering` in a code block.
pub open spec fn reply_content_spec(result: Result<Seq<char>, AngyError>, rendering: Seq<char>) -> Seq<
    char,
> {
    match result {
        Ok(t) => t,
        Err(AngyError::User(t)) => ":warning: "@ + t@,
        Err(_) => ":no_entry: Unexpected error occurred:\n```rust\n"@ + rendering + "\n```"@,
    }
}

/// The text the bot answers a command with, given the command's `result`
/// and, for an error, the `rendering` of that error.
pub fn reply_content(result: &AngyResult<String>, rendering: &str) -> (r: String)
    ensures
        r@ == reply_content_spec(string_result_view(*result), rendering@),
{
    match result {
        Ok(t) => t.clone(),
        Err(AngyError::User(t)) => {
            let r = ":warning: ".to_owned();
            r.concat(t)
        },
        Err(_) => {
            let mut r = ":no_entry: Unexpected error occurred:\n```rust\n".to_owned();
            r.append(rendering);
            r.append("\n```");
            r
        },
    }
}

// ----- laws -----

/// Only the owner of the bot may play a local file.
pub proof fn law_file_playback_only_for_owner(
    opts: Map<Seq<char>, OptionValue>,
    member: u64,
    dev_user: u64,
    connected: bool,
)
    ensures
        plan_play_spec(opts, member, dev_user, connected) matches Ok(PlaySourceView::File(_))
            ==> member == dev_user,
{
}

/// `/play` plays nothing while the bot is in no voice channel.
pub proof fn law_play_needs_voice(
    opts: Map<Seq<char>, OptionValue>,
    member: u64,
    dev_user: u64,
    connected: bool,
)
    ensures
        plan_play_spec(opts, member, dev_user, connected) is Ok ==> connected,
{
}

/// Every command the bot registers is dispatched to its own handler.
pub proof fn law_registered_commands_are_known()
    ensures
        forall|i: int|
            0 <= i < registered_commands().len() ==> command_spec(
                #[trigger] registered_commands()[i].name,
            ) != Command::Unknown,
{
    let reg = registered_commands();
    reveal_strlit("summon");
    reveal_strlit("play");
    reveal_strlit("stop");
    assert("play"@.len() != "summon"@.len());
    assert("stop"@.len() != "summon"@.len());
    assert("stop"@[0] != "play"@[0]);
    assert(command_spec(reg[0].name) == Command::Summon);
    assert(command_spec(reg[1].name) == Command::Play);
    assert(command_spec(reg[2].name) == Command::Stop);
}

/// Every sub-command the bot registers for `/play` is one `/play` plays
/// from: a command that carries it and its `what` option, sent by the owner
/// while the bot is in a voice channel, is planned, never refused as an
/// unknown sub-command.
pub proof fn law_play_sub_commands_are_known(sub: int, what: String, member: u64)
    requires
        0 <= sub < registered_commands()[1].options.len(),
    ensures
        ({
            let name = registered_commands()[1].options[sub].name;
            let opts = Map::<Seq<char>, OptionValue>::empty().insert(
                "what"@,
                OptionValue::String(what),
            ).insert(name, OptionValue::String(what));
            plan_play_spec(opts, member, member, true) is Ok
        }),
{
    let reg = registered_commands();
    reveal_strlit("what");
    reveal_strlit("ytdl");
    reveal_strlit("file");
    reveal_strlit("plex");
    assert(reg[1].options[0].name == "ytdl"@);
    assert(reg[1].options[1].name == "file"@);
    assert(reg[1].options[2].name == "plex"@);
    assert("ytdl"@[0] != "what"@[0]);
    assert("file"@[0] != "what"@[0]);
    assert("plex"@[0] != "what"@[0]);
    assert("file"@[0] != "ytdl"@[0]);
    assert("plex"@[0] != "ytdl"@[0]);
    assert("plex"@[0] != "file"@[0]);
}

/// A text begins with `http://` or `https://`.
pub open spec fn is_web_url(what: Seq<char>) -> bool {
    ||| what.len() >= "http://"@.len() && what.subrange(0, "http://"@.len() as int) == "http://"@
    ||| what.len() >= "https://"@.len() && what.subrange(0, "https://"@.len() as int)
        == "https://"@
}

/// yt-dlp is handed an http(s) URL as it is, and anything else as the
/// search `ytsearch:` followed by the text; either way the text ends the
/// target.
pub proof fn law_ytdl_target(what: Seq<char>)
    ensures
        is_web_url(what) ==> ytdl_target_spec(what) == what,
        !is_web_url(what) ==> ytdl_target_spec(what) == "ytsearch:"@ + what,
        ytdl_target_spec(what).len() >= what.len(),
        ytdl_target_spec(what).subrange(
            ytdl_target_spec(what).len() - what.len(),
            ytdl_target_spec(what).len() as int,
        ) == what,
{
    if what.len() >= "https://"@.len() {
        assert(what.take("https://"@.len() as int) =~= what.subrange(0, "https://"@.len() as int));
    }
    if what.len() >= "http://"@.len() {
        assert(what.take("http://"@.len() as int) =~= what.subrange(0, "http://"@.len() as int));
    }
    let t = ytdl_target_spec(what);
    assert(t.subrange(t.len() - what.len(), t.len() as int) =~= what);
}

/// The track is shown by its track name, else its title, else
/// `*unknown track*`; with a URL, that same name is shown as a link to it.
pub proof fn law_track_text(
    track: Option<Seq<char>>,
    title: Option<Seq<char>>,
    url: Seq<char>,
    name: Seq<char>,
)
    ensures
        track_text_spec(Some(name), title, None) == name,
        track_text_spec(None, Some(name), None) == name,
        track_text_spec(None, None, None) == "*unknown track*"@,
        track_text_spec(track, title, Some(url)) == "["@ + track_text_spec(track, title, None)
            + "](<"@ + url + ">)"@,
{
}

/// A command that succeeded answers its own text; an error of the user is
/// answered as a warning with its message; any other error is answered
/// with its rendering in a `rust` code block.
pub proof fn law_reply_content(text: Seq<char>, message: &'static str, other: AngyError, rendering: Seq<char>)
    ensures
        reply_content_spec(Ok(text), rendering) == text,
        reply_content_spec(Err(AngyError::User(message)), rendering) == ":warning: "@ + message@,
        !(other is User) ==> reply_content_spec(Err(other), rendering)
            == ":no_entry: Unexpected error occurred:\n```rust\n"@ + rendering + "\n```"@,
{
}

/// The names `summon`, `play` and `stop` denote their commands, and every
/// other name denotes none.
pub proof fn law_command_names(name: Seq<char>)
    ensures
        (command_spec(name) == Command::Summon) == (name == "summon"@),
        (command_spec(name) == Command::Play) == (name == "play"@),
        (command_spec(name) == Command::Stop) == (name == "stop"@),
        (command_spec(name) == Command::Unknown) == (name != "summon"@ && name != "play"@ && name
            != "stop"@),
{
    reveal_strlit("summon");
    reveal_strlit("play");
    reveal_strlit("stop");
    assert("play"@.len() != "summon"@.len());
    assert("stop"@.len() != "summon"@.len());
    assert("stop"@[0] != "play"@[0]);
}

/// What `/play` plans once it has `what` and the voice connection: yt-dlp
/// when the `ytdl` sub-command is given, else the local file `what` for the
/// owner only when `file` is given, else a Plex search for `what` when
/// `plex` is given, else nothing; without `what` it asks for it.
pub proof fn law_play_plan(
    opts: Map<Seq<char>, OptionValue>,
    member: u64,
    dev_user: u64,
    connected: bool,
    what: String,
)
    ensures
        !opts.contains_key("what"@) ==> plan_play_spec(opts, member, dev_user, connected) == Err::<
            PlaySourceView,
            AngyError,
        >(AngyError::User("A required option is missing.")),
        ({
            let given = opts.contains_key("what"@) && opts["what"@] == OptionValue::String(what)
                && connected;
            let plan = plan_play_spec(opts, member, dev_user, connected);
            &&& given && opts.contains_key("ytdl"@) ==> plan == Ok::<PlaySourceView, AngyError>(
                PlaySourceView::Ytdl(ytdl_target_spec(what@)),
            )
            &&& given && !opts.contains_key("ytdl"@) && opts.contains_key("file"@) ==> plan == if member
                == dev_user {
                Ok(PlaySourceView::File(what@))
            } else {
                Err(AngyError::User("This command can be used only by the bot's owner."))
            }
            &&& given && !opts.contains_key("ytdl"@) && !opts.contains_key("file"@)
                && opts.contains_key("plex"@) ==> plan == Ok::<PlaySourceView, AngyError>(
                PlaySourceView::Plex(what@),
            )
            &&& given && !opts.contains_key("ytdl"@) && !opts.contains_key("file"@)
                && !opts.contains_key("plex"@) ==> plan == Err::<PlaySourceView, AngyError>(
                AngyError::User("Unknown subcommand."),
            )
        }),
{
}

} // verus!
