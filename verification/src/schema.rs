//! The slash commands the bot registers in its guild.

use vstd::prelude::*;

verus! {

/// The kind of a slash-command option.
#[derive(Debug, Clone, Copy, PartialEq, Eq, Structural)]
pub enum OptionKind {
    SubCommand,
    String,
    Channel,
}

/// A kind of channel an option may point to.
#[derive(Debug, Clone, Copy, PartialEq, Eq, Structural)]
pub enum ChannelKind {
    Voice,
}

/// An option of a sub-command.
pub struct SubOptionSchema {
    pub kind: OptionKind,
    pub name: String,
    pub description: String,
    pub required: bool,
}

/// An option of a command.
pub struct OptionSchema {
    pub kind: OptionKind,
    pub name: String,
    pub description: String,
    pub required: bool,
    /// The kinds of channel the option accepts (all, when empty).
    pub channel_types: Vec<ChannelKind>,
    /// The options of the option, when it is a sub-command.
    pub sub_options: Vec<SubOptionSchema>,
}

/// A slash command.
pub struct CommandSchema {
    pub name: String,
    pub description: String,
    pub options: Vec<OptionSchema>,
}

/// The view of a `SubOptionSchema`.
pub struct SubOptionView {
    pub kind: OptionKind,
    pub name: Seq<char>,
    pub description: Seq<char>,
    pub required: bool,
}

/// The view of an `OptionSchema`.
pub struct OptionView {
    pub kind: OptionKind,
    pub name: Seq<char>,
    pub description: Seq<char>,
    pub required: bool,
    pub channel_types: Seq<ChannelKind>,
    pub sub_options: Seq<SubOptionView>,
}

/// The view of a `CommandSchema`.
pub struct CommandView {
    pub name: Seq<char>,
    pub description: Seq<char>,
    pub options: Seq<OptionView>,
}

impl View for SubOptionSchema {
    type V = SubOptionView;

    open spec fn view(&self) -> SubOptionView {
        SubOptionView {
            kind: self.kind,
            name: self.name@,
            description: self.description@,
            required: self.required,
        }
    }
}

impl View for OptionSchema {
    type V = OptionView;

    open spec fn view(&self) -> OptionView {
        OptionView {
            kind: self.kind,
            name: self.name@,
            description: self.description@,
            required: self.required,
            channel_types: self.channel_types@,
            sub_options: self.sub_options@.map_values(|o: SubOptionSchema| o@),
        }
    }
}

impl View for CommandSchema {
    type V = CommandView;

    open spec fn view(&self) -> CommandView {
        CommandView {
            name: self.name@,
            description: self.description@,
            options: self.options@.map_values(|o: OptionSchema| o@),
        }
    }
}

/// The sub-command of `/play` called `name`, whose one required string
/// option `what` is described as `what`.
pub open spec fn play_sub_command(name: Seq<char>, description: Seq<char>, what: Seq<char>) -> OptionView {
    OptionView {
        kind: OptionKind::SubCommand,
        name,
        description,
        required: false,
        channel_types: Seq::empty(),
        sub_options: seq![
            SubOptionView { kind: OptionKind::String, name: "what"@, description: what, required: true },
        ],
    }
}

/// The commands the bot registers, in the order it registers them.
pub open spec fn registered_commands() -> Seq<CommandView> {
    seq![
        CommandView {
            name: "summon"@,
            description: "Move the bot to a voice channel."@,
            options: seq![
                OptionView {
                    kind: OptionKind::Channel,
                    name: "channel"@,
                    description: "The channel the bot should be move to."@,
                    required: true,
                    channel_types: seq![ChannelKind::Voice],
                    sub_options: Seq::empty(),
                },
            ],
        },
        CommandView {
            name: "play"@,
            description: "Play something, overriding anything that is currently being played."@,
            options: seq![
                play_sub_command(
                    "ytdl"@,
                    "From YouTube or another website supported by yt-dlp."@,
                    "The URL of the audio to play."@,
                ),
                play_sub_command(
                    "file"@,
                    "From a file on the local computer."@,
                    "The path of the audio to play."@,
                ),
                play_sub_command(
                    "plex"@,
                    "From the configured Plex media library."@,
                    "The query to search on the configured Plex media library."@,
                ),
            ],
        },
        CommandView {
            name: "stop"@,
            description: "Immediately stop playing the current track."@,
            options: Seq::empty(),
        },
    ]
}

/// A sub-command of `/play` with its `what` option.
fn make_play_sub_command(name: &str, description: &str, what: &str) -> (o: OptionSchema)
    ensures
        o@ == play_sub_command(name@, description@, what@),
{
    let mut sub_options: Vec<SubOptionSchema> = Vec::new();
    sub_options.push(
        SubOptionSchema {
            kind: OptionKind::String,
            name: "what".to_owned(),
            description: what.to_owned(),
            required: true,
        },
    );
    let o = OptionSchema {
        kind: OptionKind::SubCommand,
        name: name.to_owned(),
        description: description.to_owned(),
        required: false,
        channel_types: Vec::new(),
        sub_options,
    };
    assert(o@.sub_options =~= play_sub_command(name@, description@, what@).sub_options);
    assert(o@.channel_types =~= Seq::<ChannelKind>::empty());
    o
}

/// The slash commands the bot registers in its guild, in order.
pub fn command_schema() -> (r: Vec<CommandSchema>)
    ensures
        r@.map_values(|c: CommandSchema| c@) == registered_commands(),
{
    let mut channel_types: Vec<ChannelKind> = Vec::new();
    channel_types.push(ChannelKind::Voice);
    let mut summon_options: Vec<OptionSchema> = Vec::new();
    summon_options.push(
        OptionSchema {
            kind: OptionKind::Channel,
            name: "channel".to_owned(),
            description: "The channel the bot should be move to.".to_owned(),
            required: true,
            channel_types,
            sub_options: Vec::new(),
        },
    );
    let summon = CommandSchema {
        name: "summon".to_owned(),
        description: "Move the bot to a voice channel.".to_owned(),
        options: summon_options,
    };

    let mut play_options: Vec<OptionSchema> = Vec::new();
    play_options.push(
        make_play_sub_command(
            "ytdl",
            "From YouTube or another website supported by yt-dlp.",
            "The URL of the audio to play.",
        ),
    );
    play_options.push(
        make_play_sub_command(
            "file",
            "From a file on the local computer.",
            "The path of the audio to play.",
        ),
    );
    play_options.push(
        make_play_sub_command(
            "plex",
            "From the configured Plex media library.",
            "The query to search on the configured Plex media library.",
        ),
    );
    let play = CommandSchema {
        name: "play".to_owned(),
        description: "Play something, overriding anything that is currently being played.".to_owned(),
        options: play_options,
    };

    let stop = CommandSchema {
        name: "stop".to_owned(),
        description: "Immediately stop playing the current track.".to_owned(),
        options: Vec::new(),
    };

    let mut r: Vec<CommandSchema> = Vec::new();
    r.push(summon);
    r.push(play);
    r.push(stop);
    proof {
        let reg = registered_commands();
        assert(r@[0]@.options[0].channel_types =~= reg[0].options[0].channel_types);
        assert(r@[0]@.options[0].sub_options =~= reg[0].options[0].sub_options);
        assert(r@[0]@.options =~= reg[0].options);
        assert(r@[1]@.options =~= reg[1].options);
        assert(r@[2]@.options =~= reg[2].options);
        assert(r@.map_values(|c: CommandSchema| c@) =~= reg);
    }
    r
}

/// The bot registers `/summon`, `/play` and `/stop`, in that order, each
/// with its own description: `/summon` takes a required voice channel
/// `channel`; `/play` has the sub-commands `ytdl`, `file` and `plex`, in that
/// order, each with its own description and a required string `what`
/// described for that sub-command; `/stop` takes nothing.
pub proof fn law_registered_texts()
    ensures
        registered_commands().len() == 3,
        registered_commands()[0].name == "summon"@,
        registered_commands()[1].name == "play"@,
        registered_commands()[2].name == "stop"@,
        forall|c: int|
            0 <= c < registered_commands().len() && #[trigger] registered_commands()[c].name
                == "summon"@ ==> {
                let cmd = registered_commands()[c];
                &&& cmd.description == "Move the bot to a voice channel."@
                &&& cmd.options.len() == 1
                &&& cmd.options[0].kind == OptionKind::Channel
                &&& cmd.options[0].name == "channel"@
                &&& cmd.options[0].description == "The channel the bot should be move to."@
                &&& cmd.options[0].required
                &&& cmd.options[0].channel_types == seq![ChannelKind::Voice]
                &&& cmd.options[0].sub_options.len() == 0
            },
        forall|c: int|
            0 <= c < registered_commands().len() && #[trigger] registered_commands()[c].name
                == "stop"@ ==> {
                let cmd = registered_commands()[c];
                &&& cmd.description == "Immediately stop playing the current track."@
                &&& cmd.options.len() == 0
            },
        forall|c: int|
            0 <= c < registered_commands().len() && #[trigger] registered_commands()[c].name
                == "play"@ ==> {
                let cmd = registered_commands()[c];
                &&& cmd.description
                    == "Play something, overriding anything that is currently being played."@
                &&& cmd.options.len() == 3
                &&& cmd.options[0].name == "ytdl"@
                &&& cmd.options[1].name == "file"@
                &&& cmd.options[2].name == "plex"@
                &&& forall|o: int|
                    0 <= o < cmd.options.len() ==> {
                        let opt = #[trigger] cmd.options[o];
                        &&& opt.kind == OptionKind::SubCommand
                        &&& !opt.required
                        &&& opt.channel_types.len() == 0
                        &&& opt.sub_options.len() == 1
                        &&& opt.sub_options[0].kind == OptionKind::String
                        &&& opt.sub_options[0].name == "what"@
                        &&& opt.sub_options[0].required
                        &&& opt.name == "ytdl"@ ==> opt.description
                            == "From YouTube or another website supported by yt-dlp."@
                            && opt.sub_options[0].description == "The URL of the audio to play."@
                        &&& opt.name == "file"@ ==> opt.description
                            == "From a file on the local computer."@
                            && opt.sub_options[0].description == "The path of the audio to play."@
                        &&& opt.name == "plex"@ ==> opt.description
                            == "From the configured Plex media library."@
                            && opt.sub_options[0].description
                            == "The query to search on the configured Plex media library."@
                    }
            },
{
    reveal_strlit("summon");
    reveal_strlit("play");
    reveal_strlit("stop");
    reveal_strlit("ytdl");
    reveal_strlit("file");
    reveal_strlit("plex");
    assert("play"@.len() != "summon"@.len());
    assert("stop"@.len() != "summon"@.len());
    assert("stop"@[0] != "play"@[0]);
    assert("file"@[0] != "ytdl"@[0]);
    assert("plex"@[0] != "ytdl"@[0]);
    assert("plex"@[0] != "file"@[0]);
    let reg = registered_commands();
    assert(reg[0].options[0].channel_types =~= seq![ChannelKind::Voice]);
}

} // verus!
