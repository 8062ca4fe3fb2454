use angy::handler::{command_for, Command};
use angy::schema::{command_schema, ChannelKind, OptionKind};

#[test]
fn registered_commands() {
    let s = command_schema();
    let names: Vec<&str> = s.iter().map(|c| c.name.as_str()).collect();
    assert_eq!(names, vec!["summon", "play", "stop"]);
    assert_eq!(s[0].description, "Move the bot to a voice channel.");
    assert_eq!(s[0].options.len(), 1);
    assert_eq!(s[0].options[0].kind, OptionKind::Channel);
    assert_eq!(s[0].options[0].name, "channel");
    assert!(s[0].options[0].required);
    assert_eq!(s[0].options[0].channel_types, vec![ChannelKind::Voice]);
    assert_eq!(s[1].description, "Play something, overriding anything that is currently being played.");
    let subs: Vec<&str> = s[1].options.iter().map(|o| o.name.as_str()).collect();
    assert_eq!(subs, vec!["ytdl", "file", "plex"]);
    for o in &s[1].options {
        assert_eq!(o.kind, OptionKind::SubCommand);
        assert_eq!(o.sub_options.len(), 1);
        assert_eq!(o.sub_options[0].name, "what");
        assert_eq!(o.sub_options[0].kind, OptionKind::String);
        assert!(o.sub_options[0].required);
    }
    assert_eq!(s[1].options[2].sub_options[0].description, "The query to search on the configured Plex media library.");
    assert_eq!(s[2].description, "Immediately stop playing the current track.");
    assert!(s[2].options.is_empty());
}

#[test]
fn registered_commands_are_dispatched() {
    for c in command_schema() {
        assert_ne!(command_for(&c.name), Command::Unknown);
    }
}
