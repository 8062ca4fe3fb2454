use angy::error::AngyError;
use angy::handler::{
    command_for, joined_message, now_playing_message, reply_content, stop_reply, summon_channel,
    track_text, unknown, ytdl_target, AngyHandler, Command, Config, PlaySource,
};
use angy::options::{options_hashmap, CommandOption, OptionValue, OptionsHashMap};
use angy::plex::{Hub, Media, MediaContainer, Metadata, Part, SearchResults};

const OWNER: u64 = 42;

fn handler() -> AngyHandler {
    AngyHandler {
        config: Config {
            dev_user_id: OWNER,
            plex_server: "http://plex.local:32400".to_string(),
            plex_token: "SECRET-REDACTED".to_string(),
            plex_library: "Music".to_string(),
            plex_replace_from: "/data".to_string(),
            plex_replace_to: "/mnt/nas".to_string(),
        },
    }
}

fn map(entries: &[(&str, &str)]) -> OptionsHashMap {
    options_hashmap(
        entries
            .iter()
            .map(|(n, v)| CommandOption {
                name: n.to_string(),
                resolved: Some(OptionValue::String(v.to_string())),
            })
            .collect(),
    )
}

fn source_text(s: &PlaySource) -> (&'static str, String) {
    match s {
        PlaySource::Ytdl(t) => ("ytdl", t.clone()),
        PlaySource::File(t) => ("file", t.clone()),
        PlaySource::Plex(t) => ("plex", t.clone()),
    }
}

#[test]
fn dispatch_by_name() {
    assert_eq!(command_for("summon"), Command::Summon);
    assert_eq!(command_for("play"), Command::Play);
    assert_eq!(command_for("stop"), Command::Stop);
    assert_eq!(command_for("Play"), Command::Unknown);
    assert_eq!(command_for(""), Command::Unknown);
    assert_eq!(unknown("dance"), Err(AngyError::Bot("Unknown command")));
}

#[test]
fn summon_reads_channel() {
    let m = options_hashmap(vec![CommandOption {
        name: "channel".to_string(),
        resolved: Some(OptionValue::Channel(987654321)),
    }]);
    assert_eq!(summon_channel(&m, 1), Ok(987654321));
    assert_eq!(summon_channel(&m, OWNER), Ok(987654321));
    let empty = options_hashmap(vec![]);
    assert_eq!(summon_channel(&empty, OWNER), Err(AngyError::User("A required option is missing.")));
    assert_eq!(joined_message(987654321), ":crystal_ball: Joined channel <#987654321>!");
    assert_eq!(joined_message(0), ":crystal_ball: Joined channel <#0>!");
}

#[test]
fn stop_answers() {
    assert_eq!(stop_reply(true), Ok(":stop_button: Stopped playing current track.".to_string()));
    assert_eq!(stop_reply(false), Err(AngyError::User("Not connected to voice.")));
}

#[test]
fn ytdl_targets() {
    assert_eq!(ytdl_target("https://youtu.be/x"), "https://youtu.be/x");
    assert_eq!(ytdl_target("http://a.b/c"), "http://a.b/c");
    assert_eq!(ytdl_target("never gonna"), "ytsearch:never gonna");
    assert_eq!(ytdl_target("ftp://x"), "ytsearch:ftp://x");
    assert_eq!(ytdl_target(""), "ytsearch:");
}

#[test]
fn play_reads_sub_commands_only_when_needed() {
    let h = handler();
    let number = |n: &str| CommandOption { name: n.to_string(), resolved: Some(OptionValue::Integer(3)) };
    let what = CommandOption { name: "what".to_string(), resolved: Some(OptionValue::String("x".to_string())) };
    let sub = |n: &str| CommandOption { name: n.to_string(), resolved: Some(OptionValue::String(String::new())) };
    let m = options_hashmap(vec![what, number("ytdl"), number("file"), number("plex")]);
    assert!(matches!(h.plan_play(&m, OWNER, false), Err(AngyError::User("Not connected to voice."))));
    let what = CommandOption { name: "what".to_string(), resolved: Some(OptionValue::String("x".to_string())) };
    let m = options_hashmap(vec![what, sub("ytdl"), number("file"), number("plex")]);
    assert_eq!(source_text(&h.plan_play(&m, OWNER, true).unwrap()), ("ytdl", "ytsearch:x".to_string()));
    let what = CommandOption { name: "what".to_string(), resolved: Some(OptionValue::String("x".to_string())) };
    let m = options_hashmap(vec![what, sub("file"), number("plex")]);
    assert!(matches!(h.plan_play(&m, 7, true), Err(AngyError::User("This command can be used only by the bot's owner."))));
}

#[test]
fn play_needs_what() {
    let h = handler();
    let r = h.plan_play(&map(&[("ytdl", "x")]), OWNER, true);
    assert!(matches!(r, Err(AngyError::User("A required option is missing."))));
}

#[test]
fn play_needs_voice() {
    let h = handler();
    let r = h.plan_play(&map(&[("what", "x"), ("ytdl", "x")]), OWNER, false);
    assert!(matches!(r, Err(AngyError::User("Not connected to voice."))));
}

#[test]
fn play_ytdl_sources() {
    let h = handler();
    let r = h.plan_play(&map(&[("what", "lofi"), ("ytdl", "")]), 1, true).unwrap();
    assert_eq!(source_text(&r), ("ytdl", "ytsearch:lofi".to_string()));
    let r = h.plan_play(&map(&[("what", "https://x.y/z"), ("ytdl", ""), ("file", "")]), 1, true).unwrap();
    assert_eq!(source_text(&r), ("ytdl", "https://x.y/z".to_string()));
}

#[test]
fn play_file_only_for_owner() {
    let h = handler();
    let r = h.plan_play(&map(&[("what", "/tmp/a.ogg"), ("file", "")]), OWNER, true).unwrap();
    assert_eq!(source_text(&r), ("file", "/tmp/a.ogg".to_string()));
    let r = h.plan_play(&map(&[("what", "/tmp/a.ogg"), ("file", "")]), 7, true);
    assert!(matches!(r, Err(AngyError::User("This command can be used only by the bot's owner."))));
}

#[test]
fn play_plex_and_unknown_sub_command() {
    let h = handler();
    let r = h.plan_play(&map(&[("what", "daft punk"), ("plex", "")]), 7, true).unwrap();
    assert_eq!(source_text(&r), ("plex", "daft punk".to_string()));
    let r = h.plan_play(&map(&[("what", "daft punk")]), 7, true);
    assert!(matches!(r, Err(AngyError::User("Unknown subcommand."))));
}

#[test]
fn plex_request() {
    let h = handler();
    assert_eq!(h.plex_search_url(), "http://plex.local:32400/hubs/search/");
    let q = h.plex_search_query("one more time");
    let expected: Vec<(String, String)> = vec![
        ("X-Plex-Token", "SECRET-REDACTED"),
        ("query", "one more time"),
        ("limit", "25"),
        ("includeCollections", "0"),
        ("includeExternalMedia", "0"),
    ]
    .into_iter()
    .map(|(a, b)| (a.to_string(), b.to_string()))
    .collect();
    assert_eq!(q, expected);
}

fn metadata(library: &str, files: &[&[&str]]) -> Metadata {
    Metadata {
        library_section_title: library.to_string(),
        media: files
            .iter()
            .map(|parts| Media { part: parts.iter().map(|f| Part { file: f.to_string() }).collect() })
            .collect(),
    }
}

fn results(hubs: Vec<Hub>) -> SearchResults {
    SearchResults { media_container: MediaContainer { hub: hubs } }
}

#[test]
fn plex_path_selection() {
    let h = handler();
    let r = results(vec![
        Hub { identifier: "album".to_string(), metadata: vec![metadata("Music", &[&["/data/album"]])] },
        Hub {
            identifier: "track".to_string(),
            metadata: vec![
                metadata("Podcasts", &[&["/data/podcast.mp3"]]),
                metadata("Music", &[&["/data/one.flac", "/data/two.flac"], &["/data/other.mp3"]]),
                metadata("Music", &[&["/data/later.flac"]]),
            ],
        },
        Hub { identifier: "track".to_string(), metadata: vec![metadata("Music", &[&["/data/x"]])] },
    ]);
    assert_eq!(h.plex_track_path(&r), Ok("/mnt/nas/one.flac".to_string()));
}

#[test]
fn plex_path_errors() {
    let h = handler();
    assert_eq!(
        h.plex_track_path(&SearchResults::default()),
        Err(AngyError::PlexResponse("Could not find 'track' hub"))
    );
    let no_lib = results(vec![Hub { identifier: "track".to_string(), metadata: vec![metadata("Films", &[&["/a"]])] }]);
    assert_eq!(h.plex_track_path(&no_lib), Err(AngyError::User("No results for the given query.")));
    let no_media = results(vec![Hub { identifier: "track".to_string(), metadata: vec![metadata("Music", &[])] }]);
    assert_eq!(
        h.plex_track_path(&no_media),
        Err(AngyError::PlexResponse("No media files for the best match track."))
    );
    let no_part = results(vec![Hub { identifier: "track".to_string(), metadata: vec![metadata("Music", &[&[]])] }]);
    assert_eq!(
        h.plex_track_path(&no_part),
        Err(AngyError::PlexResponse("No parts for the best match track."))
    );
}

#[test]
fn track_texts() {
    let s = |x: &str| Some(x.to_string());
    assert_eq!(track_text(s("Song"), s("Title"), None), "Song");
    assert_eq!(track_text(None, s("Title"), None), "Title");
    assert_eq!(track_text(None, None, None), "*unknown track*");
    assert_eq!(track_text(None, None, s("https://u")), "[*unknown track*](<https://u>)");
    assert_eq!(track_text(s("Song"), None, s("https://u")), "[Song](<https://u>)");
    assert_eq!(now_playing_message("Song"), "\u{fe0f}:arrow_forward: Now playing: **Song**");
}

#[test]
fn reply_contents() {
    assert_eq!(reply_content(&Ok("done".to_string()), "unused"), "done");
    assert_eq!(reply_content(&Err(AngyError::User("Not connected to voice.")), "x"), ":warning: Not connected to voice.");
    assert_eq!(
        reply_content(&Err(AngyError::Bot("Unknown command")), "Bot(\n    \"Unknown command\",\n)"),
        ":no_entry: Unexpected error occurred:\n```rust\nBot(\n    \"Unknown command\",\n)\n```"
    );
    assert_eq!(
        reply_content(&Err(AngyError::PlexResponse("Could not find 'track' hub")), "R"),
        ":no_entry: Unexpected error occurred:\n```rust\nR\n```"
    );
}
