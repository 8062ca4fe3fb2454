//! The errors the bot reports back to the user who sent a command.

use vstd::prelude::*;

verus! {

/// An error that occurred while handling a command.
///
/// The variants that stand for a failure of an outside service carry a
/// description of that failure (its debug rendering); the others carry the
/// fixed message the bot shows.
#[derive(Clone, Debug, PartialEq, Eq)]
pub enum AngyError {
    /// Discord's API refused or failed a request.
    Serenity(String),
    /// Joining or configuring the voice connection failed.
    Songbird(String),
    /// Opening a local file (or a Plex file) as an audio source failed.
    Ytdl(String),
    /// Fetching an audio source through yt-dlp failed.
    Ffmpeg(String),
    /// The request to the Plex server failed.
    PlexRequest(String),
    /// The Plex server answered something the bot cannot use.
    PlexResponse(&'static str),
    /// The user asked for something the bot cannot do.
    User(&'static str),
    /// The bot itself is misconfigured or got an unexpected request.
    Bot(&'static str),
}

/// `Result` with `AngyError` as its error.
pub type AngyResult<T> = Result<T, AngyError>;

} // verus!
