//! Decision logic of the Angy Discord music bot: slash-command options,
//! command dispatch, playback planning, Plex search result selection and
//! the texts sent back to Discord.

pub mod error;
pub mod handler;
pub mod options;
pub mod plex;
pub mod schema;
pub mod text;
