//! Bridges a media player's subtitle track to remote clients.
//!
//! The player is watched over its line protocol. Each subtitle line that
//! it shows is assembled from four separately answered queries into a
//! [`subtitle::Subtitle`], kept in a [`store::SubtitleStore`], and told to
//! every client. A client may ask for a thumbnail or an audio clip of the
//! lines it was told of; the library works out what the encoder has to be
//! run with and what is sent back.
//!
//! The library holds the rules and the bookkeeping, as functions from
//! state and event to state and action. Sockets, tasks, timers and the
//! encoder process are the caller's business.
//!
//! * [`player`]: the commands sent to the player and the reading of its
//!   lines.
//! * [`assembler`]: from the player's messages to complete subtitles;
//!   [`trace`] holds what is proved of whole sequences of messages.
//! * [`startup`]: the check that the player is the expected process.
//! * [`session`]: the clients' requests and the replies to them.
//! * [`media`]: encoder arguments for thumbnails and audio clips.
//! * [`seconds`], [`text`]: times in milliseconds, and strings.
//! * [`json`]: the calls into `serde_json`.

pub mod assembler;
pub mod json;
pub mod media;
pub mod pending;
pub mod player;
pub mod seconds;
pub mod session;
pub mod startup;
pub mod store;
pub mod subtitle;
pub mod text;
pub mod trace;
