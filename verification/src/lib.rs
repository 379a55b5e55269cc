//! Decision logic of a Spotify Connect receiver: the session orchestrator, the
//! metadata and control pipe, and the configuration rules around them.

pub mod config_parser;
pub mod credentials;
pub mod device;
pub mod encoding;
pub mod json;
pub mod meta_pipe;
pub mod metadata;
pub mod orchestrator;
pub mod reconnect;
pub mod version;
pub mod volume;
