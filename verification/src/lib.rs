//! Resolves free-text references to video-hosting resources into canonical
//! descriptors and decides, command by command, what an archival bot does
//! with them.

pub mod archive;
pub mod canonical;
pub mod command;
pub mod config;
pub mod descriptor;
pub mod dispatch;
pub mod duration;
pub mod error;
pub mod handler;
pub mod highlight;
pub mod normalize;
pub mod page;
pub mod session;
pub mod shapes;
pub mod stash;
pub mod text;
