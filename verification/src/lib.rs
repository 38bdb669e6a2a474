//! Core of a terminal queue player: the three-pane selection, the play queue
//! with its shuffle and repeat transforms, and the tick-driven playback
//! driver. The media process itself is driven from outside, by the
//! [`models::PlayerAction`] that each operation hands back.

pub mod app;
pub mod backend;
pub mod display;
pub mod machine;
pub mod models;
pub mod queue;
pub mod selection;
pub mod ytdlp;
