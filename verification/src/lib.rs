//! Verified core of a terminal news reader: the section cache, the fetch
//! orchestrator that fills it, and the state that the input dispatcher drives.

pub mod cache;
pub mod dispatch;
pub mod feed;
pub mod layout;
pub mod orchestrator;
pub mod palette;
pub mod rain;
pub mod refresh;
pub mod screen;
pub mod section;
pub mod select;
pub mod state;
pub mod story;
pub mod summary;
pub mod text;
pub mod trace;
