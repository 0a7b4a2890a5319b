//! Chrome logic of a minimal web-browser shell: the back/forward history
//! model, the failed-load fallback chain, the bookmark-tree materialization,
//! and the serialized event dispatcher that ties them together.

pub mod bookmarks;
pub mod config;
pub mod dispatch;
pub mod fallback;
pub mod history;
