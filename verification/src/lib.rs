//! Verified core of a Hacker News tool plugin: limits, URLs, response
//! checks, retry decisions, story-list hydration and output reshaping.

pub mod format;
pub mod limits;
pub mod model;
pub mod response;
pub mod retry;
pub mod story_list;
pub mod text;
pub mod urls;
