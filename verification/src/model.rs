//! The records read from the Hacker News API and the records the tools
//! answer with.

use vstd::prelude::*;

verus! {

/// An item (story, comment, job, poll or poll option) as the API sends it.
#[derive(Debug)]
pub struct HnItem {
    pub id: u64,
    pub item_type: String,
    pub by: Option<String>,
    pub time: Option<u64>,
    pub text: Option<String>,
    pub deleted: Option<bool>,
    pub dead: Option<bool>,
    pub parent: Option<u64>,
    pub poll: Option<u64>,
    pub kids: Option<Vec<u64>>,
    pub url: Option<String>,
    pub score: Option<i64>,
    pub title: Option<String>,
    pub parts: Option<Vec<u64>>,
    pub descendants: Option<u64>,
}

/// A user profile as the API sends it.
#[derive(Debug)]
pub struct HnUser {
    pub id: String,
    pub created: u64,
    pub karma: i64,
    pub about: Option<String>,
    pub submitted: Option<Vec<u64>>,
}

/// The recently changed items and profiles as the API sends them.
#[derive(Debug)]
pub struct HnUpdates {
    pub items: Vec<u64>,
    pub profiles: Vec<String>,
}

/// One entry of a story list answer.
#[derive(Debug)]
pub struct ListItemSummary {
    pub id: u64,
    pub item_type: String,
    pub title: Option<String>,
    pub by: Option<String>,
    pub score: Option<i64>,
    pub comments: Option<u64>,
    pub url: Option<String>,
    pub text: Option<String>,
    pub time: Option<u64>,
}

/// The answer of a story list tool.
#[derive(Debug)]
pub struct StoryListOutput {
    pub endpoint: String,
    pub total_ids: usize,
    pub returned: usize,
    pub ids: Vec<u64>,
    pub items: Vec<ListItemSummary>,
}

/// The answer of the item tool.
#[derive(Debug)]
pub struct ItemOutput {
    pub id: u64,
    pub item_type: String,
    pub by: Option<String>,
    pub time: Option<u64>,
    pub title: Option<String>,
    pub text: Option<String>,
    pub url: Option<String>,
    pub score: Option<i64>,
    pub descendants: Option<u64>,
    pub deleted: Option<bool>,
    pub dead: Option<bool>,
    pub parent: Option<u64>,
    pub poll: Option<u64>,
    pub kids_count: Option<usize>,
    pub kids_preview: Vec<u64>,
    pub parts_count: Option<usize>,
    pub parts_preview: Vec<u64>,
}

/// The answer of the user tool.
#[derive(Debug)]
pub struct UserOutput {
    pub id: String,
    pub created: u64,
    pub karma: i64,
    pub about: Option<String>,
    pub submitted_count: Option<usize>,
    pub submitted_preview: Vec<u64>,
}

/// The answer of the updates tool.
#[derive(Debug)]
pub struct UpdatesOutput {
    pub changed_items_count: usize,
    pub changed_profile_count: usize,
    pub items: Vec<u64>,
    pub profiles: Vec<String>,
}

} // verus!
