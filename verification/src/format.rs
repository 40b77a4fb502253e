//! Reshaping API records into the compact answers of the tools.

use vstd::prelude::*;

use crate::limits::{first_n, preview, take_first, PREVIEW_LIMIT};
use crate::model::{
    HnItem, HnUpdates, HnUser, ItemOutput, ListItemSummary, UpdatesOutput, UserOutput,
};

verus! {

/// A text field that is dropped when it is empty.
pub open spec fn non_empty_text(s: Option<String>) -> Option<String> {
    match s {
        Some(t) => if t@.len() == 0 {
            None
        } else {
            Some(t)
        },
        None => None,
    }
}

/// A flag that is kept only when it is set.
pub open spec fn set_flag(b: Option<bool>) -> Option<bool> {
    match b {
        Some(true) => Some(true),
        _ => None,
    }
}

/// The IDs of an optional list, none when it is missing.
pub open spec fn ids_of(v: Option<Vec<u64>>) -> Seq<u64> {
    match v {
        Some(ids) => ids@,
        None => Seq::empty(),
    }
}

/// The length of a list, dropped when the list is empty.
pub open spec fn count_of(s: Seq<u64>) -> Option<usize> {
    if s.len() == 0 {
        None
    } else {
        Some(s.len() as usize)
    }
}

/// The summary of an item in a story list: the comment count is the
/// item's descendant count, and empty URLs and texts are dropped.
pub open spec fn list_summary(item: HnItem) -> ListItemSummary {
    ListItemSummary {
        id: item.id,
        item_type: item.item_type,
        title: item.title,
        by: item.by,
        score: item.score,
        comments: item.descendants,
        url: non_empty_text(item.url),
        text: non_empty_text(item.text),
        time: item.time,
    }
}

fn keep_non_empty(s: Option<String>) -> (r: Option<String>)
    ensures
        r == non_empty_text(s),
{
    match s {
        Some(t) => if t.as_str().is_empty() {
            None
        } else {
            Some(t)
        },
        None => None,
    }
}

fn keep_set(b: Option<bool>) -> (r: Option<bool>)
    ensures
        r == set_flag(b),
{
    match b {
        Some(true) => Some(true),
        _ => None,
    }
}

fn ids_or_empty(v: Option<Vec<u64>>) -> (r: Vec<u64>)
    ensures
        r@ == ids_of(v),
{
    match v {
        Some(ids) => ids,
        None => Vec::new(),
    }
}

fn count(v: &Vec<u64>) -> (r: Option<usize>)
    ensures
        r == count_of(v@),
{
    if v.len() == 0 {
        None
    } else {
        Some(v.len())
    }
}

/// Summarizes an item for a story list (see `list_summary`).
pub fn format_list_item(item: HnItem) -> (r: ListItemSummary)
    ensures
        r == list_summary(item),
{
    ListItemSummary {
        id: item.id,
        item_type: item.item_type,
        title: item.title,
        by: item.by,
        score: item.score,
        comments: item.descendants,
        url: keep_non_empty(item.url),
        text: keep_non_empty(item.text),
        time: item.time,
    }
}

/// The full view of an item: empty texts and URLs are dropped, the deleted
/// and dead flags are kept only when set, and the kids and parts lists are
/// summarized by their counts and their first `PREVIEW_LIMIT` IDs.
pub fn format_item(item: HnItem) -> (r: ItemOutput)
    ensures
        r.id == item.id,
        r.item_type == item.item_type,
        r.by == item.by,
        r.time == item.time,
        r.title == item.title,
        r.text == non_empty_text(item.text),
        r.url == non_empty_text(item.url),
        r.score == item.score,
        r.descendants == item.descendants,
        r.deleted == set_flag(item.deleted),
        r.dead == set_flag(item.dead),
        r.parent == item.parent,
        r.poll == item.poll,
        r.kids_count == count_of(ids_of(item.kids)),
        r.kids_preview@ == first_n(ids_of(item.kids), PREVIEW_LIMIT as int),
        r.parts_count == count_of(ids_of(item.parts)),
        r.parts_preview@ == first_n(ids_of(item.parts), PREVIEW_LIMIT as int),
{
    let kids = ids_or_empty(item.kids);
    let parts = ids_or_empty(item.parts);
    let kids_preview = preview(kids.as_slice());
    let parts_preview = preview(parts.as_slice());
    ItemOutput {
        id: item.id,
        item_type: item.item_type,
        by: item.by,
        time: item.time,
        title: item.title,
        text: keep_non_empty(item.text),
        url: keep_non_empty(item.url),
        score: item.score,
        descendants: item.descendants,
        deleted: keep_set(item.deleted),
        dead: keep_set(item.dead),
        parent: item.parent,
        poll: item.poll,
        kids_count: count(&kids),
        kids_preview,
        parts_count: count(&parts),
        parts_preview,
    }
}

/// The view of a user: an empty "about" text is dropped, and the submitted
/// items are summarized by their count and their first `submitted_limit`
/// IDs.
pub fn format_user(user: HnUser, submitted_limit: usize) -> (r: UserOutput)
    ensures
        r.id == user.id,
        r.created == user.created,
        r.karma == user.karma,
        r.about == non_empty_text(user.about),
        r.submitted_count == count_of(ids_of(user.submitted)),
        r.submitted_preview@ == first_n(ids_of(user.submitted), submitted_limit as int),
{
    let submitted = ids_or_empty(user.submitted);
    let submitted_count = count(&submitted);
    let submitted_preview = take_first(submitted.as_slice(), submitted_limit);
    UserOutput {
        id: user.id,
        created: user.created,
        karma: user.karma,
        about: keep_non_empty(user.about),
        submitted_count,
        submitted_preview,
    }
}

/// The updates answer: the changed IDs with their counts.
pub fn format_updates(updates: HnUpdates) -> (r: UpdatesOutput)
    ensures
        r.changed_items_count == updates.items@.len(),
        r.changed_profile_count == updates.profiles@.len(),
        r.items == updates.items,
        r.profiles == updates.profiles,
{
    UpdatesOutput {
        changed_items_count: updates.items.len(),
        changed_profile_count: updates.profiles.len(),
        items: updates.items,
        profiles: updates.profiles,
    }
}

/// Empty values are dropped from the answers: a kept text is never
/// empty, a kept flag is always set, and a list's count is kept exactly
/// when the list is not empty, as its length.
pub proof fn lemma_empty_values_dropped(text: Option<String>, flag: Option<bool>, ids: Seq<u64>)
    requires
        ids.len() <= usize::MAX,
    ensures
        non_empty_text(text) matches Some(t) ==> t@.len() > 0 && text == Some(t),
        text matches Some(t) && t@.len() > 0 ==> non_empty_text(text) == text,
        text is None ==> non_empty_text(text) is None,
        text matches Some(t) ==> (t@.len() == 0 ==> non_empty_text(text) is None),
        set_flag(flag) is None || set_flag(flag) == Some(true),
        set_flag(flag) == Some(true) <==> flag == Some(true),
        count_of(ids) is Some <==> ids.len() > 0,
        count_of(ids) matches Some(n) ==> n == ids.len(),
{
}

/// A story-list summary copies the item's ID, type, title, author, score,
/// time and descendant count (as its comment count), and keeps its URL and
/// text exactly when they are present and not empty.
pub proof fn lemma_list_summary_fields(item: HnItem)
    ensures
        list_summary(item).id == item.id,
        list_summary(item).item_type == item.item_type,
        list_summary(item).title == item.title,
        list_summary(item).by == item.by,
        list_summary(item).score == item.score,
        list_summary(item).comments == item.descendants,
        list_summary(item).time == item.time,
        item.url matches Some(u) ==> (u@.len() > 0 ==> list_summary(item).url == Some(u)),
        item.url matches Some(u) ==> (u@.len() == 0 ==> list_summary(item).url is None),
        item.url is None ==> list_summary(item).url is None,
        item.text matches Some(t) ==> (t@.len() > 0 ==> list_summary(item).text == Some(t)),
        item.text matches Some(t) ==> (t@.len() == 0 ==> list_summary(item).text is None),
        item.text is None ==> list_summary(item).text is None,
{
}

/// A child list is summarized by the list itself: its preview is the
/// prefix of the API's list, in the API's order, of length
/// `min(len, n)`, and its count is its length, dropped when it is empty.
/// A missing list has no count and an empty preview.
pub proof fn lemma_child_list_summary(v: Option<Vec<u64>>, n: int)
    requires
        0 <= n,
        v matches Some(k) ==> k@.len() <= usize::MAX,
    ensures
        v is None ==> first_n(ids_of(v), n).len() == 0 && count_of(ids_of(v)) is None,
        v matches Some(k) ==> first_n(ids_of(v), n).len() == (if k@.len() < n {
            k@.len() as int
        } else {
            n
        }),
        v matches Some(k) ==> (forall|i: int|
            0 <= i < first_n(ids_of(v), n).len() ==> #[trigger] first_n(ids_of(v), n)[i] == k@[i]),
        v matches Some(k) ==> (k@.len() == 0 ==> count_of(ids_of(v)) is None),
        v matches Some(k) ==> (k@.len() > 0 ==> count_of(ids_of(v)) == Some(k@.len() as usize)),
{
}

} // verus!
