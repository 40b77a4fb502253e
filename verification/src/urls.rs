//! The API endpoints the tools read.

use vstd::prelude::*;

use crate::text::{decimal, decimal_value, is_digit, lemma_decimal_reads_back, u64_to_decimal};

verus! {

/// Every request goes below this base.
pub const HN_API_BASE: &'static str = "https://hacker-news.firebaseio.com/v0";

/// The URL of an API path: `{HN_API_BASE}/{path}.json`.
pub open spec fn url_of(path: Seq<char>) -> Seq<char> {
    HN_API_BASE@ + "/"@ + path + ".json"@
}

/// The API path of an item.
pub open spec fn item_path_of(id: nat) -> Seq<char> {
    "item/"@ + decimal(id)
}

/// The API path of a user.
pub open spec fn user_path_of(id: Seq<char>) -> Seq<char> {
    "user/"@ + id
}

/// The URL of the JSON document at `path`.
pub fn build_url(path: &str) -> (r: String)
    ensures
        r@ == url_of(path@),
{
    let mut r = HN_API_BASE.to_owned();
    r.append("/");
    r.append(path);
    r.append(".json");
    r
}

/// The API path of the item `id`.
pub fn item_path(id: u64) -> (r: String)
    ensures
        r@ == item_path_of(id as nat),
{
    let mut r = "item/".to_owned();
    let digits = u64_to_decimal(id);
    r.append(digits.as_str());
    r
}

/// The API path of the user `id`.
pub fn user_path(id: &str) -> (r: String)
    ensures
        r@ == user_path_of(id@),
{
    let mut r = "user/".to_owned();
    r.append(id);
    r
}

/// How failures of a request to `path` name the request.
pub fn request_description(path: &str) -> (r: String)
    ensures
        r@ == "Hacker News API request for "@ + path@,
{
    let mut r = "Hacker News API request for ".to_owned();
    r.append(path);
    r
}

/// Every URL the tools build lies below `HN_API_BASE`.
pub proof fn lemma_urls_stay_below_base(path: Seq<char>)
    ensures
        url_of(path).take((HN_API_BASE@ + "/"@).len() as int) == HN_API_BASE@ + "/"@,
{
    assert(url_of(path).take((HN_API_BASE@ + "/"@).len() as int) =~= HN_API_BASE@ + "/"@);
}

/// The URL of `path` is the base, a slash, the path and `.json`, in that
/// order: it has their total length, starts with the base and the slash,
/// holds the path right after them and ends with `.json`.
pub proof fn lemma_url_layout(path: Seq<char>)
    ensures
        url_of(path).len() == HN_API_BASE@.len() + path.len() + 6,
        url_of(path).take(HN_API_BASE@.len() as int) == HN_API_BASE@,
        url_of(path)[HN_API_BASE@.len() as int] == '/',
        url_of(path).subrange(HN_API_BASE@.len() + 1int, HN_API_BASE@.len() + 1int + path.len()) == path,
        url_of(path).skip(url_of(path).len() - 5) == ".json"@,
{
    reveal_strlit("/");
    reveal_strlit(".json");
    let b = HN_API_BASE@;
    assert(url_of(path).take(b.len() as int) =~= b);
    assert(url_of(path).subrange(b.len() + 1int, b.len() + 1int + path.len()) =~= path);
    assert(url_of(path).skip(url_of(path).len() - 5) =~= ".json"@);
}

/// Different paths give different URLs.
pub proof fn lemma_url_injective(p: Seq<char>, q: Seq<char>)
    requires
        url_of(p) == url_of(q),
    ensures
        p == q,
{
    lemma_url_layout(p);
    lemma_url_layout(q);
}

/// The item path of `id` is `item/` followed by decimal digits that read
/// back as `id`.
pub proof fn lemma_item_path_reads_back(id: nat)
    ensures
        item_path_of(id).len() > 5,
        item_path_of(id).take(5) == "item/"@,
        forall|i: int| 5 <= i < item_path_of(id).len() ==> is_digit(#[trigger] item_path_of(id)[i]),
        decimal_value(item_path_of(id).skip(5)) == id,
        item_path_of(id)[5] == '0' ==> id == 0 && item_path_of(id).len() == 6,
{
    reveal_strlit("item/");
    lemma_decimal_reads_back(id);
    assert(item_path_of(id).take(5) =~= "item/"@);
    assert(item_path_of(id).skip(5) =~= decimal(id));
    assert(item_path_of(id)[5] == decimal(id)[0]);
    assert forall|i: int| 5 <= i < item_path_of(id).len() implies is_digit(
        #[trigger] item_path_of(id)[i],
    ) by {
        assert(item_path_of(id)[i] == decimal(id)[i - 5]);
    }
}

/// Different item IDs give different item paths.
pub proof fn lemma_item_path_injective(a: nat, b: nat)
    requires
        item_path_of(a) == item_path_of(b),
    ensures
        a == b,
{
    lemma_item_path_reads_back(a);
    lemma_item_path_reads_back(b);
}

/// The user path of `id` is `user/` followed by `id` itself.
pub proof fn lemma_user_path_layout(id: Seq<char>)
    ensures
        user_path_of(id).len() == id.len() + 5,
        user_path_of(id).take(5) == "user/"@,
        user_path_of(id).skip(5) == id,
{
    reveal_strlit("user/");
    assert(user_path_of(id).take(5) =~= "user/"@);
    assert(user_path_of(id).skip(5) =~= id);
}

} // verus!
