//! Hydrating a story list: the decisions taken between the requests.
//!
//! The caller fetches the ID list at [`StoryListFetch::path`], hands the
//! outcome to [`StoryListFetch::on_ids`], then keeps fetching the item that
//! each [`StoryListStep::FetchItem`] names and handing its outcome to
//! [`ItemsPending::on_item`], until the step is `Done` or `Failed`.

use vstd::prelude::*;

use crate::format::{format_list_item, list_summary};
use crate::limits::{first_n, take_first};
use crate::model::{HnItem, ListItemSummary, StoryListOutput};
use crate::urls::{item_path, item_path_of};

verus! {

/// A story list answer taken by its views.
#[verifier::ext_equal]
pub struct OutputView {
    pub endpoint: Seq<char>,
    pub total_ids: nat,
    pub returned: nat,
    pub ids: Seq<u64>,
    pub items: Seq<ListItemSummary>,
}

/// A hydration waiting for an item, taken by its views.
#[verifier::ext_equal]
pub struct PendingView {
    pub endpoint: Seq<char>,
    pub total_ids: nat,
    pub hydrated: Seq<u64>,
    pub items: Seq<ListItemSummary>,
}

/// A step taken by its views.
#[verifier::ext_equal]
pub enum StepView {
    FetchItem(Seq<char>, PendingView),
    Done(OutputView),
    Failed(Seq<char>),
}

/// The step once `items` of the `hydrated` IDs have been fetched: the next
/// ID's item is fetched, or the answer is complete.
pub open spec fn after_items(
    endpoint: Seq<char>,
    total_ids: nat,
    hydrated: Seq<u64>,
    items: Seq<ListItemSummary>,
) -> StepView {
    if items.len() < hydrated.len() {
        StepView::FetchItem(
            item_path_of(hydrated[items.len() as int] as nat),
            PendingView { endpoint, total_ids, hydrated, items },
        )
    } else {
        StepView::Done(
            OutputView { endpoint, total_ids, returned: items.len(), ids: hydrated, items },
        )
    }
}

/// The step after the ID list at `endpoint` was fetched with `ids`: the
/// first `limit` IDs are hydrated, one after the other.
pub open spec fn ids_step(endpoint: Seq<char>, limit: nat, ids: Result<Seq<u64>, Seq<char>>) -> StepView {
    match ids {
        Ok(ids) => after_items(endpoint, ids.len(), first_n(ids, limit as int), Seq::empty()),
        Err(e) => StepView::Failed(e),
    }
}

/// The step after the item awaited by `p` was fetched with `item`.
pub open spec fn item_step(p: PendingView, item: Result<HnItem, Seq<char>>) -> StepView {
    match item {
        Ok(it) => after_items(p.endpoint, p.total_ids, p.hydrated, p.items.push(list_summary(it))),
        Err(e) => StepView::Failed(e),
    }
}

/// The step reached from `step` when the next items are fetched with
/// `outcomes`, one per item request, as long as items are requested.
pub open spec fn run_items(step: StepView, outcomes: Seq<Result<HnItem, Seq<char>>>) -> StepView
    decreases outcomes.len(),
{
    if outcomes.len() == 0 {
        step
    } else {
        match step {
            StepView::FetchItem(_, p) => run_items(item_step(p, outcomes[0]), outcomes.drop_first()),
            _ => step,
        }
    }
}

/// A fetch outcome with its error message taken by its view.
pub open spec fn result_view<T>(outcome: Result<T, String>) -> Result<T, Seq<char>> {
    match outcome {
        Ok(v) => Ok(v),
        Err(e) => Err(e@),
    }
}

/// The outcome of an ID list request taken by its views.
pub open spec fn ids_view(outcome: Result<Vec<u64>, String>) -> Result<Seq<u64>, Seq<char>> {
    match outcome {
        Ok(v) => Ok(v@),
        Err(e) => Err(e@),
    }
}

/// A story list answer taken by its views.
pub open spec fn output_view(o: StoryListOutput) -> OutputView {
    OutputView {
        endpoint: o.endpoint@,
        total_ids: o.total_ids as nat,
        returned: o.returned as nat,
        ids: o.ids@,
        items: o.items@,
    }
}

/// A step taken by its views.
pub open spec fn step_view(step: StoryListStep) -> StepView {
    match step {
        StoryListStep::FetchItem(path, p) => StepView::FetchItem(path@, p@),
        StoryListStep::Done(o) => StepView::Done(output_view(o)),
        StoryListStep::Failed(e) => StepView::Failed(e@),
    }
}

/// A story list before its ID list was fetched.
pub struct StoryListFetch {
    endpoint: String,
    limit: usize,
}

/// A story list whose next item is awaited.
pub struct ItemsPending {
    endpoint: String,
    total_ids: usize,
    hydrated: Vec<u64>,
    items: Vec<ListItemSummary>,
}

/// What to do next.
pub enum StoryListStep {
    /// Fetch the item at this API path, then hand its outcome to the
    /// pending hydration.
    FetchItem(String, ItemsPending),
    /// The answer is complete.
    Done(StoryListOutput),
    /// A request failed with this message.
    Failed(String),
}

impl View for ItemsPending {
    type V = PendingView;

    closed spec fn view(&self) -> PendingView {
        PendingView {
            endpoint: self.endpoint@,
            total_ids: self.total_ids as nat,
            hydrated: self.hydrated@,
            items: self.items@,
        }
    }
}

impl ItemsPending {
    #[verifier::type_invariant]
    closed spec fn awaits_an_item(&self) -> bool {
        self.items@.len() < self.hydrated@.len()
    }

    /// Takes the outcome of the awaited item request: a failure ends the
    /// hydration with its message; a success adds the item's summary and
    /// asks for the next item, or completes the answer.
    pub fn on_item(self, item: Result<HnItem, String>) -> (r: StoryListStep)
        ensures
            step_view(r) == item_step(self@, result_view(item)),
    {
        proof {
            use_type_invariant(&self);
        }
        match item {
            Ok(it) => {
                let ItemsPending { endpoint, total_ids, hydrated, mut items } = self;
                items.push(format_list_item(it));
                advance(endpoint, total_ids, hydrated, items)
            },
            Err(e) => StoryListStep::Failed(e),
        }
    }
}

fn advance(endpoint: String, total_ids: usize, hydrated: Vec<u64>, items: Vec<ListItemSummary>) -> (r:
    StoryListStep)
    requires
        items@.len() <= hydrated@.len(),
    ensures
        step_view(r) == after_items(endpoint@, total_ids as nat, hydrated@, items@),
{
    if items.len() < hydrated.len() {
        let path = item_path(hydrated[items.len()]);
        StoryListStep::FetchItem(path, ItemsPending { endpoint, total_ids, hydrated, items })
    } else {
        let returned = items.len();
        StoryListStep::Done(StoryListOutput { endpoint, total_ids, returned, ids: hydrated, items })
    }
}

impl StoryListFetch {
    /// The endpoint whose ID list is hydrated.
    pub closed spec fn endpoint(&self) -> Seq<char> {
        self.endpoint@
    }

    /// The most IDs hydrated.
    pub closed spec fn limit(&self) -> nat {
        self.limit as nat
    }

    /// A story list of `endpoint` that hydrates at most `limit` stories.
    pub fn new(endpoint: &str, limit: usize) -> (r: StoryListFetch)
        ensures
            r.endpoint() == endpoint@,
            r.limit() == limit,
    {
        StoryListFetch { endpoint: endpoint.to_owned(), limit }
    }

    /// The API path of the ID list.
    pub fn path(&self) -> (r: &str)
        ensures
            r@ == self.endpoint(),
    {
        self.endpoint.as_str()
    }

    /// Takes the outcome of the ID list request: a failure ends the
    /// hydration with its message; a success starts hydrating the first
    /// `limit` IDs.
    pub fn on_ids(self, ids: Result<Vec<u64>, String>) -> (r: StoryListStep)
        ensures
            step_view(r) == ids_step(self.endpoint(), self.limit(), ids_view(ids)),
    {
        match ids {
            Ok(ids) => {
                let hydrated = take_first(ids.as_slice(), self.limit);
                let total_ids = ids.len();
                advance(self.endpoint, total_ids, hydrated, Vec::new())
            },
            Err(e) => StoryListStep::Failed(e),
        }
    }
}

/// The summaries of `items`, in order.
pub open spec fn summaries(items: Seq<HnItem>) -> Seq<ListItemSummary> {
    items.map_values(|it: HnItem| list_summary(it))
}

/// Successful fetches of `items`, in order.
pub open spec fn fetched(items: Seq<HnItem>) -> Seq<Result<HnItem, Seq<char>>> {
    items.map_values(|it: HnItem| Ok::<HnItem, Seq<char>>(it))
}

proof fn lemma_run_items_ok(
    endpoint: Seq<char>,
    total_ids: nat,
    hydrated: Seq<u64>,
    done: Seq<HnItem>,
    rest: Seq<HnItem>,
)
    requires
        done.len() + rest.len() <= hydrated.len(),
    ensures
        run_items(after_items(endpoint, total_ids, hydrated, summaries(done)), fetched(rest))
            == after_items(endpoint, total_ids, hydrated, summaries(done + rest)),
    decreases rest.len(),
{
    if rest.len() == 0 {
        assert(done + rest =~= done);
    } else {
        let next = done.push(rest[0]);
        assert(summaries(done).push(list_summary(rest[0])) =~= summaries(next));
        assert(fetched(rest).drop_first() =~= fetched(rest.drop_first()));
        lemma_run_items_ok(endpoint, total_ids, hydrated, next, rest.drop_first());
        assert(next + rest.drop_first() =~= done + rest);
    }
}

/// When every request succeeds, a story list hydrates the first `limit`
/// IDs of the list in order: once the items of some of them are in, the
/// next request is for the item of the next hydrated ID; once all of them
/// are in, the answer names the endpoint, counts all the IDs, returns the
/// first `limit` of them (all when there are fewer) and their items'
/// summaries in the same order.
pub proof fn lemma_hydrates_first_ids_in_order(
    endpoint: Seq<char>,
    limit: nat,
    ids: Seq<u64>,
    items: Seq<HnItem>,
)
    requires
        items.len() <= first_n(ids, limit as int).len(),
    ensures
        items.len() < first_n(ids, limit as int).len() ==> (run_items(
            ids_step(endpoint, limit, Ok(ids)),
            fetched(items),
        ) matches StepView::FetchItem(path, p) && path == item_path_of(ids[items.len() as int] as nat)
            && p.items == summaries(items)),
        items.len() == first_n(ids, limit as int).len() ==> run_items(
            ids_step(endpoint, limit, Ok(ids)),
            fetched(items),
        ) == StepView::Done(
            OutputView {
                endpoint,
                total_ids: ids.len(),
                returned: if ids.len() < limit {
                    ids.len()
                } else {
                    limit
                },
                ids: first_n(ids, limit as int),
                items: summaries(items),
            },
        ),
{
    let empty: Seq<HnItem> = Seq::empty();
    assert(summaries(empty) =~= Seq::<ListItemSummary>::empty());
    lemma_run_items_ok(endpoint, ids.len(), first_n(ids, limit as int), empty, items);
    assert(empty + items =~= items);
}

/// A failed request ends the hydration with the request's message, and a
/// finished hydration, failed or done, asks for nothing more.
pub proof fn lemma_failure_ends_hydration(
    endpoint: Seq<char>,
    limit: nat,
    p: PendingView,
    message: Seq<char>,
    output: OutputView,
    rest: Seq<Result<HnItem, Seq<char>>>,
)
    ensures
        ids_step(endpoint, limit, Err(message)) == StepView::Failed(message),
        item_step(p, Err(message)) == StepView::Failed(message),
        run_items(StepView::Failed(message), rest) == StepView::Failed(message),
        run_items(StepView::Done(output), rest) == StepView::Done(output),
{
}

} // verus!
