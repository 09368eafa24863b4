//! Experiments over datasets: their configuration, the URL of a dataset run,
//! paging through a dataset's items and resuming after a given item.

use vstd::prelude::*;

use crate::chars::{append_str, chars_of, copy_string, owned, strip_trailing, trim_end_char};

verus! {

broadcast use vstd::string::group_string_axioms;

/// The shape of a `%Y%m%d-%H%M%S` timestamp: at least fifteen characters
/// (the year has four digits or more), ending in four digits of month and
/// day, a `-`, and six digits of hours, minutes and seconds.
pub open spec fn timestamp_shape(t: Seq<char>) -> bool {
    &&& t.len() >= 15
    &&& t[t.len() - 7] == '-'
    &&& forall|i: int|
        t.len() - 11 <= i < t.len() && i != t.len() - 7 ==> '0' <= #[trigger] t[i] <= '9'
}

/// The current UTC time as `YYYYmmdd-HHMMSS`, by `chrono`.
///
/// Trusted wrapper of `chrono::Utc::now()` formatted with
/// `%Y%m%d-%H%M%S`. Only the shape of the text is stated: the date and time
/// are the clock's. `Utc::now` takes the time since the Unix epoch, so the
/// year is 1970 or later and `%Y` writes at least four digits (with a `+`
/// before years past 9999); the other fields are zero-padded pairs of digits.
#[verifier::external_body]
fn utc_timestamp() -> (r: String)
    ensures
        timestamp_shape(r@),
{
    chrono::Utc::now().format("%Y%m%d-%H%M%S").to_string()
}

/// Configuration for running an experiment.
#[derive(Debug, Clone)]
pub struct ExperimentConfig {
    /// Name of the experiment run.
    pub name: String,
    /// Maximum number of concurrent task executions.
    pub max_concurrency: usize,
    /// Base URL for constructing dataset run URLs.
    pub base_url: String,
    /// Dataset name for constructing dataset run URLs.
    pub dataset_name: String,
}

impl Default for ExperimentConfig {
    /// A run named `experiment-` and the current time, ten tasks at a time,
    /// with no base URL and no dataset.
    fn default() -> (r: Self)
        ensures
            r.name@.len() >= 11,
            r.name@.subrange(0, 11) == "experiment-"@,
            timestamp_shape(r.name@.subrange(11, r.name@.len() as int)),
            r.max_concurrency == 10,
            r.base_url@ == Seq::<char>::empty(),
            r.dataset_name@ == Seq::<char>::empty(),
    {
        let mut name = owned("experiment-");
        let ts = utc_timestamp();
        append_str(&mut name, ts.as_str());
        proof {
            reveal_strlit("experiment-");
            assert(name@.subrange(0, 11) =~= "experiment-"@);
            assert(name@.subrange(11, name@.len() as int) =~= ts@);
        }
        ExperimentConfig {
            name,
            max_concurrency: 10,
            base_url: String::new(),
            dataset_name: String::new(),
        }
    }
}

/// The URL of a dataset run in the Langfuse UI: empty when the base URL or
/// the dataset name is empty, else the base URL without trailing slashes,
/// then `/datasets/<dataset>/runs/<run>`.
pub open spec fn dataset_run_url_spec(base_url: Seq<char>, dataset: Seq<char>, run: Seq<char>) -> Seq<
    char,
> {
    if base_url.len() == 0 || dataset.len() == 0 {
        Seq::empty()
    } else {
        strip_trailing(base_url, '/') + "/datasets/"@ + dataset + "/runs/"@ + run
    }
}

impl ExperimentConfig {
    /// Build the dataset run URL from config fields.
    pub fn dataset_run_url(&self) -> (r: String)
        ensures
            r@ == dataset_run_url_spec(self.base_url@, self.dataset_name@, self.name@),
    {
        if self.base_url.as_str().is_empty() || self.dataset_name.as_str().is_empty() {
            return String::new();
        }
        let mut r = trim_end_char(self.base_url.as_str(), '/');
        append_str(&mut r, "/datasets/");
        append_str(&mut r, self.dataset_name.as_str());
        append_str(&mut r, "/runs/");
        append_str(&mut r, self.name.as_str());
        r
    }
}

/// Configuration for batched evaluation runs.
#[derive(Debug, Clone)]
pub struct BatchedEvaluationConfig {
    /// Maximum number of concurrent task executions.
    pub max_concurrency: usize,
    /// Page size for fetching dataset items.
    pub page_size: i32,
    /// Maximum number of retries for HTTP requests.
    pub max_retries: usize,
    /// Resume token: skip items whose IDs are not after this value.
    pub start_after: Option<String>,
    /// Name for the experiment run.
    pub run_name: String,
}

impl Default for BatchedEvaluationConfig {
    /// Ten tasks at a time, pages of fifty items, three retries, no resume
    /// token, and a run named `batch-eval-` and the current time.
    fn default() -> (r: Self)
        ensures
            r.max_concurrency == 10,
            r.page_size == 50,
            r.max_retries == 3,
            r.start_after is None,
            r.run_name@.len() >= 11,
            r.run_name@.subrange(0, 11) == "batch-eval-"@,
            timestamp_shape(r.run_name@.subrange(11, r.run_name@.len() as int)),
    {
        let mut run_name = owned("batch-eval-");
        let ts = utc_timestamp();
        append_str(&mut run_name, ts.as_str());
        proof {
            reveal_strlit("batch-eval-");
            assert(run_name@.subrange(0, 11) =~= "batch-eval-"@);
            assert(run_name@.subrange(11, run_name@.len() as int) =~= ts@);
        }
        BatchedEvaluationConfig {
            max_concurrency: 10,
            page_size: 50,
            max_retries: 3,
            start_after: None,
            run_name,
        }
    }
}

impl BatchedEvaluationConfig {
    /// The experiment that a batched evaluation of `dataset_name` runs: the
    /// run name and concurrency of this configuration, against `base_url`.
    pub fn experiment_config(&self, base_url: &str, dataset_name: &str) -> (r: ExperimentConfig)
        ensures
            r.name@ == self.run_name@,
            r.max_concurrency == self.max_concurrency,
            r.base_url@ == base_url@,
            r.dataset_name@ == dataset_name@,
    {
        ExperimentConfig {
            name: copy_string(&self.run_name),
            max_concurrency: self.max_concurrency,
            base_url: owned(base_url),
            dataset_name: owned(dataset_name),
        }
    }
}

/// A dataset item.
#[derive(Debug)]
pub struct DatasetItem {
    /// Unique item identifier.
    pub id: String,
    /// ID of the parent dataset.
    pub dataset_id: String,
    /// Input data for this item.
    pub input: Option<serde_json::Value>,
    /// Expected output for evaluation.
    pub expected_output: Option<serde_json::Value>,
    /// Optional metadata.
    pub metadata: Option<serde_json::Value>,
    /// Trace ID this item was sourced from.
    pub source_trace_id: Option<String>,
    /// Observation ID this item was sourced from.
    pub source_observation_id: Option<String>,
    /// Item status (e.g. "ACTIVE").
    pub status: String,
}

/// `a` comes strictly before `b` in lexicographic order of code points,
/// which for UTF-8 text is the byte order that `str` comparison uses.
pub open spec fn lex_lt(a: Seq<char>, b: Seq<char>) -> bool
    decreases a.len(),
{
    if a.len() == 0 {
        b.len() > 0
    } else if b.len() == 0 {
        false
    } else if (a[0] as u32) < (b[0] as u32) {
        true
    } else if a[0] == b[0] {
        lex_lt(a.drop_first(), b.drop_first())
    } else {
        false
    }
}

/// Whether `a < b` as strings.
pub fn str_lt(a: &str, b: &str) -> (r: bool)
    ensures
        r == lex_lt(a@, b@),
{
    let x = chars_of(a);
    let y = chars_of(b);
    let mut i: usize = 0;
    assert(x@.subrange(0, x@.len() as int) =~= x@);
    assert(y@.subrange(0, y@.len() as int) =~= y@);
    while i < x.len() && i < y.len() && x[i] == y[i]
        invariant
            i <= x@.len(),
            i <= y@.len(),
            lex_lt(a@, b@) == lex_lt(
                x@.subrange(i as int, x@.len() as int),
                y@.subrange(i as int, y@.len() as int),
            ),
        decreases x.len() - i,
    {
        assert(x@.subrange(i as int, x@.len() as int).drop_first() =~= x@.subrange(
            i + 1,
            x@.len() as int,
        ));
        assert(y@.subrange(i as int, y@.len() as int).drop_first() =~= y@.subrange(
            i + 1,
            y@.len() as int,
        ));
        i = i + 1;
    }
    if i == x.len() {
        i < y.len()
    } else if i == y.len() {
        false
    } else {
        (x[i] as u32) < (y[i] as u32)
    }
}

/// The items kept when resuming after `start_after`: those whose id comes
/// after it.
pub open spec fn kept_after(items: Seq<DatasetItem>, start_after: Seq<char>) -> Seq<DatasetItem> {
    items.filter(comes_after(start_after))
}

/// The test that an item's id comes after `start_after`.
pub open spec fn comes_after(start_after: Seq<char>) -> spec_fn(DatasetItem) -> bool {
    |it: DatasetItem| lex_lt(start_after, it.id@)
}

/// Apply the resume token: without one every item stays; with one, only the
/// items whose id comes after it stay, in their order.
pub fn keep_after(items: Vec<DatasetItem>, start_after: &Option<String>) -> (r: Vec<DatasetItem>)
    ensures
        r@ == (match start_after {
            None => items@,
            Some(s) => kept_after(items@, s@),
        }),
{
    match start_after {
        None => items,
        Some(s) => {
            let ghost all = items@;
            let ghost pred = comes_after(s@);
            let mut kept: Vec<DatasetItem> = Vec::new();
            proof {
                reveal(Seq::filter);
                assert(all.take(0) =~= Seq::<DatasetItem>::empty());
            }
            for item in it: items.into_iter()
                invariant
                    it.seq() == all,
                    pred == comes_after(s@),
                    kept@ == all.take(it.index() as int).filter(pred),
            {
                let ghost i = it.index();
                proof {
                    reveal(Seq::filter);
                    assert(all.take(i + 1).drop_last() =~= all.take(i as int));
                    assert(all.take(i + 1).last() == item);
                    assert(all.take(i + 1).filter(pred) == (if pred(item) {
                        all.take(i as int).filter(pred).push(item)
                    } else {
                        all.take(i as int).filter(pred)
                    }));
                }
                let keep = str_lt(s.as_str(), item.id.as_str());
                if keep {
                    kept.push(item);
                }
            }
            proof {
                assert(all.take(all.len() as int) =~= all);
            }
            kept
        },
    }
}

/// Pages of a paged listing collected in order.
pub struct Pager<T> {
    page: i32,
    page_size: i32,
    done: bool,
    items: Vec<T>,
}

/// The state of a [`Pager`]: next page, page size, whether it is done, and
/// the items collected so far.
pub struct PagerView<T> {
    /// The page to fetch next (counted from one).
    pub page: int,
    /// The page size asked for.
    pub page_size: int,
    /// Whether the listing is complete.
    pub done: bool,
    /// The items of the pages fetched, in order.
    pub items: Seq<T>,
}

impl<T> View for Pager<T> {
    type V = PagerView<T>;

    closed spec fn view(&self) -> PagerView<T> {
        PagerView {
            page: self.page as int,
            page_size: self.page_size as int,
            done: self.done,
            items: self.items@,
        }
    }
}

/// A page with `fetched` items ends the listing: it holds fewer items than
/// were asked for (the count taken as an `i32`, as the request does).
pub open spec fn is_last_page(fetched: usize, page_size: i32) -> bool {
    (fetched as i32) < page_size
}

impl<T> Pager<T> {
    /// A listing of pages of `page_size` items, starting at page one.
    pub fn new(page_size: i32) -> (r: Pager<T>)
        ensures
            r@.page == 1,
            r@.page_size == page_size,
            !r@.done,
            r@.items == Seq::<T>::empty(),
    {
        Pager { page: 1, page_size, done: false, items: Vec::new() }
    }

    /// The page to fetch next, or `None` once the listing is complete.
    pub fn next_page(&self) -> (r: Option<i32>)
        ensures
            r == (if self@.done {
                None
            } else {
                Some(self@.page as i32)
            }),
    {
        if self.done {
            None
        } else {
            Some(self.page)
        }
    }

    /// Whether another page may follow the current one without the page
    /// counter leaving `i32`.
    pub fn can_advance(&self) -> (r: bool)
        ensures
            r == (self@.page < i32::MAX),
    {
        self.page < i32::MAX
    }

    /// Take in the items of the page just fetched: they join the collected
    /// items; a short page completes the listing, a full one moves on to the
    /// next page.
    pub fn receive(&mut self, batch: Vec<T>)
        requires
            !old(self)@.done,
            is_last_page(batch@.len() as usize, old(self)@.page_size as i32) || old(self)@.page
                < i32::MAX,
        ensures
            final(self)@.items == old(self)@.items + batch@,
            final(self)@.page_size == old(self)@.page_size,
            final(self)@.done == is_last_page(batch@.len() as usize, old(self)@.page_size as i32),
            final(self)@.page == (if final(self)@.done {
                old(self)@.page
            } else {
                old(self)@.page + 1
            }),
    {
        let fetched = batch.len();
        let mut batch = batch;
        self.items.append(&mut batch);
        if (fetched as i32) < self.page_size {
            self.done = true;
        } else {
            self.page = self.page + 1;
        }
    }

    /// The collected items.
    pub fn into_items(self) -> (r: Vec<T>)
        ensures
            r@ == self@.items,
    {
        self.items
    }
}

} // verus!
