//! What the server remembers of earlier answers, and for how long.
//!
//! The list of metric names and the values of each label change slowly, so
//! an answer is kept for the configured time to live and handed out again
//! while it is fresh. Times are nanoseconds on a clock of the caller that
//! never runs backwards.

use crate::json::JsonValue;
use crate::names::{
    lemma_lookup_at, lemma_lookup_none, lemma_lookup_push, lemma_lookup_update, lookup,
};
use crate::prometheus_client::{
    after_attempt, answer_of, data_strings, is_retry_start, label_values_plan, list_metrics_plan,
    metadata_plan, query_plan, range_plan, series_plan, ErrorView, HttpReply, PlanView,
    PrometheusClient, PrometheusError, RequestPlan, Retry, TransportError,
};
use crate::prometheus_config::{ConfigView, PrometheusConfig};
use crate::query_result::PrometheusQueryResult;
use crate::text::{str_eq, texts};
use vstd::prelude::*;
use vstd::string::*;

verus! {

/// An answer that is kept: when it was fetched, and what it was.
#[derive(Debug)]
pub struct CachedValue {
    pub fetched_at: u64,
    pub values: Vec<String>,
}

/// The mathematical value of a [`CachedValue`].
pub ghost struct SlotView {
    pub fetched_at: u64,
    pub values: Seq<Seq<char>>,
}

impl View for CachedValue {
    type V = SlotView;

    open spec fn view(&self) -> SlotView {
        SlotView { fetched_at: self.fetched_at, values: texts(self.values@) }
    }
}

/// The nanoseconds from `then` to `now`; none where `now` is the earlier.
pub open spec fn elapsed(now: u64, then: u64) -> nat {
    if now >= then {
        (now - then) as nat
    } else {
        0
    }
}

/// Whether an answer fetched at `fetched_at` is too old at `now`: more than
/// the time to live has passed. With a time to live of zero nothing is ever
/// too old, and nothing is ever kept.
pub open spec fn is_expired(fetched_at: u64, now: u64, ttl_secs: u64) -> bool {
    ttl_secs > 0 && elapsed(now, fetched_at) > ttl_secs as nat * 1_000_000_000
}

/// What a read at `now` finds in a slot: the kept answer where the time to
/// live is not zero and the answer is not too old, and otherwise nothing,
/// so that it has to be fetched.
pub open spec fn read(slot: Option<SlotView>, ttl_secs: u64, now: u64) -> Option<Seq<Seq<char>>> {
    match slot {
        Some(kept) => if ttl_secs > 0 && !is_expired(kept.fetched_at, now, ttl_secs) {
            Some(kept.values)
        } else {
            None
        },
        None => None,
    }
}

/// The slot after an answer fetched at `now` is written to it: with a time
/// to live of zero the slot stays as it is.
pub open spec fn write(
    slot: Option<SlotView>,
    ttl_secs: u64,
    now: u64,
    values: Seq<Seq<char>>,
) -> Option<SlotView> {
    if ttl_secs > 0 {
        Some(SlotView { fetched_at: now, values })
    } else {
        slot
    }
}

/// A read at `now` that fetches where it has to: the slot afterwards, the
/// answer that is handed out, and whether it was fetched. `upstream` is the
/// answer that a fetch would bring.
pub open spec fn read_through(
    slot: Option<SlotView>,
    ttl_secs: u64,
    now: u64,
    upstream: Seq<Seq<char>>,
) -> (Option<SlotView>, Seq<Seq<char>>, bool) {
    match read(slot, ttl_secs, now) {
        Some(kept) => (slot, kept, false),
        None => (write(slot, ttl_secs, now, upstream), upstream, true),
    }
}

/// How many of a series of reads fetch. Each read comes with its time and
/// with the answer that a fetch would bring then.
pub open spec fn fetch_count(
    slot: Option<SlotView>,
    ttl_secs: u64,
    reads: Seq<(u64, Seq<Seq<char>>)>,
) -> nat
    decreases reads.len(),
{
    if reads.len() == 0 {
        0
    } else {
        let first = read_through(slot, ttl_secs, reads[0].0, reads[0].1);
        fetch_count(first.0, ttl_secs, reads.skip(1)) + if first.2 {
            1nat
        } else {
            0nat
        }
    }
}

/// A read that follows a write within the time to live finds what was
/// written.
pub proof fn lemma_read_after_write(
    slot: Option<SlotView>,
    ttl_secs: u64,
    written_at: u64,
    values: Seq<Seq<char>>,
    now: u64,
)
    requires
        ttl_secs > 0,
        elapsed(now, written_at) <= ttl_secs as nat * 1_000_000_000,
    ensures
        read(write(slot, ttl_secs, written_at, values), ttl_secs, now) == Some(values),
{
}

/// A read after the time to live has passed fetches, and a read that
/// follows it within the time to live does not fetch again: it finds what
/// the first of the two fetched.
pub proof fn lemma_expired_read_fetches_once(
    slot: Option<SlotView>,
    ttl_secs: u64,
    written_at: u64,
    values: Seq<Seq<char>>,
    now: u64,
    upstream: Seq<Seq<char>>,
    later: u64,
    later_upstream: Seq<Seq<char>>,
)
    requires
        ttl_secs > 0,
        elapsed(now, written_at) > ttl_secs as nat * 1_000_000_000,
        elapsed(later, now) <= ttl_secs as nat * 1_000_000_000,
    ensures
        ({
            let written = write(slot, ttl_secs, written_at, values);
            let first = read_through(written, ttl_secs, now, upstream);
            let second = read_through(first.0, ttl_secs, later, later_upstream);
            &&& first.1 == upstream
            &&& first.2
            &&& second.1 == upstream
            &&& !second.2
            &&& fetch_count(written, ttl_secs, seq![(now, upstream), (later, later_upstream)]) == 1
        }),
{
    let written = write(slot, ttl_secs, written_at, values);
    let reads = seq![(now, upstream), (later, later_upstream)];
    let first = read_through(written, ttl_secs, now, upstream);
    reveal_with_fuel(fetch_count, 3);
    assert(reads.skip(1) =~= seq![(later, later_upstream)]);
    assert(reads.skip(1).skip(1) =~= Seq::empty());
}

/// With a time to live of zero nothing is kept: every read fetches.
pub proof fn lemma_no_ttl_always_fetches(
    slot: Option<SlotView>,
    reads: Seq<(u64, Seq<Seq<char>>)>,
)
    ensures
        fetch_count(slot, 0, reads) == reads.len(),
        forall|now: u64| read(slot, 0, now) is None,
    decreases reads.len(),
{
    if reads.len() > 0 {
        lemma_no_ttl_always_fetches(slot, reads.skip(1));
    }
}

/// One label with the values kept for it.
#[derive(Debug)]
pub struct LabelEntry {
    pub label: String,
    pub kept: CachedValue,
}

/// The views of the kept labels.
pub open spec fn entries_view(entries: Seq<LabelEntry>) -> Seq<(Seq<char>, SlotView)> {
    Seq::new(entries.len(), |i: int| (entries[i].label@, entries[i].kept@))
}

/// The repository in front of the HTTP API: the client, and the answers
/// that are kept.
#[derive(Debug)]
pub struct HttpPrometheusRepository {
    client: PrometheusClient,
    metrics_cache: Option<CachedValue>,
    labels_cache: Vec<LabelEntry>,
    cache_ttl_secs: u64,
}

/// The mathematical value of a [`HttpPrometheusRepository`]: the time to
/// live in seconds, the slot of the metric names, and the slot of each
/// label.
pub ghost struct RepositoryView {
    pub config: ConfigView,
    pub ttl_secs: u64,
    pub metrics: Option<SlotView>,
    pub labels: Map<Seq<char>, SlotView>,
}

impl RepositoryView {
    /// The slot of a label.
    pub open spec fn label(self, name: Seq<char>) -> Option<SlotView> {
        if self.labels.dom().contains(name) {
            Some(self.labels[name])
        } else {
            None
        }
    }
}

impl View for HttpPrometheusRepository {
    type V = RepositoryView;

    closed spec fn view(&self) -> RepositoryView {
        let entries = entries_view(self.labels_cache@);
        RepositoryView {
            config: self.client.config@,
            ttl_secs: self.cache_ttl_secs,
            metrics: match self.metrics_cache {
                Some(kept) => Some(kept@),
                None => None,
            },
            labels: Map::new(
                |k: Seq<char>| lookup(entries, k) is Some,
                |k: Seq<char>| lookup(entries, k)->0,
            ),
        }
    }
}

/// A copy of a list of texts.
fn copy_texts(items: &Vec<String>) -> (out: Vec<String>)
    ensures
        texts(out@) == texts(items@),
{
    let mut out: Vec<String> = Vec::new();
    let mut i: usize = 0;
    while i < items.len()
        invariant
            i <= items.len(),
            out.len() == i,
            forall|j: int| 0 <= j < i ==> (#[trigger] out@[j])@ == items@[j]@,
        decreases items.len() - i,
    {
        out.push(items[i].clone());
        i = i + 1;
    }
    assert(texts(out@) =~= texts(items@));
    out
}

/// What a read at `now` finds in a slot.
fn read_slot(slot: &Option<CachedValue>, ttl_secs: u64, now: u64) -> (r: Option<Vec<String>>)
    ensures
        (match r {
            Some(values) => Some(texts(values@)),
            None => None,
        }) == read(
            match *slot {
                Some(kept) => Some(kept@),
                None => None,
            },
            ttl_secs,
            now,
        ),
{
    if ttl_secs == 0 {
        return None;
    }
    match slot {
        Some(kept) => {
            if HttpPrometheusRepository::is_expired(kept.fetched_at, now, ttl_secs) {
                None
            } else {
                Some(copy_texts(&kept.values))
            }
        },
        None => None,
    }
}

impl HttpPrometheusRepository {
    /// A repository for the given configuration, with nothing kept yet. The
    /// time to live is that of the configuration, and zero where it has
    /// none.
    pub fn new(config: PrometheusConfig) -> (repo: Self)
        ensures
            repo@ == (RepositoryView {
                config: config@,
                ttl_secs: match config.cache_ttl_secs {
                    Some(secs) => secs,
                    None => 0,
                },
                metrics: None,
                labels: Map::empty(),
            }),
    {
        let ttl = match config.cache_ttl_secs {
            Some(secs) => secs,
            None => 0,
        };
        let repo = HttpPrometheusRepository {
            client: PrometheusClient::new(config),
            metrics_cache: None,
            labels_cache: Vec::new(),
            cache_ttl_secs: ttl,
        };
        proof {
            lemma_lookup_nowhere(entries_view(repo.labels_cache@));
            assert(repo@.labels =~= Map::empty());
        }
        repo
    }

    /// The client that makes the requests of this repository.
    pub fn client(&self) -> (client: &PrometheusClient)
        ensures
            client.config@ == self@.config,
    {
        &self.client
    }

    /// Whether an answer fetched at `fetched_at` is too old at `now`.
    pub fn is_expired(fetched_at: u64, now: u64, ttl_secs: u64) -> (r: bool)
        ensures
            r == is_expired(fetched_at, now, ttl_secs),
    {
        if ttl_secs == 0 || now < fetched_at {
            return false;
        }
        let passed: u128 = (now - fetched_at) as u128;
        let ttl: u128 = ttl_secs as u128 * 1_000_000_000u128;
        passed > ttl
    }

    /// The metric names that are kept and still fresh at `now`. `None`
    /// means that they have to be fetched.
    pub fn cached_metrics(&self, now: u64) -> (r: Option<Vec<String>>)
        ensures
            (match r {
                Some(values) => Some(texts(values@)),
                None => None,
            }) == read(self@.metrics, self@.ttl_secs, now),
    {
        read_slot(&self.metrics_cache, self.cache_ttl_secs, now)
    }

    /// Keeps the metric names that were fetched at `now`.
    pub fn store_metrics(&mut self, now: u64, fresh: &Vec<String>)
        ensures
            final(self)@ == (RepositoryView {
                metrics: write(old(self)@.metrics, old(self)@.ttl_secs, now, texts(fresh@)),
                ..old(self)@
            }),
    {
        if self.cache_ttl_secs > 0 {
            self.metrics_cache = Some(CachedValue { fetched_at: now, values: copy_texts(fresh) });
        }
    }

    /// The values of a label that are kept and still fresh at `now`. `None`
    /// means that they have to be fetched.
    pub fn cached_label_values(&self, label_name: &str, now: u64) -> (r: Option<Vec<String>>)
        ensures
            (match r {
                Some(values) => Some(texts(values@)),
                None => None,
            }) == read(self@.label(label_name@), self@.ttl_secs, now),
    {
        if self.cache_ttl_secs == 0 {
            return None;
        }
        let ghost entries = entries_view(self.labels_cache@);
        let mut i: usize = 0;
        while i < self.labels_cache.len()
            invariant
                i <= self.labels_cache.len(),
                entries == entries_view(self.labels_cache@),
                self.cache_ttl_secs > 0,
                forall|j: int| 0 <= j < i ==> (#[trigger] entries[j]).0 != label_name@,
            decreases self.labels_cache.len() - i,
        {
            if str_eq(self.labels_cache[i].label.as_str(), label_name) {
                proof {
                    lemma_lookup_at(entries, label_name@, i as int);
                }
                let kept = &self.labels_cache[i].kept;
                if Self::is_expired(kept.fetched_at, now, self.cache_ttl_secs) {
                    return None;
                } else {
                    return Some(copy_texts(&kept.values));
                }
            }
            i = i + 1;
        }
        proof {
            lemma_lookup_none(entries, label_name@);
        }
        None
    }

    /// Keeps the values of a label that were fetched at `now`.
    pub fn store_label_values(&mut self, label_name: &str, now: u64, fresh: &Vec<String>)
        ensures
            final(self)@ == (RepositoryView {
                labels: match write(
                    old(self)@.label(label_name@),
                    old(self)@.ttl_secs,
                    now,
                    texts(fresh@),
                ) {
                    Some(slot) => old(self)@.labels.insert(label_name@, slot),
                    None => old(self)@.labels,
                },
                ..old(self)@
            }),
    {
        if self.cache_ttl_secs == 0 {
            proof {
                let labels = self@.labels;
                if labels.dom().contains(label_name@) {
                    assert(labels.insert(label_name@, labels[label_name@]) =~= labels);
                }
            }
            return ;
        }
        let ghost entries = entries_view(self.labels_cache@);
        let ghost slot = SlotView { fetched_at: now, values: texts(fresh@) };
        let mut i: usize = 0;
        while i < self.labels_cache.len()
            invariant
                i <= self.labels_cache.len(),
                *self == *old(self),
                self.cache_ttl_secs > 0,
                slot == (SlotView { fetched_at: now, values: texts(fresh@) }),
                entries == entries_view(self.labels_cache@),
                forall|j: int| 0 <= j < i ==> (#[trigger] entries[j]).0 != label_name@,
            decreases self.labels_cache.len() - i,
        {
            if str_eq(self.labels_cache[i].label.as_str(), label_name) {
                let entry = LabelEntry {
                    label: String::from_str(label_name),
                    kept: CachedValue { fetched_at: now, values: copy_texts(fresh) },
                };
                self.labels_cache.set(i, entry);
                proof {
                    let after = entries_view(self.labels_cache@);
                    assert forall|j: int| 0 <= j < after.len() implies after[j] == entries.update(
                        i as int,
                        (label_name@, slot),
                    )[j] by {
                        if j != i {
                            assert(self.labels_cache@[j] == old(self).labels_cache@[j]);
                        }
                    }
                    assert(after =~= entries.update(i as int, (label_name@, slot)));
                    lemma_lookup_update(entries, i as int, label_name@, slot);
                    assert(self@.labels =~= old(self)@.labels.insert(label_name@, slot));
                }
                return ;
            }
            i = i + 1;
        }
        let entry = LabelEntry {
            label: String::from_str(label_name),
            kept: CachedValue { fetched_at: now, values: copy_texts(fresh) },
        };
        self.labels_cache.push(entry);
        proof {
            let after = entries_view(self.labels_cache@);
            assert(after =~= entries.push((label_name@, slot)));
            lemma_lookup_push(entries, label_name@, slot);
            assert(self@.labels =~= old(self)@.labels.insert(label_name@, slot));
        }
    }
}

/// What a read comes to: the answer that is kept, or the request that
/// fetches a fresh one.
#[derive(Debug)]
pub enum Lookup {
    Cached(Vec<String>),
    Fetch(RequestPlan),
}

/// What a read of a slot at `now` comes to, where `plan` fetches a fresh
/// answer.
pub open spec fn is_lookup(
    r: Lookup,
    slot: Option<SlotView>,
    ttl_secs: u64,
    now: u64,
    plan: PlanView,
) -> bool {
    match read(slot, ttl_secs, now) {
        Some(values) => r matches Lookup::Cached(kept) && texts(kept@) == values,
        None => r matches Lookup::Fetch(request) && request@ == plan,
    }
}

impl HttpPrometheusRepository {
    /// An instant query: its request, and where its attempts start. Queries
    /// are never kept.
    pub fn query(&self, query: &str, time: Option<&str>) -> (r: (
        RequestPlan,
        Retry<PrometheusQueryResult>,
    ))
        ensures
            r.0@ == query_plan(
                self@.config,
                query@,
                match time {
                    Some(t) => Some(t@),
                    None => None,
                },
            ),
            is_retry_start(r.1, self@.config.retries),
    {
        (self.client.query(query, time), self.client.execute_with_retry())
    }

    /// A range query: its request, and where its attempts start. Queries
    /// are never kept.
    pub fn query_range(&self, query: &str, start: &str, end: &str, step: &str) -> (r: (
        RequestPlan,
        Retry<PrometheusQueryResult>,
    ))
        ensures
            r.0@ == range_plan(self@.config, query@, start@, end@, step@),
            is_retry_start(r.1, self@.config.retries),
    {
        (self.client.query_range(query, start, end, step), self.client.execute_with_retry())
    }

    /// The state of a query after one of its attempts.
    pub fn retry_after(
        &self,
        remaining: u32,
        outcome: Result<PrometheusQueryResult, PrometheusError>,
    ) -> (state: Retry<PrometheusQueryResult>)
        ensures
            state == after_attempt(remaining, self@.config.retry_backoff_ms, outcome),
    {
        self.client.retry_after(remaining, outcome)
    }

    /// The metric names at `now`: those that are kept, or the request that
    /// fetches them.
    pub fn list_metrics(&self, now: u64) -> (r: Lookup)
        ensures
            is_lookup(r, self@.metrics, self@.ttl_secs, now, list_metrics_plan(self@.config)),
    {
        match self.cached_metrics(now) {
            Some(kept) => Lookup::Cached(kept),
            None => Lookup::Fetch(self.client.list_metrics()),
        }
    }

    /// What a fetch of the metric names at `now` came to. The names of an
    /// answer are kept; after a failure everything stays as it is.
    pub fn list_metrics_fetched(&mut self, now: u64, sent: Result<HttpReply, TransportError>) -> (r:
        Result<Vec<String>, PrometheusError>)
        ensures
            match r {
                Ok(names) => answer_of(sent) matches Ok(answer) && texts(names@) == data_strings(
                    answer,
                ) && final(self)@ == (RepositoryView {
                    metrics: write(old(self)@.metrics, old(self)@.ttl_secs, now, texts(names@)),
                    ..old(self)@
                }),
                Err(e) => answer_of(sent) == Err::<JsonValue, ErrorView>(e@) && final(self)@ == old(
                    self,
                )@,
            },
    {
        match PrometheusClient::names_outcome(sent) {
            Ok(names) => {
                self.store_metrics(now, &names);
                Ok(names)
            },
            Err(e) => Err(e),
        }
    }

    /// The request for the metadata of a metric. It is never kept.
    pub fn get_metadata(&self, metric: &str) -> (plan: RequestPlan)
        ensures
            plan@ == metadata_plan(self@.config, metric@),
    {
        self.client.get_metadata(metric)
    }

    /// The request for the series that the selectors match. They are never
    /// kept.
    pub fn get_series(&self, match_strings: &Vec<String>) -> (plan: RequestPlan)
        ensures
            plan@ == series_plan(self@.config, texts(match_strings@)),
    {
        self.client.get_series(match_strings)
    }

    /// The values of a label at `now`: those that are kept, or the request
    /// that fetches them.
    pub fn get_label_values(&self, label_name: &str, now: u64) -> (r: Lookup)
        ensures
            is_lookup(
                r,
                self@.label(label_name@),
                self@.ttl_secs,
                now,
                label_values_plan(self@.config, label_name@),
            ),
    {
        match self.cached_label_values(label_name, now) {
            Some(kept) => Lookup::Cached(kept),
            None => Lookup::Fetch(self.client.get_label_values(label_name)),
        }
    }

    /// What a fetch of the values of a label at `now` came to. The values
    /// of an answer are kept; after a failure everything stays as it is.
    pub fn label_values_fetched(
        &mut self,
        label_name: &str,
        now: u64,
        sent: Result<HttpReply, TransportError>,
    ) -> (r: Result<Vec<String>, PrometheusError>)
        ensures
            match r {
                Ok(values) => answer_of(sent) matches Ok(answer) && texts(values@) == data_strings(
                    answer,
                ) && final(self)@ == (RepositoryView {
                    labels: match write(
                        old(self)@.label(label_name@),
                        old(self)@.ttl_secs,
                        now,
                        texts(values@),
                    ) {
                        Some(slot) => old(self)@.labels.insert(label_name@, slot),
                        None => old(self)@.labels,
                    },
                    ..old(self)@
                }),
                Err(e) => answer_of(sent) == Err::<JsonValue, ErrorView>(e@) && final(self)@ == old(
                    self,
                )@,
            },
    {
        match PrometheusClient::names_outcome(sent) {
            Ok(values) => {
                self.store_label_values(label_name, now, &values);
                Ok(values)
            },
            Err(e) => Err(e),
        }
    }
}

/// Nothing is found in an empty list.
proof fn lemma_lookup_nowhere(entries: Seq<(Seq<char>, SlotView)>)
    requires
        entries.len() == 0,
    ensures
        forall|k: Seq<char>| lookup(entries, k) is None,
{
    assert forall|k: Seq<char>| lookup(entries, k) is None by {
        lemma_lookup_none(entries, k);
    }
}

/// The repository that the handlers are given: one that works, or the
/// failure that kept it from being set up.
#[derive(Debug)]
pub enum Repository {
    Http(HttpPrometheusRepository),
    Unavailable(PrometheusError),
}

/// The repository for the outcome of setting one up.
pub fn get_repository(built: Result<HttpPrometheusRepository, PrometheusError>) -> (repo:
    Repository)
    ensures
        repo == match built {
            Ok(http) => Repository::Http(http),
            Err(e) => Repository::Unavailable(e),
        },
{
    match built {
        Ok(http) => Repository::Http(http),
        Err(e) => Repository::Unavailable(e),
    }
}

impl Repository {
    /// The failure with which every call of a repository ends that could
    /// not be set up: a failure of the API that quotes the first one in its
    /// detailed form. `None` for a repository that works.
    pub fn failure(&self) -> (r: Option<PrometheusError>)
        ensures
            match *self {
                Repository::Http(_) => r is None,
                Repository::Unavailable(cause) => r matches Some(e) && e@ == ErrorView::Api(
                    "Repository init error: "@ + cause@.detail(),
                ),
            },
    {
        match self {
            Repository::Http(_) => None,
            Repository::Unavailable(cause) => Some(
                PrometheusError::ApiError(
                    String::from_str("Repository init error: ").concat(cause.detail().as_str()),
                ),
            ),
        }
    }
}

} // verus!
