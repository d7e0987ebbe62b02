use vstd::prelude::*;
use crate::error::ScheduleError;

verus! {

/// What the caller of the fetcher has to do next, or what the fetch came to.
///
/// The fetcher decides; the caller touches the disk and the network and
/// reports back with an [`Outcome`].
#[derive(Clone, Debug, PartialEq, Eq)]
pub enum Step {
    /// Ask the cache whether it holds the key.
    Probe,
    /// Send the one GET request.
    Download,
    /// Write this body to the cache under the key.
    Store(String),
    /// Read the key's content from the cache.
    Load,
    /// The fetch is over: this is the content.
    Deliver(String),
    /// The fetch is over: it failed.
    Fail(ScheduleError),
}

pub enum StepView {
    Probe,
    Download,
    Store(Seq<char>),
    Load,
    Deliver(Seq<char>),
    Fail(ScheduleError),
}

impl View for Step {
    type V = StepView;

    open spec fn view(&self) -> StepView {
        match self {
            Step::Probe => StepView::Probe,
            Step::Download => StepView::Download,
            Step::Store(body) => StepView::Store(body@),
            Step::Load => StepView::Load,
            Step::Deliver(content) => StepView::Deliver(content@),
            Step::Fail(e) => StepView::Fail(*e),
        }
    }
}

/// What came of a step.
#[derive(Clone, Debug, PartialEq, Eq)]
pub enum Outcome {
    /// Of `Probe`: whether the cache holds the key.
    Cached(bool),
    /// Of `Download`: the body of a successful response; `None` where the
    /// request did not complete or the status was no success.
    Body(Option<String>),
    /// Of `Store`: whether the write succeeded.
    Stored(bool),
    /// Of `Load`: the content read; `None` where the read failed.
    Content(Option<String>),
}

pub enum OutcomeView {
    Cached(bool),
    Body(Option<Seq<char>>),
    Stored(bool),
    Content(Option<Seq<char>>),
}

impl View for Outcome {
    type V = OutcomeView;

    open spec fn view(&self) -> OutcomeView {
        match self {
            Outcome::Cached(c) => OutcomeView::Cached(*c),
            Outcome::Body(Some(b)) => OutcomeView::Body(Some(b@)),
            Outcome::Body(None) => OutcomeView::Body(None),
            Outcome::Stored(s) => OutcomeView::Stored(*s),
            Outcome::Content(Some(c)) => OutcomeView::Content(Some(c@)),
            Outcome::Content(None) => OutcomeView::Content(None),
        }
    }
}

/// The step after `step`, once `outcome` is known.
///
/// A cached key is read and nothing is requested. A key that is not cached
/// is requested once; the body is stored, then delivered. A failed request
/// ends the fetch with `NetworkError`, a failed write or read with `IoError`.
/// An outcome that does not answer the step changes nothing.
pub open spec fn next_step(step: StepView, outcome: OutcomeView) -> StepView {
    match (step, outcome) {
        (StepView::Probe, OutcomeView::Cached(true)) => StepView::Load,
        (StepView::Probe, OutcomeView::Cached(false)) => StepView::Download,
        (StepView::Download, OutcomeView::Body(Some(body))) => StepView::Store(body),
        (StepView::Download, OutcomeView::Body(None)) => StepView::Fail(
            ScheduleError::NetworkError,
        ),
        (StepView::Store(body), OutcomeView::Stored(true)) => StepView::Deliver(body),
        (StepView::Store(_), OutcomeView::Stored(false)) => StepView::Fail(ScheduleError::IoError),
        (StepView::Load, OutcomeView::Content(Some(content))) => StepView::Deliver(content),
        (StepView::Load, OutcomeView::Content(None)) => StepView::Fail(ScheduleError::IoError),
        (s, _) => s,
    }
}

/// The step a fetch begins with.
pub fn begin() -> (r: Step)
    ensures
        r@ == StepView::Probe,
{
    Step::Probe
}

/// Decides the next step of a fetch.
pub fn advance(step: Step, outcome: Outcome) -> (r: Step)
    ensures
        r@ == next_step(step@, outcome@),
{
    match step {
        Step::Probe => match outcome {
            Outcome::Cached(true) => Step::Load,
            Outcome::Cached(false) => Step::Download,
            _ => Step::Probe,
        },
        Step::Download => match outcome {
            Outcome::Body(Some(body)) => Step::Store(body),
            Outcome::Body(None) => Step::Fail(ScheduleError::NetworkError),
            _ => Step::Download,
        },
        Step::Store(body) => match outcome {
            Outcome::Stored(true) => Step::Deliver(body),
            Outcome::Stored(false) => Step::Fail(ScheduleError::IoError),
            _ => Step::Store(body),
        },
        Step::Load => match outcome {
            Outcome::Content(Some(content)) => Step::Deliver(content),
            Outcome::Content(None) => Step::Fail(ScheduleError::IoError),
            _ => Step::Load,
        },
        Step::Deliver(content) => Step::Deliver(content),
        Step::Fail(e) => Step::Fail(e),
    }
}

impl StepView {
    /// Whether the fetch is over.
    pub open spec fn finished(self) -> bool {
        self is Deliver || self is Fail
    }
}

impl Step {
    /// Whether the fetch is over.
    pub open spec fn finished(self) -> bool {
        self@.finished()
    }

    /// Whether there is nothing left to do.
    pub fn is_finished(&self) -> (r: bool)
        ensures
            r == self.finished(),
    {
        match self {
            Step::Deliver(_) => true,
            Step::Fail(_) => true,
            _ => false,
        }
    }

    /// What a finished fetch came to; `None` while it is under way.
    pub fn into_result(self) -> (r: Option<Result<String, ScheduleError>>)
        ensures
            match r {
                Some(Ok(content)) => self@ == StepView::Deliver(content@),
                Some(Err(e)) => self@ == StepView::Fail(e),
                None => !self.finished(),
            },
    {
        match self {
            Step::Deliver(content) => Some(Ok(content)),
            Step::Fail(e) => Some(Err(e)),
            _ => None,
        }
    }
}

/// A cache that keeps what is written to it, by path.
pub type Store = Map<Seq<char>, Seq<char>>;

/// A fetch played against a store that keeps what is written and a service
/// that answers every request with `remote`.
pub struct Run {
    /// The store when the fetch is over.
    pub store: Store,
    /// The step reached.
    pub step: StepView,
    /// How many requests went to the service.
    pub requests: nat,
}

/// What such a store and service answer to a step.
pub open spec fn answer(store: Store, remote: Option<Seq<char>>, path: Seq<char>, step: StepView)
    -> OutcomeView {
    match step {
        StepView::Download => OutcomeView::Body(remote),
        StepView::Store(_) => OutcomeView::Stored(true),
        StepView::Load => OutcomeView::Content(
            if store.contains_key(path) {
                Some(store[path])
            } else {
                None
            },
        ),
        _ => OutcomeView::Cached(store.contains_key(path)),
    }
}

/// What a step leaves in such a store: a `Store` writes its body.
pub open spec fn written(store: Store, path: Seq<char>, step: StepView) -> Store {
    match step {
        StepView::Store(body) => store.insert(path, body),
        _ => store,
    }
}

/// Plays up to `turns` steps from `step`.
pub open spec fn play(
    store: Store,
    remote: Option<Seq<char>>,
    path: Seq<char>,
    step: StepView,
    requests: nat,
    turns: nat,
) -> Run
    decreases turns,
{
    if turns == 0 || step.finished() {
        Run { store, step, requests }
    } else {
        play(
            written(store, path, step),
            remote,
            path,
            next_step(step, answer(store, remote, path, step)),
            if step is Download {
                requests + 1
            } else {
                requests
            },
            (turns - 1) as nat,
        )
    }
}

/// A whole fetch of `path`: no fetch takes more than three steps.
pub open spec fn fetch_run(store: Store, remote: Option<Seq<char>>, path: Seq<char>) -> Run {
    play(store, remote, path, StepView::Probe, 0, 3)
}

/// A cached key is delivered from the cache, whatever the service would
/// say: nothing is requested and the store stays as it is.
pub proof fn cached_key_needs_no_request(
    store: Store,
    remote: Option<Seq<char>>,
    path: Seq<char>,
)
    requires
        store.contains_key(path),
    ensures
        fetch_run(store, remote, path).step == StepView::Deliver(store[path]),
        fetch_run(store, remote, path).requests == 0,
        fetch_run(store, remote, path).store == store,
{
    reveal_with_fuel(play, 4);
}

/// A key that is not cached costs one request; the body is delivered and is
/// in the store afterwards.
pub proof fn missing_key_is_requested_once(store: Store, body: Seq<char>, path: Seq<char>)
    requires
        !store.contains_key(path),
    ensures
        fetch_run(store, Some(body), path).step == StepView::Deliver(body),
        fetch_run(store, Some(body), path).requests == 1,
        fetch_run(store, Some(body), path).store == store.insert(path, body),
{
    reveal_with_fuel(play, 4);
}

/// Where the request fails nothing is stored, and the fetch fails with
/// `NetworkError`.
pub proof fn failed_request_stores_nothing(store: Store, path: Seq<char>)
    requires
        !store.contains_key(path),
    ensures
        fetch_run(store, None, path).step == StepView::Fail(ScheduleError::NetworkError),
        fetch_run(store, None, path).requests == 1,
        fetch_run(store, None, path).store == store,
{
    reveal_with_fuel(play, 4);
}

/// Every fetch ends within its three steps, delivered or failed, and makes
/// at most one request.
pub proof fn every_fetch_ends(store: Store, remote: Option<Seq<char>>, path: Seq<char>)
    ensures
        fetch_run(store, remote, path).step.finished(),
        fetch_run(store, remote, path).requests <= 1,
{
    reveal_with_fuel(play, 4);
}

/// Two fetches of a key that was not cached make one request between them:
/// the second delivers what the first did, whatever the service would
/// answer by then, and leaves the store as the first left it.
pub proof fn second_fetch_is_served_from_cache(
    store: Store,
    body: Seq<char>,
    later: Option<Seq<char>>,
    path: Seq<char>,
)
    requires
        !store.contains_key(path),
    ensures
        ({
            let first = fetch_run(store, Some(body), path);
            let second = fetch_run(first.store, later, path);
            &&& first.step == StepView::Deliver(body)
            &&& second.step == first.step
            &&& first.requests + second.requests == 1
            &&& second.store == first.store
        }),
{
    missing_key_is_requested_once(store, body, path);
    cached_key_needs_no_request(store.insert(path, body), later, path);
}

/// What was stored under a path is what a later load of that path answers.
pub proof fn stored_content_is_loaded_back(
    store: Store,
    remote: Option<Seq<char>>,
    body: Seq<char>,
    path: Seq<char>,
)
    ensures
        answer(written(store, path, StepView::Store(body)), remote, path, StepView::Load)
            == OutcomeView::Content(Some(body)),
{
}

} // verus!
