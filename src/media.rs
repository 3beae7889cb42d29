//! The download orchestrator: backends are tried one at a time in a fixed
//! order until one succeeds; each failure is recorded with the backend's
//! identity, so that a total failure can show the whole chain.
use crate::types::{Backend, BackendFailure, DownloadError, MediaInfo};
use vstd::prelude::*;

verus! {

/// The backends in the order they are tried, and how to start a request.
pub struct MediaDownloader {
    downloaders: Vec<Backend>,
}

/// What the caller running a request does next.
#[derive(Debug)]
pub enum Action {
    /// Run this backend on the URL and report its outcome.
    Attempt(Backend),
    /// Deliver this result; the request is over.
    Deliver(MediaInfo),
    /// Every backend failed; the request is over.
    GiveUp,
}

/// The action that opens a request over backends in `order`.
pub open spec fn first_action(order: Seq<Backend>) -> Action {
    if order.len() > 0 {
        Action::Attempt(order[0])
    } else {
        Action::GiveUp
    }
}

/// After the backend at position `failures.len()` of `order` reports `outcome`:
/// the recorded failures and the next action. A success is delivered at once; a
/// failure is recorded and the next backend attempted, or, after the last one,
/// the request is given up.
pub open spec fn step(
    order: Seq<Backend>,
    failures: Seq<BackendFailure>,
    outcome: Result<MediaInfo, DownloadError>,
) -> (Seq<BackendFailure>, Action) {
    match outcome {
        Ok(m) => (failures, Action::Deliver(m)),
        Err(e) => {
            let recorded = failures.push(
                BackendFailure { backend: order[failures.len() as int], error: e },
            );
            (
                recorded,
                if recorded.len() < order.len() {
                    Action::Attempt(order[recorded.len() as int])
                } else {
                    Action::GiveUp
                },
            )
        },
    }
}

impl MediaDownloader {
    /// The backends in the order they are tried.
    pub closed spec fn order(&self) -> Seq<Backend> {
        self.downloaders@
    }

    /// The standard order: the multi-item backend first, the single-stream one second.
    pub fn new() -> (r: Self)
        ensures
            r.order() == seq![Backend::MultiItem, Backend::SingleStream],
    {
        let mut downloaders: Vec<Backend> = Vec::new();
        downloaders.push(Backend::MultiItem);
        downloaders.push(Backend::SingleStream);
        assert(downloaders@ =~= seq![Backend::MultiItem, Backend::SingleStream]);
        MediaDownloader { downloaders }
    }

    /// An order taken from configuration.
    pub fn with_order(order: Vec<Backend>) -> (r: Self)
        ensures
            r.order() == order@,
    {
        MediaDownloader { downloaders: order }
    }

    /// The backends in the order they are tried.
    pub fn backends(&self) -> (r: &Vec<Backend>)
        ensures
            r@ == self.order(),
    {
        &self.downloaders
    }

    /// Every URL is offered to the backends, which judge it themselves.
    pub fn is_supported_url(&self, url: &str) -> (r: bool)
        ensures
            r,
    {
        true
    }

    /// Whether the setup is usable: at least one backend reported itself available.
    pub fn test_setup(&self, available: &Vec<bool>) -> (r: bool)
        ensures
            r == exists|i: int| 0 <= i < available@.len() && available@[i],
    {
        let mut i: usize = 0;
        while i < available.len()
            invariant
                0 <= i <= available@.len(),
                forall|k: int| 0 <= k < i ==> !available@[k],
            decreases available@.len() - i,
        {
            if available[i] {
                return true;
            }
            i += 1;
        }
        false
    }

    /// Opens a request for `url`: a session with no failures, and the first action.
    pub fn start(&self, url: &str) -> (r: (DownloadSession, Action))
        ensures
            r.0.url() == url@,
            r.0.order() == self.order(),
            r.0.failures() == Seq::<BackendFailure>::empty(),
            r.1 == first_action(self.order()),
    {
        let order = self.downloaders.clone();
        assert(order@ =~= self.downloaders@);
        let action = if order.len() > 0 {
            Action::Attempt(order[0])
        } else {
            Action::GiveUp
        };
        (DownloadSession { url: url.to_owned(), order, failures: Vec::new() }, action)
    }
}

/// One request in progress: the order of backends, and the failures so far;
/// the next backend to run is the one after the last failure.
pub struct DownloadSession {
    url: String,
    order: Vec<Backend>,
    failures: Vec<BackendFailure>,
}

impl DownloadSession {
    /// The URL the request is for.
    pub closed spec fn url(&self) -> Seq<char> {
        self.url@
    }

    /// The backends in the order they are tried.
    pub closed spec fn order(&self) -> Seq<Backend> {
        self.order@
    }

    /// The failures recorded so far, in the order they came.
    pub closed spec fn failures(&self) -> Seq<BackendFailure> {
        self.failures@
    }

    /// The failures recorded so far.
    pub fn failure_list(&self) -> (r: &Vec<BackendFailure>)
        ensures
            r@ == self.failures(),
    {
        &self.failures
    }

    /// Takes in the outcome of the backend that was attempted, and says what
    /// comes next. A success must be a deliverable result for the request's URL.
    pub fn advance(&mut self, outcome: Result<MediaInfo, DownloadError>) -> (r: Action)
        requires
            old(self).failures().len() < old(self).order().len(),
            outcome matches Ok(m) ==> m.valid_for(old(self).url()),
        ensures
            final(self).url() == old(self).url(),
            final(self).order() == old(self).order(),
            r matches Action::Deliver(m) ==> m.valid_for(old(self).url()),
            (final(self).failures(), r) == step(old(self).order(), old(self).failures(), outcome),
    {
        match outcome {
            Ok(m) => Action::Deliver(m),
            Err(e) => {
                let backend = self.order[self.failures.len()];
                self.failures.push(BackendFailure { backend, error: e });
                if self.failures.len() < self.order.len() {
                    Action::Attempt(self.order[self.failures.len()])
                } else {
                    Action::GiveUp
                }
            },
        }
    }

    /// The error that ends a request that every backend failed: each backend
    /// with its reason, in the order they were tried.
    pub fn into_error(self) -> (r: DownloadError)
        ensures
            r matches DownloadError::AllBackendsFailed(v) && v@ == self.failures(),
    {
        DownloadError::AllBackendsFailed(self.failures)
    }
}

/// Fallback: over two backends where the first fails and the second succeeds,
/// the first is attempted, then the second; the second's result is delivered,
/// and exactly one failure is recorded, that of the first.
pub proof fn lemma_fallback(a: Backend, b: Backend, e: DownloadError, m: MediaInfo)
    ensures
        first_action(seq![a, b]) == Action::Attempt(a),
        step(seq![a, b], Seq::empty(), Err(e)) == (
            seq![BackendFailure { backend: a, error: e }],
            Action::Attempt(b),
        ),
        step(seq![a, b], seq![BackendFailure { backend: a, error: e }], Ok(m)) == (
            seq![BackendFailure { backend: a, error: e }],
            Action::Deliver(m),
        ),
{
    assert(Seq::<BackendFailure>::empty().push(BackendFailure { backend: a, error: e }) =~= seq![
        BackendFailure { backend: a, error: e },
    ]);
}

/// A success ends the request at once, whichever backend gave it, and records nothing.
pub proof fn lemma_success_delivers(
    order: Seq<Backend>,
    failures: Seq<BackendFailure>,
    m: MediaInfo,
)
    ensures
        step(order, failures, Ok(m)) == (failures, Action::Deliver(m)),
{
}

/// The recorded failures and the next action once the first `n` backends of
/// `order` have failed with the first `n` of `errors`.
pub open spec fn after_failures(order: Seq<Backend>, errors: Seq<DownloadError>, n: nat) -> (
    Seq<BackendFailure>,
    Action,
)
    decreases n,
{
    if n == 0 {
        (Seq::empty(), first_action(order))
    } else {
        step(order, after_failures(order, errors, (n - 1) as nat).0, Err(errors[n - 1]))
    }
}

/// When backends fail one after the other, the failures are recorded one per
/// backend, in the order tried, each with its own error; the next backend is
/// attempted while one is left, and the request is given up after the last.
pub proof fn lemma_failures_in_order(order: Seq<Backend>, errors: Seq<DownloadError>, n: nat)
    requires
        n <= order.len(),
        errors.len() == order.len(),
    ensures
        after_failures(order, errors, n).0.len() == n,
        forall|i: int|
            0 <= i < n ==> #[trigger] after_failures(order, errors, n).0[i] == (BackendFailure {
                backend: order[i],
                error: errors[i],
            }),
        n < order.len() ==> after_failures(order, errors, n).1 == Action::Attempt(order[n as int]),
        n == order.len() ==> after_failures(order, errors, n).1 == Action::GiveUp,
    decreases n,
{
    if n > 0 {
        lemma_failures_in_order(order, errors, (n - 1) as nat);
    }
}

/// Each failure records exactly one entry, for the backend that was attempted,
/// and the request is given up only once every backend has failed.
pub proof fn lemma_failure_recorded(
    order: Seq<Backend>,
    failures: Seq<BackendFailure>,
    e: DownloadError,
)
    requires
        failures.len() < order.len(),
    ensures
        step(order, failures, Err(e)).0.len() == failures.len() + 1,
        step(order, failures, Err(e)).0.last() == (BackendFailure {
            backend: order[failures.len() as int],
            error: e,
        }),
        step(order, failures, Err(e)).0.drop_last() == failures,
        (step(order, failures, Err(e)).1 is GiveUp) == (failures.len() + 1 == order.len()),
{
    assert(step(order, failures, Err(e)).0.drop_last() =~= failures);
}

} // verus!
