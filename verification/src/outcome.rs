//! What an update of one record comes to: an outcome that the provider
//! reported, or the error that kept the update from getting that far.

use vstd::prelude::*;

verus! {

/// The verdict of a provider on one update, read from its response.
#[derive(Debug, Clone, PartialEq, Eq)]
pub enum UpdateOutcome {
    /// The provider applied the change.
    Updated,
    /// The record already held the address; nothing was changed.
    Unchanged,
    /// The provider answered without a sign of success; the text is the
    /// whole body of its response.
    Failed(String),
}

/// What is wrong with a configured record.
#[derive(Debug, Clone, Copy, PartialEq, Eq, Structural)]
pub enum ConfigFault {
    /// The domain is empty.
    EmptyDomain,
    /// The domain begins with a dot.
    LeadingDot,
    /// A subdomain is given and it is empty.
    EmptySubdomain,
    /// The password is empty.
    EmptyPassword,
    /// The provider signs in with a user name and the record has none.
    MissingUsername,
    /// The provider signs in with a user name and the record's is empty.
    EmptyUsername,
}

/// How an HTTP call failed below the level of the provider's protocol.
#[derive(Debug, Clone, PartialEq, Eq)]
pub enum NetworkFault {
    /// No response arrived; the text is the transport's account of it.
    Unreachable(String),
    /// A response arrived with a status outside 200..=299.
    Status(u16),
}

/// Why the update of one record did not reach a verdict, or, for
/// `Provider`, the verdict `Failed` in the shape of an error.
#[derive(Debug, Clone, PartialEq, Eq)]
pub enum UpdateError {
    /// The record is not fit to be sent to a provider.
    Configuration(ConfigFault),
    /// The domain has no dot, so it has no subdomain and root to split into.
    InvalidDomain,
    /// An HTTP call failed in transport, or the address service answered
    /// with an error status.
    Network(NetworkFault),
    /// The provider answered without a sign of success; the text is the
    /// whole body of its response.
    Provider(String),
}

/// The result that is recorded for one record of a run.
pub type DomainResult = Result<UpdateOutcome, UpdateError>;

/// The view of `UpdateOutcome`.
pub enum OutcomeView {
    Updated,
    Unchanged,
    Failed(Seq<char>),
}

/// The view of `NetworkFault`.
pub enum NetworkFaultView {
    Unreachable(Seq<char>),
    Status(u16),
}

/// The view of `UpdateError`.
pub enum ErrorView {
    Configuration(ConfigFault),
    InvalidDomain,
    Network(NetworkFaultView),
    Provider(Seq<char>),
}

/// The view of `DomainResult`.
pub type ResultView = Result<OutcomeView, ErrorView>;

impl View for UpdateOutcome {
    type V = OutcomeView;

    open spec fn view(&self) -> OutcomeView {
        match self {
            UpdateOutcome::Updated => OutcomeView::Updated,
            UpdateOutcome::Unchanged => OutcomeView::Unchanged,
            UpdateOutcome::Failed(body) => OutcomeView::Failed(body@),
        }
    }
}

impl View for NetworkFault {
    type V = NetworkFaultView;

    open spec fn view(&self) -> NetworkFaultView {
        match self {
            NetworkFault::Unreachable(detail) => NetworkFaultView::Unreachable(detail@),
            NetworkFault::Status(status) => NetworkFaultView::Status(*status),
        }
    }
}

impl View for UpdateError {
    type V = ErrorView;

    open spec fn view(&self) -> ErrorView {
        match self {
            UpdateError::Configuration(fault) => ErrorView::Configuration(*fault),
            UpdateError::InvalidDomain => ErrorView::InvalidDomain,
            UpdateError::Network(fault) => ErrorView::Network(fault@),
            UpdateError::Provider(body) => ErrorView::Provider(body@),
        }
    }
}

/// The view of a recorded result.
pub open spec fn result_view(r: DomainResult) -> ResultView {
    match r {
        Ok(outcome) => Ok(outcome@),
        Err(error) => Err(error@),
    }
}

/// The views of recorded results, in order.
pub open spec fn results_view(results: Seq<DomainResult>) -> Seq<ResultView> {
    Seq::new(results.len(), |i: int| result_view(results[i]))
}

/// A recorded result counts as a failure when it is an error or the
/// provider's verdict `Failed`.
pub open spec fn is_failure(r: ResultView) -> bool {
    r is Err || r matches Ok(OutcomeView::Failed(_))
}

/// A verdict as success or error: `Ok` tells whether the record changed,
/// `Err` holds the provider's refusal.
pub open spec fn outcome_as_result(outcome: OutcomeView) -> Result<bool, ErrorView> {
    match outcome {
        OutcomeView::Updated => Ok(true),
        OutcomeView::Unchanged => Ok(false),
        OutcomeView::Failed(body) => Err(ErrorView::Provider(body)),
    }
}

impl UpdateOutcome {
    /// `Ok(true)` for `Updated`, `Ok(false)` for `Unchanged`, and for `Failed`
    /// the error `Provider` with the same body.
    pub fn into_result(self) -> (r: Result<bool, UpdateError>)
        ensures
            (match r {
                Ok(changed) => outcome_as_result(self@) == Ok::<bool, ErrorView>(changed),
                Err(error) => outcome_as_result(self@) == Err::<bool, ErrorView>(error@),
            }),
    {
        match self {
            UpdateOutcome::Updated => Ok(true),
            UpdateOutcome::Unchanged => Ok(false),
            UpdateOutcome::Failed(body) => Err(UpdateError::Provider(body)),
        }
    }
}

} // verus!
