//! The update of one record, as a sequence of decisions with an HTTP call
//! between each and the next: first the caller's address is asked for, with
//! it the provider is called, and the provider's answer is the verdict.

use vstd::prelude::*;
use crate::http::{HttpReply, HttpRequest, ReplyView, RequestView};
use crate::outcome::{
    result_view, DomainResult, ErrorView, NetworkFault, NetworkFaultView, ResultView, UpdateError,
};
use crate::provider::{
    provider_classify_spec, provider_request_spec, ProviderCall, ProviderCallView,
};
use crate::resolver::{ip_request, ip_request_spec, resolve_ip_spec, resolve_public_ip};
use crate::updater::{resolve_spec, DomainConfig, DomainConfigView};

verus! {

/// The reply that an update waits for.
#[derive(Debug, Clone, PartialEq, Eq)]
pub enum Awaiting {
    /// That of the address service.
    Ip,
    /// That of the provider, which was called with this address.
    Provider(String),
}

/// The view of `Awaiting`.
pub enum AwaitingView {
    Ip,
    Provider(Seq<char>),
}

impl View for Awaiting {
    type V = AwaitingView;

    open spec fn view(&self) -> AwaitingView {
        match self {
            Awaiting::Ip => AwaitingView::Ip,
            Awaiting::Provider(ip) => AwaitingView::Provider(ip@),
        }
    }
}

/// An update that has asked for an HTTP call and waits for what comes of it.
#[derive(Debug, Clone, PartialEq, Eq)]
pub struct PendingUpdate {
    call: ProviderCall,
    awaiting: Awaiting,
}

/// The view of `PendingUpdate`: the call to the provider that the record came
/// to, and the reply that is waited for.
pub struct PendingUpdateView {
    pub call: ProviderCallView,
    pub awaiting: AwaitingView,
}

impl View for PendingUpdate {
    type V = PendingUpdateView;

    closed spec fn view(&self) -> PendingUpdateView {
        PendingUpdateView { call: self.call@, awaiting: self.awaiting@ }
    }
}

/// Where an update stands after a decision.
#[derive(Debug, PartialEq, Eq)]
pub enum UpdateStep {
    /// A request is to be made, and the update resumed with the reply.
    Call(PendingUpdate),
    /// The update is over, with this result.
    Done(DomainResult),
}

/// The view of `UpdateStep`.
pub enum UpdateStepView {
    Call(PendingUpdateView),
    Done(ResultView),
}

impl View for UpdateStep {
    type V = UpdateStepView;

    open spec fn view(&self) -> UpdateStepView {
        match self {
            UpdateStep::Call(pending) => UpdateStepView::Call(pending@),
            UpdateStep::Done(result) => UpdateStepView::Done(result_view(*result)),
        }
    }
}

/// The request that a pending update waits for the reply to.
pub open spec fn pending_request_spec(pending: PendingUpdateView) -> RequestView {
    match pending.awaiting {
        AwaitingView::Ip => ip_request_spec(),
        AwaitingView::Provider(ip) => provider_request_spec(pending.call, ip),
    }
}

/// The first decision on a record: a record that comes to no call to a
/// provider is done, with the error; any other asks for the caller's address.
pub open spec fn begin_spec(config: DomainConfigView) -> UpdateStepView {
    match resolve_spec(config) {
        Err(e) => UpdateStepView::Done(Err(e)),
        Ok(call) => UpdateStepView::Call(PendingUpdateView { call, awaiting: AwaitingView::Ip }),
    }
}

/// The result of a call to a provider: a reply that is no response is a
/// network error; a response is read for the provider's verdict, whatever
/// its status.
pub open spec fn conclude_spec(call: ProviderCallView, reply: ReplyView) -> ResultView {
    match reply {
        ReplyView::Unreachable(detail) => Err(
            ErrorView::Network(NetworkFaultView::Unreachable(detail)),
        ),
        ReplyView::Response { body, .. } => Ok(provider_classify_spec(call, body)),
    }
}

/// The decision on a reply. Waiting for the address: a reply that gives none
/// ends the update with the error, and one that gives the address asks for
/// the call to the provider with it. Waiting for the provider: the reply ends
/// the update.
pub open spec fn resume_spec(pending: PendingUpdateView, reply: ReplyView) -> UpdateStepView {
    match pending.awaiting {
        AwaitingView::Ip => match resolve_ip_spec(reply) {
            Err(e) => UpdateStepView::Done(Err(e)),
            Ok(ip) => UpdateStepView::Call(
                PendingUpdateView { call: pending.call, awaiting: AwaitingView::Provider(ip) },
            ),
        },
        AwaitingView::Provider(_) => UpdateStepView::Done(conclude_spec(pending.call, reply)),
    }
}

/// What the update of one record comes to when the address service answers
/// with `ip_reply` and the provider with `provider_reply`. A call that is
/// not reached leaves its reply unread.
pub open spec fn update_result(
    config: DomainConfigView,
    ip_reply: ReplyView,
    provider_reply: ReplyView,
) -> ResultView {
    match resolve_spec(config) {
        Err(e) => Err(e),
        Ok(call) => match resolve_ip_spec(ip_reply) {
            Err(e) => Err(e),
            Ok(_) => conclude_spec(call, provider_reply),
        },
    }
}

/// The number of replies that an update may still take.
pub open spec fn calls_left(step: UpdateStepView) -> nat {
    match step {
        UpdateStepView::Done(_) => 0,
        UpdateStepView::Call(pending) => match pending.awaiting {
            AwaitingView::Ip => 2,
            AwaitingView::Provider(_) => 1,
        },
    }
}

/// The result that an update reaches from `step` when each request to the
/// address service is answered with `ip_reply` and each to the provider with
/// `provider_reply`.
pub open spec fn drive_update(
    step: UpdateStepView,
    ip_reply: ReplyView,
    provider_reply: ReplyView,
) -> ResultView
    decreases calls_left(step),
{
    match step {
        UpdateStepView::Done(result) => result,
        UpdateStepView::Call(pending) => match pending.awaiting {
            AwaitingView::Ip => drive_update(
                resume_spec(pending, ip_reply),
                ip_reply,
                provider_reply,
            ),
            AwaitingView::Provider(_) => drive_update(
                resume_spec(pending, provider_reply),
                ip_reply,
                provider_reply,
            ),
        },
    }
}

/// Carried through its calls, the update of a record ends with
/// `update_result`: the decisions taken one by one make up the whole.
pub proof fn law_update_steps_make_result(
    config: DomainConfigView,
    ip_reply: ReplyView,
    provider_reply: ReplyView,
)
    ensures
        drive_update(begin_spec(config), ip_reply, provider_reply) == update_result(
            config,
            ip_reply,
            provider_reply,
        ),
{
    reveal_with_fuel(drive_update, 3);
}

/// Takes the first decision on a record.
pub fn begin(config: &DomainConfig) -> (step: UpdateStep)
    ensures
        step@ == begin_spec(config@),
{
    match config.resolve() {
        Err(e) => UpdateStep::Done(Err(e)),
        Ok(call) => UpdateStep::Call(PendingUpdate { call, awaiting: Awaiting::Ip }),
    }
}

impl PendingUpdate {
    /// The request to make now.
    pub fn request(&self) -> (r: HttpRequest)
        ensures
            r@ == pending_request_spec(self@),
    {
        match &self.awaiting {
            Awaiting::Ip => ip_request(),
            Awaiting::Provider(ip) => self.call.request(ip.as_str()),
        }
    }

    /// Takes the decision on the reply to `request`.
    pub fn resume(self, reply: &HttpReply) -> (step: UpdateStep)
        ensures
            step@ == resume_spec(self@, reply@),
    {
        match self.awaiting {
            Awaiting::Ip => match resolve_public_ip(reply) {
                Err(e) => UpdateStep::Done(Err(e)),
                Ok(ip) => UpdateStep::Call(
                    PendingUpdate { call: self.call, awaiting: Awaiting::Provider(ip) },
                ),
            },
            Awaiting::Provider(_) => match reply {
                HttpReply::Unreachable(detail) => UpdateStep::Done(
                    Err(UpdateError::Network(NetworkFault::Unreachable(detail.clone()))),
                ),
                HttpReply::Response { body, .. } => UpdateStep::Done(
                    Ok(self.call.classify(body.as_str())),
                ),
            },
        }
    }
}

} // verus!
