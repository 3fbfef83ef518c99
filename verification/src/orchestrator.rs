//! A run over all configured records: one update after the other, in the
//! order of the configuration, each with its own calls and its own result.
//! What becomes of one record changes nothing for the others.

use vstd::prelude::*;
use crate::http::{HttpReply, HttpRequest, ReplyView};
use crate::outcome::{
    is_failure, result_view, results_view, DomainResult, ErrorView, ResultView,
};
use crate::provider::ProviderCallView;
use crate::resolver::resolve_ip_spec;
use crate::update::{
    begin, begin_spec, calls_left, conclude_spec, pending_request_spec, resume_spec,
    update_result, AwaitingView, PendingUpdate, PendingUpdateView, UpdateStep, UpdateStepView,
};
use crate::updater::{configs_view, resolve_spec, DomainConfig, DomainConfigView};

verus! {

/// A run that has asked for an HTTP call and waits for what comes of it. The
/// call belongs to the record that follows those with a result.
#[derive(Debug)]
pub struct PendingRun<'a> {
    domains: &'a Vec<DomainConfig>,
    results: Vec<DomainResult>,
    current: PendingUpdate,
}

/// The view of `PendingRun`: the records, the results of those that are
/// done, and the pending update of the next.
pub struct PendingRunView {
    pub domains: Seq<DomainConfigView>,
    pub results: Seq<ResultView>,
    pub current: PendingUpdateView,
}

impl<'a> View for PendingRun<'a> {
    type V = PendingRunView;

    closed spec fn view(&self) -> PendingRunView {
        PendingRunView {
            domains: configs_view(self.domains@),
            results: results_view(self.results@),
            current: self.current@,
        }
    }
}

/// A pending run is sound when a record is left without a result and the
/// pending update is that of the first such record.
pub open spec fn pending_run_is_sound(pending: PendingRunView) -> bool {
    &&& pending.results.len() < pending.domains.len()
    &&& resolve_spec(pending.domains[pending.results.len() as int]) == Ok::<
        ProviderCallView,
        ErrorView,
    >(pending.current.call)
}

/// A step of a run over `domains` is sound when it waits soundly on those
/// records, or is over with a result for each of them.
pub open spec fn run_step_is_sound(step: RunStepView, domains: Seq<DomainConfigView>) -> bool {
    match step {
        RunStepView::Call(pending) => pending.domains == domains && pending_run_is_sound(pending),
        RunStepView::Done(results) => results.len() == domains.len(),
    }
}

/// Where a run stands after a decision.
#[derive(Debug)]
pub enum RunStep<'a> {
    /// A request is to be made, and the run resumed with the reply.
    Call(PendingRun<'a>),
    /// The run is over; the results stand in the order of the records.
    Done(Vec<DomainResult>),
}

/// The view of `RunStep`.
pub enum RunStepView {
    Call(PendingRunView),
    Done(Seq<ResultView>),
}

impl<'a> View for RunStep<'a> {
    type V = RunStepView;

    open spec fn view(&self) -> RunStepView {
        match self {
            RunStep::Call(pending) => RunStepView::Call(pending@),
            RunStep::Done(results) => RunStepView::Done(results_view(results@)),
        }
    }
}

/// Goes on from the first record without a result: each record that is done
/// at its first decision gets its result, and the first that asks for a call
/// makes the run wait. With a result for every record the run is over.
pub open spec fn advance_spec(
    domains: Seq<DomainConfigView>,
    results: Seq<ResultView>,
) -> RunStepView
    decreases domains.len() - results.len(),
{
    if results.len() >= domains.len() {
        RunStepView::Done(results)
    } else {
        match begin_spec(domains[results.len() as int]) {
            UpdateStepView::Done(result) => advance_spec(domains, results.push(result)),
            UpdateStepView::Call(pending) => RunStepView::Call(
                PendingRunView { domains, results, current: pending },
            ),
        }
    }
}

/// The first decision of a run over `domains`.
pub open spec fn run_spec(domains: Seq<DomainConfigView>) -> RunStepView {
    advance_spec(domains, Seq::empty())
}

/// The decision on a reply: it is that of the current record's update; once
/// that update is done its result is recorded, whatever it is, and the run
/// goes on with the next record.
pub open spec fn resume_run_spec(pending: PendingRunView, reply: ReplyView) -> RunStepView {
    match resume_spec(pending.current, reply) {
        UpdateStepView::Call(next) => RunStepView::Call(
            PendingRunView { domains: pending.domains, results: pending.results, current: next },
        ),
        UpdateStepView::Done(result) => advance_spec(pending.domains, pending.results.push(result)),
    }
}

/// A bound on the replies that a run may still take.
pub open spec fn run_measure(step: RunStepView) -> nat {
    match step {
        RunStepView::Done(_) => 0,
        RunStepView::Call(pending) => {
            let open_records = if pending.results.len() < pending.domains.len() {
                pending.domains.len() - pending.results.len()
            } else {
                0
            };
            (3 * open_records + calls_left(UpdateStepView::Call(pending.current))) as nat
        },
    }
}

/// The reply that the pending call of a run gets when the calls for record
/// `i` are answered with `ip_replies[i]` and `provider_replies[i]`.
pub open spec fn scripted_reply(
    pending: PendingRunView,
    ip_replies: Seq<ReplyView>,
    provider_replies: Seq<ReplyView>,
) -> ReplyView {
    match pending.current.awaiting {
        AwaitingView::Ip => ip_replies[pending.results.len() as int],
        AwaitingView::Provider(_) => provider_replies[pending.results.len() as int],
    }
}

/// The results that a run reaches from `step` when the calls for record `i`
/// are answered with `ip_replies[i]` and `provider_replies[i]`.
pub open spec fn drive_run(
    step: RunStepView,
    ip_replies: Seq<ReplyView>,
    provider_replies: Seq<ReplyView>,
) -> Seq<ResultView>
    decreases run_measure(step),
    via drive_run_terminates
{
    match step {
        RunStepView::Done(results) => results,
        RunStepView::Call(pending) => drive_run(
            resume_run_spec(pending, scripted_reply(pending, ip_replies, provider_replies)),
            ip_replies,
            provider_replies,
        ),
    }
}

#[via_fn]
proof fn drive_run_terminates(
    step: RunStepView,
    ip_replies: Seq<ReplyView>,
    provider_replies: Seq<ReplyView>,
) {
    if let RunStepView::Call(pending) = step {
        let reply = scripted_reply(pending, ip_replies, provider_replies);
        if let UpdateStepView::Done(result) = resume_spec(pending.current, reply) {
            lemma_advance_keeps_results(pending.domains, pending.results.push(result));
        }
    }
}

/// What `advance_spec` keeps: the results it was given stay in front; a run
/// that is over has a result for every record; a run that waits does so for
/// the address of a record that has none yet.
pub proof fn lemma_advance_keeps_results(domains: Seq<DomainConfigView>, results: Seq<ResultView>)
    ensures
        (match advance_spec(domains, results) {
            RunStepView::Done(all) => {
                &&& results.len() <= all.len()
                &&& all.take(results.len() as int) == results
                &&& results.len() <= domains.len() ==> all.len() == domains.len()
            },
            RunStepView::Call(pending) => {
                &&& pending.domains == domains
                &&& results.len() <= pending.results.len()
                &&& pending.results.take(results.len() as int) == results
                &&& pending.current.awaiting == AwaitingView::Ip
                &&& pending_run_is_sound(pending)
            },
        }),
    decreases domains.len() - results.len(),
{
    if results.len() >= domains.len() {
        assert(results.take(results.len() as int) =~= results);
    } else {
        match begin_spec(domains[results.len() as int]) {
            UpdateStepView::Done(result) => {
                let longer = results.push(result);
                lemma_advance_keeps_results(domains, longer);
                assert(longer.take(results.len() as int) =~= results);
                match advance_spec(domains, longer) {
                    RunStepView::Done(all) => {
                        assert(all.take(results.len() as int) =~= all.take(
                            longer.len() as int,
                        ).take(results.len() as int));
                    },
                    RunStepView::Call(pending) => {
                        assert(pending.results.take(results.len() as int)
                            =~= pending.results.take(longer.len() as int).take(
                            results.len() as int,
                        ));
                    },
                }
            },
            UpdateStepView::Call(_) => {
                assert(results.take(results.len() as int) =~= results);
            },
        }
    }
}

/// The results of the records from `from` on, each that of its own update.
spec fn results_from(
    domains: Seq<DomainConfigView>,
    ip_replies: Seq<ReplyView>,
    provider_replies: Seq<ReplyView>,
    from: int,
) -> Seq<ResultView> {
    Seq::new(
        (domains.len() - from) as nat,
        |j: int| update_result(domains[from + j], ip_replies[from + j], provider_replies[from + j]),
    )
}

/// A run that goes on behind `results` adds to them, record by record, the
/// result of each record's own update.
proof fn lemma_drive_from(
    domains: Seq<DomainConfigView>,
    results: Seq<ResultView>,
    ip_replies: Seq<ReplyView>,
    provider_replies: Seq<ReplyView>,
)
    requires
        results.len() <= domains.len(),
    ensures
        drive_run(advance_spec(domains, results), ip_replies, provider_replies) == results
            + results_from(domains, ip_replies, provider_replies, results.len() as int),
    decreases domains.len() - results.len(),
{
    let at = results.len() as int;
    let rest = results_from(domains, ip_replies, provider_replies, at);
    if results.len() >= domains.len() {
        assert(results + rest =~= results);
    } else {
        let own = update_result(domains[at], ip_replies[at], provider_replies[at]);
        let longer = results.push(own);
        assert(results + rest =~= longer + results_from(
            domains,
            ip_replies,
            provider_replies,
            at + 1,
        ));
        lemma_drive_from(domains, longer, ip_replies, provider_replies);
        if let UpdateStepView::Call(first) = begin_spec(domains[at]) {
            let waiting = PendingRunView { domains, results, current: first };
            let onward = drive_run(advance_spec(domains, longer), ip_replies, provider_replies);
            if let UpdateStepView::Call(second) = resume_spec(first, ip_replies[at]) {
                let called = PendingRunView { domains, results, current: second };
                assert(drive_run(RunStepView::Call(called), ip_replies, provider_replies)
                    == onward);
            }
            assert(drive_run(RunStepView::Call(waiting), ip_replies, provider_replies) == onward);
        }
    }
}

/// A run over no records is over at once, with no results and no call made.
pub proof fn law_empty_run()
    ensures
        run_spec(Seq::empty()) == RunStepView::Done(Seq::empty()),
{
}

/// A run gives every record a result, in the order of the records, and the
/// result of each record is that of its own update: it depends on that
/// record and on the replies to its own calls, and on nothing that happened
/// to another record.
pub proof fn law_run_gives_each_record_its_result(
    domains: Seq<DomainConfigView>,
    ip_replies: Seq<ReplyView>,
    provider_replies: Seq<ReplyView>,
)
    ensures
        drive_run(run_spec(domains), ip_replies, provider_replies).len() == domains.len(),
        forall|i: int|
            0 <= i < domains.len() ==> #[trigger] drive_run(
                run_spec(domains),
                ip_replies,
                provider_replies,
            )[i] == update_result(domains[i], ip_replies[i], provider_replies[i]),
{
    lemma_drive_from(domains, Seq::empty(), ip_replies, provider_replies);
    let all = results_from(domains, ip_replies, provider_replies, 0);
    assert(Seq::<ResultView>::empty() + all =~= all);
}

/// Where the call to the provider fails for record `k` and every other
/// record's update succeeds, the run still has a result for every record,
/// and that of record `k` is the only failure among them.
pub proof fn law_failure_stays_with_its_record(
    domains: Seq<DomainConfigView>,
    ip_replies: Seq<ReplyView>,
    provider_replies: Seq<ReplyView>,
    k: int,
)
    requires
        0 <= k < domains.len(),
        resolve_spec(domains[k]) is Ok,
        resolve_ip_spec(ip_replies[k]) is Ok,
        is_failure(conclude_spec(resolve_spec(domains[k])->Ok_0, provider_replies[k])),
        forall|i: int|
            0 <= i < domains.len() && i != k ==> !is_failure(
                #[trigger] update_result(domains[i], ip_replies[i], provider_replies[i]),
            ),
    ensures
        drive_run(run_spec(domains), ip_replies, provider_replies).len() == domains.len(),
        forall|i: int|
            0 <= i < domains.len() ==> (is_failure(
                #[trigger] drive_run(run_spec(domains), ip_replies, provider_replies)[i],
            ) <==> i == k),
{
    law_run_gives_each_record_its_result(domains, ip_replies, provider_replies);
    let results = drive_run(run_spec(domains), ip_replies, provider_replies);
    assert forall|i: int| 0 <= i < domains.len() implies (is_failure(#[trigger] results[i]) <==> i
        == k) by {
        assert(results[i] == update_result(domains[i], ip_replies[i], provider_replies[i]));
    }
}

/// Goes on from the first record without a result.
fn advance<'a>(domains: &'a Vec<DomainConfig>, recorded: Vec<DomainResult>) -> (step: RunStep<'a>)
    ensures
        step@ == advance_spec(configs_view(domains@), results_view(recorded@)),
{
    let ghost target = advance_spec(configs_view(domains@), results_view(recorded@));
    let mut results = recorded;
    while results.len() < domains.len()
        invariant
            target == advance_spec(configs_view(domains@), results_view(recorded@)),
            advance_spec(configs_view(domains@), results_view(results@)) == target,
        decreases domains.len() - results.len(),
    {
        let ghost before = results_view(results@);
        assert(configs_view(domains@)[before.len() as int] == domains@[results.len() as int]@);
        match begin(&domains[results.len()]) {
            UpdateStep::Done(result) => {
                results.push(result);
                assert(results_view(results@) =~= before.push(result_view(result)));
            },
            UpdateStep::Call(current) => {
                return RunStep::Call(PendingRun { domains, results, current });
            },
        }
    }
    RunStep::Done(results)
}

/// Takes the first decision of a run over `domains`.
pub fn run<'a>(domains: &'a Vec<DomainConfig>) -> (step: RunStep<'a>)
    ensures
        step@ == run_spec(configs_view(domains@)),
        run_step_is_sound(step@, configs_view(domains@)),
        domains@.len() == 0 ==> step@ == RunStepView::Done(Seq::empty()),
{
    let results: Vec<DomainResult> = Vec::new();
    assert(results_view(results@) =~= Seq::empty());
    proof {
        lemma_advance_keeps_results(configs_view(domains@), Seq::empty());
    }
    advance(domains, results)
}

impl<'a> PendingRun<'a> {
    #[verifier::type_invariant]
    spec fn sound(self) -> bool {
        pending_run_is_sound(self@)
    }

    /// The request to make now.
    pub fn request(&self) -> (r: HttpRequest)
        ensures
            r@ == pending_request_spec(self@.current),
    {
        self.current.request()
    }

    /// The number of records that have their result. The pending call is for
    /// the record at this position.
    pub fn position(&self) -> (at: usize)
        ensures
            at == self@.results.len(),
            at < self@.domains.len(),
    {
        proof {
            use_type_invariant(self);
        }
        self.results.len()
    }

    /// The record that the pending call is for.
    pub fn domain(&self) -> (domain: &'a DomainConfig)
        ensures
            domain@ == self@.domains[self@.results.len() as int],
    {
        proof {
            use_type_invariant(self);
        }
        &self.domains[self.results.len()]
    }

    /// The results of the records that have one, in the order of the records.
    pub fn results(&self) -> (results: &Vec<DomainResult>)
        ensures
            results_view(results@) == self@.results,
    {
        &self.results
    }

    /// Takes the decision on the reply to `request`.
    pub fn resume(self, reply: &HttpReply) -> (step: RunStep<'a>)
        ensures
            step@ == resume_run_spec(self@, reply@),
            run_step_is_sound(step@, self@.domains),
    {
        proof {
            use_type_invariant(&self);
        }
        let ghost before = results_view(self.results@);
        let domains = self.domains;
        match self.current.resume(reply) {
            UpdateStep::Call(next) => RunStep::Call(
                PendingRun { domains, results: self.results, current: next },
            ),
            UpdateStep::Done(result) => {
                let mut results = self.results;
                results.push(result);
                assert(results_view(results@) =~= before.push(result_view(result)));
                proof {
                    lemma_advance_keeps_results(configs_view(domains@), results_view(results@));
                }
                advance(domains, results)
            },
        }
    }
}

} // verus!
