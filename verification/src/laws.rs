//! What holds of every dispatch, proved from the definitions in
//! [`crate::dispatch`].
//!
//! Throughout, `outcomes[i]` is what the service registered at position `i`
//! makes of the request when it is asked.

use crate::dispatch::{
    first_claim, first_claim_from, is_claim, is_emitted, next_step, not_found, reply_of,
    resolve, run, run_from, served, settle, HandledView, OutcomeView, StepView,
};
use crate::message::{
    failure_view, ErrorView, RequestView, ResponseView, RpcErrorView, METHOD_NOT_FOUND,
};
use vstd::prelude::*;

verus! {

/// The positions `0, 1, .., count - 1`.
pub open spec fn positions(count: int) -> Seq<int> {
    Seq::new(count as nat, |i: int| i)
}

/// How many services a dispatch asks: those up to and including the first
/// that claims the request, or all of them if none does.
pub open spec fn asked_count(outcomes: Seq<OutcomeView>) -> int {
    if first_claim(outcomes) < outcomes.len() {
        first_claim(outcomes) + 1
    } else {
        outcomes.len() as int
    }
}

proof fn lemma_first_claim_from_bounds(outcomes: Seq<OutcomeView>, from: int)
    requires
        0 <= from <= outcomes.len(),
    ensures
        from <= first_claim_from(outcomes, from) <= outcomes.len(),
        forall|i: int|
            from <= i < first_claim_from(outcomes, from) ==> !is_claim(#[trigger] outcomes[i]),
        first_claim_from(outcomes, from) < outcomes.len() ==> is_claim(
            outcomes[first_claim_from(outcomes, from)],
        ),
    decreases outcomes.len() - from,
{
    if from < outcomes.len() && !is_claim(outcomes[from]) {
        lemma_first_claim_from_bounds(outcomes, from + 1);
    }
}

proof fn lemma_first_claim_from_at(outcomes: Seq<OutcomeView>, from: int, winner: int)
    requires
        0 <= from <= winner <= outcomes.len(),
        forall|i: int| from <= i < winner ==> !is_claim(#[trigger] outcomes[i]),
        winner < outcomes.len() ==> is_claim(outcomes[winner]),
    ensures
        first_claim_from(outcomes, from) == winner,
    decreases winner - from,
{
    if from < winner {
        lemma_first_claim_from_at(outcomes, from + 1, winner);
    }
}

/// The first claim is the least position whose outcome is a claim: every
/// outcome before it declines, and it is a claim unless it is the end of the
/// sequence.
pub proof fn lemma_first_claim_is_least(outcomes: Seq<OutcomeView>)
    ensures
        0 <= first_claim(outcomes) <= outcomes.len(),
        forall|i: int| 0 <= i < first_claim(outcomes) ==> !is_claim(#[trigger] outcomes[i]),
        first_claim(outcomes) < outcomes.len() ==> is_claim(outcomes[first_claim(outcomes)]),
{
    lemma_first_claim_from_bounds(outcomes, 0);
}

/// The first claim is at `winner` if every outcome before `winner` declines
/// and `winner` is a claim or the end of the sequence.
pub proof fn lemma_first_claim_at(outcomes: Seq<OutcomeView>, winner: int)
    requires
        0 <= winner <= outcomes.len(),
        forall|i: int| 0 <= i < winner ==> !is_claim(#[trigger] outcomes[i]),
        winner < outcomes.len() ==> is_claim(outcomes[winner]),
    ensures
        first_claim(outcomes) == winner,
{
    lemma_first_claim_from_at(outcomes, 0, winner);
}

proof fn lemma_run_from(request: RequestView, outcomes: Seq<OutcomeView>, index: int)
    requires
        0 <= index < outcomes.len(),
        index <= first_claim(outcomes),
    ensures
        run_from(request, outcomes, StepView::Invoke(index)).handled == resolve(
            request,
            outcomes,
        ),
        run_from(request, outcomes, StepView::Invoke(index)).asked =~= Seq::new(
            (asked_count(outcomes) - index) as nat,
            |i: int| index + i,
        ),
    decreases outcomes.len() - index,
{
    lemma_first_claim_is_least(outcomes);
    let next = next_step(request, outcomes.len() as int, index, outcomes[index]);
    if next is Invoke {
        lemma_run_from(request, outcomes, index + 1);
    } else {
        assert(run_from(request, outcomes, next).asked == Seq::<int>::empty());
    }
}

/// Whoever drives a dispatch by [`first_step`] and [`next_step`] routes by
/// first match: the services are asked in registration order, each at most
/// once, none is asked after the first claim, and the dispatch ends as
/// [`resolve`] says.
pub proof fn law_driving_is_first_match(request: RequestView, outcomes: Seq<OutcomeView>)
    ensures
        run(request, outcomes).handled == resolve(request, outcomes),
        run(request, outcomes).asked =~= positions(asked_count(outcomes)),
{
    lemma_first_claim_is_least(outcomes);
    if outcomes.len() > 0 {
        lemma_run_from(request, outcomes, 0);
    }
}

/// If the service at `winner` answers with `response` and every service
/// before it declines, the dispatch ends with that response, and no service
/// after `winner` is asked. The caller receives the response unless the
/// notification rule withholds it.
pub proof fn law_first_answer_wins(
    request: RequestView,
    outcomes: Seq<OutcomeView>,
    winner: int,
    response: ResponseView,
)
    requires
        0 <= winner < outcomes.len(),
        forall|i: int| 0 <= i < winner ==> !is_claim(#[trigger] outcomes[i]),
        outcomes[winner] == Ok::<Option<ResponseView>, ErrorView>(Some(response)),
    ensures
        resolve(request, outcomes) == Ok::<ResponseView, ErrorView>(response),
        is_emitted(response) ==> served(request, outcomes) == Some(response),
        !is_emitted(response) ==> served(request, outcomes) is None,
        run(request, outcomes).asked =~= positions(winner + 1),
{
    lemma_first_claim_at(outcomes, winner);
    law_driving_is_first_match(request, outcomes);
}

/// If the service at `winner` fails with `error` and every service before it
/// declines, the caller receives the error response for `error`, correlated
/// with the request, and no service after `winner` is asked.
pub proof fn law_first_failure_wins(
    request: RequestView,
    outcomes: Seq<OutcomeView>,
    winner: int,
    error: ErrorView,
)
    requires
        0 <= winner < outcomes.len(),
        forall|i: int| 0 <= i < winner ==> !is_claim(#[trigger] outcomes[i]),
        outcomes[winner] == Err::<Option<ResponseView>, ErrorView>(error),
    ensures
        resolve(request, outcomes) == Err::<ResponseView, ErrorView>(error),
        served(request, outcomes) == Some(failure_view(request, error)),
        run(request, outcomes).asked =~= positions(winner + 1),
{
    lemma_first_claim_at(outcomes, winner);
    law_driving_is_first_match(request, outcomes);
}

/// What the services behind the first claim would make of the request does
/// not matter: two lists of outcomes that agree up to and including the
/// first claim end the same way and ask the same services.
pub proof fn law_later_services_do_not_matter(
    request: RequestView,
    outcomes: Seq<OutcomeView>,
    other: Seq<OutcomeView>,
)
    requires
        first_claim(outcomes) < outcomes.len(),
        first_claim(outcomes) < other.len(),
        forall|i: int| 0 <= i <= first_claim(outcomes) ==> outcomes[i] == other[i],
    ensures
        resolve(request, other) == resolve(request, outcomes),
        served(request, other) == served(request, outcomes),
        run(request, other).asked == run(request, outcomes).asked,
{
    lemma_first_claim_is_least(outcomes);
    lemma_first_claim_at(other, first_claim(outcomes));
    law_driving_is_first_match(request, outcomes);
    law_driving_is_first_match(request, other);
}

/// If every service declines, the caller receives the "method not found"
/// error response, which carries the id of the request and the name of the
/// method; every service is asked exactly once. This holds for requests
/// with and without an id.
pub proof fn law_unclaimed_is_method_not_found(request: RequestView, outcomes: Seq<OutcomeView>)
    requires
        forall|i: int| 0 <= i < outcomes.len() ==> !is_claim(#[trigger] outcomes[i]),
    ensures
        resolve(request, outcomes) == Ok::<ResponseView, ErrorView>(not_found(request)),
        served(request, outcomes) == Some(not_found(request)),
        not_found(request).id == request.id,
        not_found(request).body == Err::<serde_json::Value, RpcErrorView>(
            RpcErrorView {
                code: METHOD_NOT_FOUND as int,
                message: "Method not found: "@ + request.method,
                data: None,
            },
        ),
        run(request, outcomes).asked =~= positions(outcomes.len() as int),
        run(request, outcomes).asked.no_duplicates(),
{
    lemma_first_claim_at(outcomes, outcomes.len() as int);
    law_driving_is_first_match(request, outcomes);
}

/// The notification rule, first half: a request without an id that a
/// service handles successfully gets no response, provided the service
/// correlates its response with the request, that is, echoes the absent id.
pub proof fn law_silent_on_handled_notification(request: RequestView, response: ResponseView)
    requires
        request.id is None,
        response.id == request.id,
        response.body is Ok,
    ensures
        reply_of(request, Ok(response)) is None,
{
}

/// The notification rule, second half: a request without an id still gets
/// a response when handling yields an error. If no service claims the
/// method, it is the "method not found" response; if the claiming service
/// fails, it is the error response for that failure; both carry no id. An
/// error response that a service produced itself is passed on as it is.
pub proof fn law_error_on_failed_notification(request: RequestView, handled: HandledView)
    requires
        request.id is None,
        handled matches Ok(response) ==> response.body is Err,
    ensures
        reply_of(request, handled) matches Some(response) && response.body is Err,
        handled matches Err(error) ==> reply_of(request, handled) == Some(
            failure_view(request, error),
        ) && failure_view(request, error).id is None,
        reply_of(request, Ok(not_found(request))) == Some(not_found(request)),
        not_found(request).id is None,
{
}

/// Every response that reaches the caller reports an error or carries an id,
/// and a response is withheld only if it is a success without an id.
pub proof fn law_reply_is_emitted(request: RequestView, handled: HandledView)
    ensures
        reply_of(request, handled) matches Some(response) ==> is_emitted(response),
        reply_of(request, handled) is None ==> (handled matches Ok(response) && response.body is Ok
            && response.id is None),
{
}

/// Order alone decides between two services that claim the same request:
/// the one registered first wins, whichever it is.
pub proof fn law_order_decides(request: RequestView, one: OutcomeView, other: OutcomeView)
    requires
        is_claim(one),
        is_claim(other),
    ensures
        resolve(request, seq![one, other]) == settle(request, one),
        resolve(request, seq![other, one]) == settle(request, other),
        run(request, seq![one, other]).asked =~= seq![0int],
        run(request, seq![other, one]).asked =~= seq![0int],
{
    lemma_first_claim_at(seq![one, other], 0);
    lemma_first_claim_at(seq![other, one], 0);
    law_driving_is_first_match(request, seq![one, other]);
    law_driving_is_first_match(request, seq![other, one]);
}

/// Of two claims anywhere in the list, the earlier one wins, and exchanging
/// them makes the other one win: the result depends on the order of
/// registration, not on what the services are.
pub proof fn law_earlier_claim_wins(
    request: RequestView,
    outcomes: Seq<OutcomeView>,
    earlier: int,
    later: int,
)
    requires
        0 <= earlier < later < outcomes.len(),
        forall|i: int| 0 <= i < earlier ==> !is_claim(#[trigger] outcomes[i]),
        is_claim(outcomes[earlier]),
        is_claim(outcomes[later]),
    ensures
        resolve(request, outcomes) == settle(request, outcomes[earlier]),
        resolve(
            request,
            outcomes.update(earlier, outcomes[later]).update(later, outcomes[earlier]),
        ) == settle(request, outcomes[later]),
{
    lemma_first_claim_at(outcomes, earlier);
    lemma_first_claim_at(
        outcomes.update(earlier, outcomes[later]).update(later, outcomes[earlier]),
        earlier,
    );
}

} // verus!
