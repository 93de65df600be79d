//! The decisions of one dispatch, free of any call into a service.
//!
//! Routing a request alternates between asking a service and deciding what
//! to do with its outcome. The deciding half lives here as plain functions:
//! [`begin`] and [`proceed`] say which service to ask next or how the
//! dispatch ended, and [`reply`] applies the notification rule. Whoever
//! drives them, a blocking loop or an asynchronous task, gets first-match-wins
//! routing as described by [`resolve`].

use crate::message::{
    failure_view, Error, ErrorView, Request, RequestView, Response, ResponseView,
};
use vstd::prelude::*;

verus! {

/// What one service made of a request, as mathematical values: `Ok(Some(_))`
/// when it answered, `Ok(None)` when the method is not its own, `Err(_)` when
/// the method is its own but handling failed.
pub type OutcomeView = Result<Option<ResponseView>, ErrorView>;

/// How a dispatch ended before the notification rule is applied.
pub type HandledView = Result<ResponseView, ErrorView>;

/// The view of what a service returned.
pub open spec fn outcome_view(outcome: Result<Option<Response>, Error>) -> OutcomeView {
    match outcome {
        Ok(Some(response)) => Ok(Some(response@)),
        Ok(None) => Ok(None),
        Err(error) => Err(error@),
    }
}

/// The view of how a dispatch ended.
pub open spec fn handled_view(handled: Result<Response, Error>) -> HandledView {
    match handled {
        Ok(response) => Ok(response@),
        Err(error) => Err(error@),
    }
}

/// The view of what the caller of a dispatch receives.
pub open spec fn reply_view(reply: Option<Response>) -> Option<ResponseView> {
    match reply {
        Some(response) => Some(response@),
        None => None,
    }
}

/// The response to a request whose method no service claimed.
pub open spec fn not_found(request: RequestView) -> ResponseView {
    failure_view(request, ErrorView::MethodNotFound { name: request.method, id: request.id })
}

/// Whether an outcome ends the search: the service answered or failed.
pub open spec fn is_claim(outcome: OutcomeView) -> bool {
    !(outcome matches Ok(None))
}

/// How a dispatch ends when `outcome` is the last one it sees: as the
/// service decided if the outcome is a claim, and with "method not found"
/// if it is a decline.
pub open spec fn settle(request: RequestView, outcome: OutcomeView) -> HandledView {
    match outcome {
        Ok(Some(response)) => Ok(response),
        Ok(None) => Ok(not_found(request)),
        Err(error) => Err(error),
    }
}

/// The position of the first claim among `outcomes` at or after `from`, or
/// `outcomes.len()` if there is none.
pub open spec fn first_claim_from(outcomes: Seq<OutcomeView>, from: int) -> int
    decreases outcomes.len() - from,
{
    if from < 0 || from >= outcomes.len() {
        outcomes.len() as int
    } else if is_claim(outcomes[from]) {
        from
    } else {
        first_claim_from(outcomes, from + 1)
    }
}

/// The position of the first service that claims the request, where
/// `outcomes[i]` is what the service registered at position `i` makes of it;
/// `outcomes.len()` if every service declines.
pub open spec fn first_claim(outcomes: Seq<OutcomeView>) -> int {
    first_claim_from(outcomes, 0)
}

/// First match wins: the dispatch ends as the first claiming service decides,
/// and with "method not found" if every service declines.
pub open spec fn resolve(request: RequestView, outcomes: Seq<OutcomeView>) -> HandledView {
    let winner = first_claim(outcomes);
    if winner < outcomes.len() {
        settle(request, outcomes[winner])
    } else {
        Ok(not_found(request))
    }
}

/// Whether a response is handed to the caller: it reports an error, or it
/// carries an id.
pub open spec fn is_emitted(response: ResponseView) -> bool {
    response.body is Err || response.id is Some
}

/// The notification rule. A response is emitted iff it reports an error or
/// carries an id; a failure is always reported, correlated with the request.
pub open spec fn reply_of(request: RequestView, handled: HandledView) -> Option<ResponseView> {
    match handled {
        Ok(response) => if is_emitted(response) {
            Some(response)
        } else {
            None
        },
        Err(error) => Some(failure_view(request, error)),
    }
}

/// What the caller of a dispatch receives, given what each service makes of
/// the request.
pub open spec fn served(request: RequestView, outcomes: Seq<OutcomeView>) -> Option<ResponseView> {
    reply_of(request, resolve(request, outcomes))
}

/// What the driver of a dispatch does next.
#[derive(Debug, PartialEq)]
pub enum Step {
    /// Ask the service at this position, then report its outcome to
    /// [`proceed`].
    Invoke(usize),
    /// The dispatch is over.
    Finish(Result<Response, Error>),
}

/// What a [`Step`] holds, as mathematical values.
pub ghost enum StepView {
    Invoke(int),
    Finish(HandledView),
}

impl View for Step {
    type V = StepView;

    open spec fn view(&self) -> StepView {
        match *self {
            Step::Invoke(index) => StepView::Invoke(index as int),
            Step::Finish(handled) => StepView::Finish(handled_view(handled)),
        }
    }
}

/// The first step of a dispatch over `total` services.
pub open spec fn first_step(request: RequestView, total: int) -> StepView {
    if total > 0 {
        StepView::Invoke(0)
    } else {
        StepView::Finish(Ok(not_found(request)))
    }
}

/// The step after the service at `index` produced `outcome`.
pub open spec fn next_step(
    request: RequestView,
    total: int,
    index: int,
    outcome: OutcomeView,
) -> StepView {
    match outcome {
        Ok(Some(response)) => StepView::Finish(Ok(response)),
        Err(error) => StepView::Finish(Err(error)),
        Ok(None) => if index + 1 < total {
            StepView::Invoke(index + 1)
        } else {
            StepView::Finish(Ok(not_found(request)))
        },
    }
}

/// A dispatch driven to its end.
pub ghost struct Run {
    /// The positions of the services that were asked, in the order of asking.
    pub asked: Seq<int>,
    /// How the dispatch ended.
    pub handled: HandledView,
}

/// Drives a dispatch from `step` to its end, where `outcomes[i]` is what the
/// service at position `i` produces when it is asked.
pub open spec fn run_from(request: RequestView, outcomes: Seq<OutcomeView>, step: StepView) -> Run
    decreases
        (match step {
            StepView::Invoke(index) => if 0 <= index < outcomes.len() {
                outcomes.len() - index
            } else {
                0
            },
            StepView::Finish(_) => 0,
        }),
{
    match step {
        StepView::Finish(handled) => Run { asked: Seq::empty(), handled },
        StepView::Invoke(index) => if 0 <= index < outcomes.len() {
            let next = next_step(request, outcomes.len() as int, index, outcomes[index]);
            let rest = run_from(request, outcomes, next);
            Run { asked: seq![index] + rest.asked, handled: rest.handled }
        } else {
            Run { asked: Seq::empty(), handled: Ok(not_found(request)) }
        },
    }
}

/// Drives a whole dispatch of `request` over services that produce
/// `outcomes`: [`first_step`], then [`next_step`] after each outcome.
pub open spec fn run(request: RequestView, outcomes: Seq<OutcomeView>) -> Run {
    run_from(request, outcomes, first_step(request, outcomes.len() as int))
}

/// Builds the "method not found" response to `request`.
pub fn method_not_found(request: &Request) -> (response: Response)
    ensures
        response@ == not_found(request@),
{
    let error = Error::MethodNotFound {
        name: request.method().to_owned(),
        id: request.id().clone(),
    };
    Response::failure(request, error)
}

/// Starts a dispatch of `request` over `total` services.
pub fn begin(request: &Request, total: usize) -> (step: Step)
    ensures
        step@ == first_step(request@, total as int),
{
    if total > 0 {
        Step::Invoke(0)
    } else {
        Step::Finish(Ok(method_not_found(request)))
    }
}

/// Continues a dispatch after the service at `index` produced `outcome`.
///
/// A response or a failure ends the dispatch at once. When the service
/// declined, the next one is asked, and after the last one the request is
/// answered with "method not found".
pub fn proceed(
    request: &Request,
    total: usize,
    index: usize,
    outcome: Result<Option<Response>, Error>,
) -> (step: Step)
    ensures
        step@ == next_step(request@, total as int, index as int, outcome_view(outcome)),
{
    match outcome {
        Ok(Some(response)) => Step::Finish(Ok(response)),
        Err(error) => Step::Finish(Err(error)),
        Ok(None) => {
            if total > 0 && index < total - 1 {
                Step::Invoke(index + 1)
            } else {
                Step::Finish(Ok(method_not_found(request)))
            }
        },
    }
}

/// Turns the end of a dispatch into what the caller receives.
///
/// A failure becomes an error response. A response is passed on if it reports
/// an error or carries an id, and dropped otherwise: a notification that was
/// handled successfully is answered with nothing.
pub fn reply(request: &Request, handled: Result<Response, Error>) -> (reply: Option<Response>)
    ensures
        reply_view(reply) == reply_of(request@, handled_view(handled)),
{
    match handled {
        Ok(response) => {
            if response.error().is_some() || response.id().is_some() {
                Some(response)
            } else {
                None
            }
        },
        Err(error) => Some(Response::failure(request, error)),
    }
}

} // verus!
