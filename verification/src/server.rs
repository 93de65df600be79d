//! Services and the server that routes requests to them.

use crate::dispatch::{
    begin, first_claim, handled_view, is_claim, not_found, outcome_view, proceed, reply,
    reply_of, reply_view, resolve, settle, HandledView, OutcomeView, Step, StepView,
};
use crate::laws::{lemma_first_claim_at, lemma_first_claim_is_least};
use crate::message::{Error, Request, RequestView, Response, ResponseView};
use std::marker::PhantomData;
use vstd::prelude::*;

verus! {

/// A unit of handling logic that may or may not recognise a request.
///
/// `T` is the type of the context that the caller of the server passes along
/// with every request; all services of one server share it.
///
/// A service may say in [`Service::may_answer`] which outcomes it can
/// produce, and then has to prove that [`Service::handle`] keeps to it. A
/// service that leaves `may_answer` as it is promises nothing, so there is
/// nothing to prove, and it can be written without the verifier.
pub trait Service<T: Send + Sync>: Send + Sync {
    /// The outcomes that this service may produce for `request` in context
    /// `ctx`. A service that keeps no state admits exactly one outcome for
    /// each request and context; one that says nothing of itself admits
    /// every outcome.
    open spec fn may_answer(&self, request: RequestView, ctx: T, outcome: OutcomeView) -> bool {
        true
    }

    /// Looks at a request and either answers it, declines it, or fails.
    ///
    /// - `Ok(Some(response))`: the method is this service's and `response`
    ///   is the answer. The service correlates `response` with the request.
    /// - `Ok(None)`: the method is not this service's.
    /// - `Err(error)`: the method is this service's, but handling failed.
    fn handle(&self, request: &Request, ctx: &T) -> (outcome: Result<Option<Response>, Error>)
        ensures
            self.may_answer(request@, *ctx, outcome_view(outcome)),
    ;
}

/// Routes each request to the first service that claims it.
///
/// `T` is the type of the context, `S` the type of the services. By default
/// the services are trait objects, so that one server can hold services of
/// different types: `Server<T>` is a server of `Box<dyn Service<T>>`. The
/// list of services is fixed when the server is made, and its order is the
/// order in which the services are asked.
///
/// What a dispatch returns is stated relative to what the services say of
/// themselves in [`Service::may_answer`]; see [`Server::settles`] and
/// [`Server::serves`]. The `law_` functions turn that into statements about
/// particular services.
#[verifier::reject_recursive_types(T)]
#[verifier::reject_recursive_types(S)]
pub struct Server<T: Send + Sync, S: Service<T> + ?Sized = dyn Service<T>> {
    /// The services, in the order in which they are asked.
    services: Vec<Box<S>>,
    context: PhantomData<T>,
}

impl<T: Send + Sync, S: Service<T> + ?Sized> Server<T, S> {
    /// The services of this server, in registration order.
    pub closed spec fn services(&self) -> Seq<Box<S>> {
        self.services@
    }

    /// Whether `outcomes` can be what the services make of `request`:
    /// one outcome for each service, where every service up to and including
    /// the first that claims the request may indeed produce its outcome. The
    /// services behind the first claim are never asked, so nothing is said
    /// of their entries.
    pub open spec fn admits(
        &self,
        request: RequestView,
        ctx: T,
        outcomes: Seq<OutcomeView>,
    ) -> bool {
        &&& outcomes.len() == self.services().len()
        &&& forall|i: int|
            0 <= i < outcomes.len() && i <= first_claim(outcomes)
                ==> #[trigger] self.services()[i].may_answer(request, ctx, outcomes[i])
    }

    /// Whether a dispatch of `request` can end with `handled`.
    pub open spec fn settles(&self, request: RequestView, ctx: T, handled: HandledView) -> bool {
        exists|outcomes: Seq<OutcomeView>|
            #[trigger] self.admits(request, ctx, outcomes) && handled == resolve(request, outcomes)
    }

    /// Whether the caller of a dispatch of `request` can receive `reply`.
    pub open spec fn serves(
        &self,
        request: RequestView,
        ctx: T,
        reply: Option<ResponseView>,
    ) -> bool {
        exists|handled: HandledView|
            #[trigger] self.settles(request, ctx, handled) && reply == reply_of(request, handled)
    }

    /// Whether the services keep no state that shows in a dispatch of
    /// `request`: each of them admits at most one outcome for it.
    pub open spec fn is_stateless(&self, request: RequestView, ctx: T) -> bool {
        forall|i: int, one: OutcomeView, other: OutcomeView|
            0 <= i < self.services().len() && #[trigger] self.services()[i].may_answer(
                request,
                ctx,
                one,
            ) && #[trigger] self.services()[i].may_answer(request, ctx, other) ==> one == other
    }

    /// Whether the service at `position` always declines `request`.
    pub open spec fn declines(&self, position: int, request: RequestView, ctx: T) -> bool {
        forall|outcome: OutcomeView| #[trigger]
            self.services()[position].may_answer(request, ctx, outcome) ==> !is_claim(outcome)
    }

    /// Whether the service at `position` always claims `request`.
    pub open spec fn claims(&self, position: int, request: RequestView, ctx: T) -> bool {
        forall|outcome: OutcomeView| #[trigger]
            self.services()[position].may_answer(request, ctx, outcome) ==> is_claim(outcome)
    }

    /// Creates a server that asks `services` in the given order.
    pub fn new(services: Vec<Box<S>>) -> (server: Self)
        ensures
            server.services() == services@,
    {
        Server { services, context: PhantomData }
    }

    /// Asks the services in order and returns what the first claim decides.
    ///
    /// A service that answers ends the search with its response, a service
    /// that fails ends it with its error, and if every service declines the
    /// result is a "method not found" error response.
    pub fn handle(&self, request: &Request, ctx: &T) -> (handled: Result<Response, Error>)
        ensures
            self.settles(request@, *ctx, handled_view(handled)),
    {
        let total = self.services.len();
        let ghost mut seen: Seq<OutcomeView> = Seq::empty();
        let mut step = begin(request, total);
        proof {
            if total == 0 {
                assert(self.admits(request@, *ctx, seen));
            }
        }
        loop
            invariant
                total == self.services().len(),
                self.services() == self.services@,
                match step@ {
                    StepView::Invoke(index) => {
                        &&& 0 <= index < total
                        &&& seen.len() == index
                        &&& forall|i: int| 0 <= i < index ==> !is_claim(#[trigger] seen[i])
                        &&& forall|i: int|
                            0 <= i < index ==> #[trigger] self.services()[i].may_answer(
                                request@,
                                *ctx,
                                seen[i],
                            )
                    },
                    StepView::Finish(handled) => self.settles(request@, *ctx, handled),
                },
            decreases
                match step@ {
                    StepView::Invoke(index) => total - index,
                    StepView::Finish(_) => 0,
                },
        {
            match step {
                Step::Finish(handled) => {
                    return handled;
                },
                Step::Invoke(index) => {
                    let outcome = self.services[index].handle(request, ctx);
                    proof {
                        let latest = outcome_view(outcome);
                        let ghost asked = seen.push(latest);
                        if is_claim(latest) || index + 1 == total {
                            let rest = Seq::new((total - index - 1) as nat, |i: int| latest);
                            let outcomes = asked + rest;
                            lemma_first_claim_at(
                                outcomes,
                                if is_claim(latest) {
                                    index as int
                                } else {
                                    total as int
                                },
                            );
                            assert(self.admits(request@, *ctx, outcomes));
                        }
                        seen = asked;
                    }
                    step = proceed(request, total, index, outcome);
                },
            }
        }
    }

    /// Routes a request and returns the response that its sender is owed.
    ///
    /// Failures never escape: an unknown method and a failing service both
    /// become error responses. The one case without a response is a request
    /// without an id that was handled successfully.
    pub fn serve(&self, request: &Request, ctx: &T) -> (reply: Option<Response>)
        ensures
            self.serves(request@, *ctx, reply_view(reply)),
    {
        let handled = self.handle(request, ctx);
        reply(request, handled)
    }

    /// With stateless services a dispatch is repeatable: two dispatches of
    /// the same request in the same context end the same way.
    pub proof fn law_stateless_handling_is_repeatable(
        &self,
        request: RequestView,
        ctx: T,
        first: HandledView,
        second: HandledView,
    )
        requires
            self.is_stateless(request, ctx),
            self.settles(request, ctx, first),
            self.settles(request, ctx, second),
        ensures
            first == second,
    {
        let a = choose|outcomes: Seq<OutcomeView>| #[trigger]
            self.admits(request, ctx, outcomes) && first == resolve(request, outcomes);
        let b = choose|outcomes: Seq<OutcomeView>| #[trigger]
            self.admits(request, ctx, outcomes) && second == resolve(request, outcomes);
        lemma_first_claim_is_least(a);
        lemma_first_claim_is_least(b);
        let winner = if first_claim(a) <= first_claim(b) {
            first_claim(a)
        } else {
            first_claim(b)
        };
        if winner < a.len() {
            assert(self.services()[winner].may_answer(request, ctx, a[winner]));
            assert(self.services()[winner].may_answer(request, ctx, b[winner]));
        }
    }

    /// With stateless services serving is repeatable: serving the same
    /// request twice in the same context yields equal replies.
    pub proof fn law_stateless_serving_is_repeatable(
        &self,
        request: RequestView,
        ctx: T,
        first: Option<ResponseView>,
        second: Option<ResponseView>,
    )
        requires
            self.is_stateless(request, ctx),
            self.serves(request, ctx, first),
            self.serves(request, ctx, second),
        ensures
            first == second,
    {
        let a = choose|handled: HandledView| #[trigger]
            self.settles(request, ctx, handled) && first == reply_of(request, handled);
        let b = choose|handled: HandledView| #[trigger]
            self.settles(request, ctx, handled) && second == reply_of(request, handled);
        self.law_stateless_handling_is_repeatable(request, ctx, a, b);
    }

    /// If the service at `winner` always claims `request` and every service
    /// before it always declines, the dispatch ends as the service at
    /// `winner` decides, whichever services are registered behind it.
    pub proof fn law_first_willing_service_decides(
        &self,
        request: RequestView,
        ctx: T,
        winner: int,
        handled: HandledView,
    )
        requires
            0 <= winner < self.services().len(),
            forall|i: int| 0 <= i < winner ==> self.declines(i, request, ctx),
            self.claims(winner, request, ctx),
            self.settles(request, ctx, handled),
        ensures
            exists|outcome: OutcomeView| #[trigger]
                self.services()[winner].may_answer(request, ctx, outcome) && is_claim(outcome)
                    && handled == settle(request, outcome),
    {
        let outcomes = choose|outcomes: Seq<OutcomeView>| #[trigger]
            self.admits(request, ctx, outcomes) && handled == resolve(request, outcomes);
        lemma_first_claim_is_least(outcomes);
        let found = first_claim(outcomes);
        if found < winner {
            assert(self.services()[found].may_answer(request, ctx, outcomes[found]));
            assert(self.declines(found, request, ctx));
        } else if found > winner {
            assert(self.services()[winner].may_answer(request, ctx, outcomes[winner]));
        }
        assert(self.services()[winner].may_answer(request, ctx, outcomes[winner]));
    }

    /// If the service at `winner` always claims `request` and every service
    /// before it always declines, the caller receives what the notification
    /// rule makes of the decision of the service at `winner`.
    pub proof fn law_first_willing_service_replies(
        &self,
        request: RequestView,
        ctx: T,
        winner: int,
        reply: Option<ResponseView>,
    )
        requires
            0 <= winner < self.services().len(),
            forall|i: int| 0 <= i < winner ==> self.declines(i, request, ctx),
            self.claims(winner, request, ctx),
            self.serves(request, ctx, reply),
        ensures
            exists|outcome: OutcomeView| #[trigger]
                self.services()[winner].may_answer(request, ctx, outcome) && is_claim(outcome)
                    && reply == reply_of(request, settle(request, outcome)),
    {
        let handled = choose|handled: HandledView| #[trigger]
            self.settles(request, ctx, handled) && reply == reply_of(request, handled);
        self.law_first_willing_service_decides(request, ctx, winner, handled);
    }

    /// If every service always declines `request`, the caller receives the
    /// "method not found" error response, whether or not the request has an
    /// id.
    pub proof fn law_no_willing_service_is_method_not_found(
        &self,
        request: RequestView,
        ctx: T,
        reply: Option<ResponseView>,
    )
        requires
            forall|i: int| 0 <= i < self.services().len() ==> self.declines(i, request, ctx),
            self.serves(request, ctx, reply),
        ensures
            reply == Some(not_found(request)),
    {
        let handled = choose|handled: HandledView| #[trigger]
            self.settles(request, ctx, handled) && reply == reply_of(request, handled);
        let outcomes = choose|outcomes: Seq<OutcomeView>| #[trigger]
            self.admits(request, ctx, outcomes) && handled == resolve(request, outcomes);
        lemma_first_claim_is_least(outcomes);
        let found = first_claim(outcomes);
        if found < outcomes.len() {
            assert(self.services()[found].may_answer(request, ctx, outcomes[found]));
            assert(self.declines(found, request, ctx));
        }
    }
}

} // verus!
