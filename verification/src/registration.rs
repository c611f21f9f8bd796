//! Registering the listeners of a plan one after the other.
use crate::error::Error;
use crate::plan::{ListenerRequest, PlannedListener, SystemAudioListenerEvent};
use vstd::prelude::*;

verus! {

/// The listeners that are held after one more registration has been attempted: a listener that
/// could be had comes last, one that could not be had leaves no trace.
pub open spec fn with_outcome<L>(listeners: Seq<L>, outcome: Result<L, Error>) -> Seq<L> {
    match outcome {
        Ok(listener) => listeners.push(listener),
        Err(_) => listeners,
    }
}

/// The listeners that came of the registrations that succeeded, in their order.
pub open spec fn successes<L>(outcomes: Seq<Result<L, Error>>) -> Seq<L>
    decreases outcomes.len(),
{
    if outcomes.len() == 0 {
        Seq::empty()
    } else {
        with_outcome(successes(outcomes.drop_last()), outcomes.last())
    }
}

/// Whether the stream cannot be monitored because this registration failed.
pub open spec fn fatal<L>(planned: PlannedListener, outcome: Result<L, Error>) -> bool {
    planned.required && outcome is Err
}

/// Whether none of the first registrations of `plan`, with the given outcomes, was fatal.
pub open spec fn unhindered<L>(plan: Seq<PlannedListener>, outcomes: Seq<Result<L, Error>>) -> bool {
    &&& outcomes.len() <= plan.len()
    &&& forall|i: int|
        0 <= i < outcomes.len() ==> !fatal(#[trigger] plan[i], #[trigger] outcomes[i])
}

/// Whether `result` is what attempting `plan` comes to when the registrations that were attempted
/// had the given outcomes.
///
/// Either every registration of the plan was attempted, none of them was fatal, and the listeners
/// that could be had are returned in the order of the plan. Or the last registration that was
/// attempted was the first fatal one, and its error is returned.
pub open spec fn concludes<L>(
    plan: Seq<PlannedListener>,
    outcomes: Seq<Result<L, Error>>,
    result: Result<Seq<L>, Error>,
) -> bool {
    match result {
        Ok(listeners) => {
            &&& outcomes.len() == plan.len()
            &&& unhindered(plan, outcomes)
            &&& listeners == successes(outcomes)
        },
        Err(error) => {
            &&& 0 < outcomes.len() <= plan.len()
            &&& unhindered(plan, outcomes.drop_last())
            &&& fatal(plan[outcomes.len() - 1], outcomes.last())
            &&& outcomes.last() == Err::<L, Error>(error)
        },
    }
}

/// Whether `outcomes` are answers of `register` to the first requests of `plan`, in its order, each
/// of which was asked for once.
///
/// What `register` works on is handed from one call to the next: `states` holds it as it was before
/// the first call, which is `start`, and as each of the calls left it. A further call in between
/// would show here, since each call is given what the one before it left.
pub open spec fn answers<S, L, F>(
    register: F,
    start: S,
    plan: Seq<PlannedListener>,
    states: Seq<S>,
    outcomes: Seq<Result<L, Error>>,
) -> bool where F: Fn(S, ListenerRequest<SystemAudioListenerEvent>) -> (S, Result<L, Error>) {
    &&& outcomes.len() <= plan.len()
    &&& states.len() == outcomes.len() + 1
    &&& states[0] == start
    &&& forall|i: int|
        0 <= i < outcomes.len() ==> call_ensures(
            register,
            (states[i], plan[i].request),
            (states[i + 1], #[trigger] outcomes[i]),
        )
}

/// Whether `register` may be asked for the listeners of `plan`, in its order: for the first one at
/// the outset, and for each further one once it has answered to all those before it and none of
/// these answers was fatal. Nothing is granted beyond that, so whoever relies on this alone cannot
/// ask for a listener before its turn, nor again, nor for any after a fatal answer.
pub open spec fn accepts<S, L, F>(register: F, start: S, plan: Seq<PlannedListener>) -> bool where
    F: Fn(S, ListenerRequest<SystemAudioListenerEvent>) -> (S, Result<L, Error>),
 {
    forall|states: Seq<S>, outcomes: Seq<Result<L, Error>>| #[trigger]
        answers(register, start, plan, states, outcomes) && unhindered(plan, outcomes)
            && outcomes.len() < plan.len() ==> call_requires(
            register,
            (states.last(), plan[outcomes.len() as int].request),
        )
}

/// Whether `result` is what attempting `plan` with `register` may come to, each registration once,
/// where what `register` works on is `start` before and `end` afterwards.
pub open spec fn may_conclude<S, L, F>(
    register: F,
    start: S,
    plan: Seq<PlannedListener>,
    end: S,
    result: Result<Seq<L>, Error>,
) -> bool where F: Fn(S, ListenerRequest<SystemAudioListenerEvent>) -> (S, Result<L, Error>) {
    exists|states: Seq<S>, outcomes: Seq<Result<L, Error>>| #[trigger]
        answers(register, start, plan, states, outcomes) && states.last() == end && concludes(
            plan,
            outcomes,
            result,
        )
}

/// The listeners inside a result, as a sequence.
pub open spec fn listed<L>(result: Result<Vec<L>, Error>) -> Result<Seq<L>, Error> {
    match result {
        Ok(listeners) => Ok(listeners@),
        Err(error) => Err(error),
    }
}

/// Adds a listener that the stream can do without, if it could be registered.
pub fn push_optional_listener<L>(listeners: &mut Vec<L>, listener: Result<L, Error>)
    ensures
        final(listeners)@ == with_outcome(old(listeners)@, listener),
{
    if let Ok(listener) = listener {
        listeners.push(listener);
    }
}

/// A plan that is being worked off: the registrations that are still to be attempted, and the
/// listeners that are held so far. Dropping it gives these listeners up.
pub struct ListenerSetup<L> {
    plan: Vec<PlannedListener>,
    attempted: usize,
    listeners: Vec<L>,
}

impl<L> ListenerSetup<L> {
    /// The registrations that are still to be attempted, in their order.
    pub closed spec fn pending(&self) -> Seq<PlannedListener> {
        if self.attempted <= self.plan@.len() {
            self.plan@.skip(self.attempted as int)
        } else {
            Seq::empty()
        }
    }

    /// The listeners that are held, in the order of their registration.
    pub closed spec fn held(&self) -> Seq<L> {
        self.listeners@
    }

    /// Starts on a plan.
    pub fn new(plan: Vec<PlannedListener>) -> (setup: ListenerSetup<L>)
        ensures
            setup.pending() == plan@,
            setup.held() == Seq::<L>::empty(),
    {
        ListenerSetup { plan, attempted: 0, listeners: Vec::new() }
    }

    /// The registration to attempt next, if any is left.
    pub fn next_request(&self) -> (request: Option<ListenerRequest<SystemAudioListenerEvent>>)
        ensures
            request == (if self.pending().len() == 0 {
                None
            } else {
                Some(self.pending()[0].request)
            }),
    {
        if self.attempted < self.plan.len() {
            Some(self.plan[self.attempted].request)
        } else {
            None
        }
    }

    /// Takes note of the outcome of the registration that was to be attempted next.
    ///
    /// Where the stream cannot do without a listener that could not be had, the setup is over:
    /// the error is returned and the listeners that were held are given up.
    pub fn record(self, outcome: Result<L, Error>) -> (setup: Result<ListenerSetup<L>, Error>)
        requires
            self.pending().len() > 0,
        ensures
            fatal(self.pending()[0], outcome) ==> setup == Err::<ListenerSetup<L>, Error>(
                outcome->Err_0,
            ),
            !fatal(self.pending()[0], outcome) ==> (setup matches Ok(next) && {
                &&& next.pending() == self.pending().drop_first()
                &&& next.held() == with_outcome(self.held(), outcome)
            }),
    {
        let mut setup = self;
        assert(setup.attempted < setup.plan.len());
        if setup.plan[setup.attempted].required {
            match outcome {
                Ok(listener) => setup.listeners.push(listener),
                Err(error) => return Err(error),
            }
        } else {
            push_optional_listener(&mut setup.listeners, outcome);
        }
        setup.attempted = setup.attempted + 1;
        assert(setup.pending() =~= self.pending().drop_first());
        Ok(setup)
    }

    /// The listeners that are held.
    pub fn into_listeners(self) -> (listeners: Vec<L>)
        ensures
            listeners@ == self.held(),
    {
        self.listeners
    }
}

/// Working off a plan one registration at a time leads to what [`concludes`] describes. An outcome
/// that is fatal ends it with its error. Any other outcome leaves the rest of the plan to be
/// attempted, and the listeners that could be had so far to be held; once nothing is left to be
/// attempted, these are the result.
pub proof fn law_each_outcome_counts<L>(
    plan: Seq<PlannedListener>,
    outcomes: Seq<Result<L, Error>>,
    outcome: Result<L, Error>,
)
    requires
        unhindered(plan, outcomes),
        outcomes.len() < plan.len(),
    ensures
        ({
            let pending = plan.skip(outcomes.len() as int);
            let extended = outcomes.push(outcome);
            &&& fatal(pending[0], outcome) ==> concludes(
                plan,
                extended,
                Err::<Seq<L>, Error>(outcome->Err_0),
            )
            &&& !fatal(pending[0], outcome) ==> {
                &&& unhindered(plan, extended)
                &&& plan.skip(extended.len() as int) == pending.drop_first()
                &&& successes(extended) == with_outcome(successes(outcomes), outcome)
                &&& extended.len() == plan.len() ==> concludes(
                    plan,
                    extended,
                    Ok::<Seq<L>, Error>(successes(extended)),
                )
            }
        }),
{
    let extended = outcomes.push(outcome);
    assert(extended.drop_last() =~= outcomes);
    assert(plan.skip(extended.len() as int) =~= plan.skip(outcomes.len() as int).drop_first());
}

/// The requests of a plan, in its order.
pub open spec fn requests(plan: Seq<PlannedListener>) -> Seq<
    ListenerRequest<SystemAudioListenerEvent>,
> {
    plan.map_values(|planned: PlannedListener| planned.request)
}

/// Where `register` keeps a log of what it is asked for, that log grows by the requests of the plan
/// that were attempted, each of them once and in the order of the plan, and by nothing else.
pub proof fn law_each_registration_is_attempted_once<S, L, F>(
    register: F,
    log: spec_fn(S) -> Seq<ListenerRequest<SystemAudioListenerEvent>>,
    start: S,
    plan: Seq<PlannedListener>,
    states: Seq<S>,
    outcomes: Seq<Result<L, Error>>,
) where F: Fn(S, ListenerRequest<SystemAudioListenerEvent>) -> (S, Result<L, Error>)
    requires
        forall|before: S, request: ListenerRequest<SystemAudioListenerEvent>, answer: (S, Result<L, Error>)| #[trigger]
            call_ensures(register, (before, request), answer) ==> log(answer.0) == log(before).push(
                request,
            ),
        answers(register, start, plan, states, outcomes),
    ensures
        log(states.last()) == log(start) + requests(plan.take(outcomes.len() as int)),
    decreases outcomes.len(),
{
    let attempted = requests(plan.take(outcomes.len() as int));
    if outcomes.len() == 0 {
        assert(log(start) + attempted =~= log(start));
    } else {
        let last = outcomes.len() - 1;
        let earlier = outcomes.drop_last();
        let before = requests(plan.take(last));
        assert forall|i: int| 0 <= i < earlier.len() implies call_ensures(
            register,
            (states.drop_last()[i], plan[i].request),
            (states.drop_last()[i + 1], #[trigger] earlier[i]),
        ) by {
            assert(earlier[i] == outcomes[i]);
        }
        law_each_registration_is_attempted_once(
            register,
            log,
            start,
            plan,
            states.drop_last(),
            earlier,
        );
        assert(call_ensures(
            register,
            (states[last], plan[last].request),
            (states[last + 1], outcomes[last]),
        ));
        assert(attempted =~= before.push(plan[last].request));
        assert(log(start) + attempted =~= (log(start) + before).push(plan[last].request));
    }
}

/// Works off `plan`, asking `register` for each listener once.
///
/// Registration stops at the first listener that the stream cannot do without and that could not
/// be had; its error is returned. Otherwise the listeners that could be had are returned in the
/// order of the plan.
///
/// What `register` works on goes from one call to the next, beginning with `state`, and is returned
/// as the last call left it.
pub fn register_listeners<S, L, F>(plan: Vec<PlannedListener>, state: S, register: &F) -> (result: (
    S,
    Result<Vec<L>, Error>,
)) where F: Fn(S, ListenerRequest<SystemAudioListenerEvent>) -> (S, Result<L, Error>)
    requires
        accepts::<S, L, F>(*register, state, plan@),
    ensures
        may_conclude(*register, state, plan@, result.0, listed(result.1)),
{
    let ghost full = plan@;
    let ghost start = state;
    let ghost mut states: Seq<S> = seq![state];
    let ghost mut outcomes: Seq<Result<L, Error>> = Seq::empty();
    let mut current = state;
    let mut setup: ListenerSetup<L> = ListenerSetup::new(plan);
    assert(full.skip(0) =~= full);
    loop
        invariant
            full == plan@,
            start == state,
            accepts::<S, L, F>(*register, start, full),
            answers(*register, start, full, states, outcomes),
            states.last() == current,
            unhindered(full, outcomes),
            setup.pending() == full.skip(outcomes.len() as int),
            setup.held() == successes(outcomes),
        ensures
            outcomes.len() == full.len(),
            answers(*register, start, full, states, outcomes),
            states.last() == current,
            unhindered(full, outcomes),
            setup.held() == successes(outcomes),
        decreases setup.pending().len(),
    {
        let request = match setup.next_request() {
            Some(request) => request,
            None => {
                break;
            },
        };
        assert(full[outcomes.len() as int] == setup.pending()[0]);
        let (left, outcome) = register(current, request);
        let ghost reached = states.push(left);
        let ghost extended = outcomes.push(outcome);
        current = left;
        proof {
            assert(answers(*register, start, full, reached, extended));
            law_each_outcome_counts(full, outcomes, outcome);
        }
        match setup.record(outcome) {
            Ok(next) => {
                proof {
                    states = reached;
                    outcomes = extended;
                }
                setup = next;
            },
            Err(error) => {
                let result = Err(error);
                assert(concludes(full, extended, listed(result)));
                return (current, result);
            },
        }
    }
    let result = Ok(setup.into_listeners());
    assert(concludes(full, outcomes, listed(result)));
    (current, result)
}

/// The listeners that came of registrations are those of the ones that succeeded: none is left out,
/// none is added, and they stand in the order of the registrations.
pub proof fn law_successes_are_what_succeeded<L>(outcomes: Seq<Result<L, Error>>)
    ensures
        successes(outcomes) == outcomes.filter(|outcome: Result<L, Error>| outcome is Ok).map_values(
            |outcome: Result<L, Error>| outcome->Ok_0,
        ),
    decreases outcomes.len(),
{
    let succeeded = |outcome: Result<L, Error>| outcome is Ok;
    let listener = |outcome: Result<L, Error>| outcome->Ok_0;
    reveal(Seq::filter);
    if outcomes.len() > 0 {
        law_successes_are_what_succeeded(outcomes.drop_last());
        let earlier = outcomes.drop_last().filter(succeeded);
        if outcomes.last() is Ok {
            assert(outcomes.filter(succeeded) == earlier.push(outcomes.last()));
            assert(earlier.push(outcomes.last()).map_values(listener) =~= earlier.map_values(
                listener,
            ).push(outcomes.last()->Ok_0));
        } else {
            assert(outcomes.filter(succeeded) == earlier);
        }
    } else {
        assert(outcomes.filter(succeeded).map_values(listener) =~= Seq::empty());
    }
}

/// What attempting a plan comes to. Registrations are attempted from the first on, one after the
/// other and each once, every one of them handing on what it left to the next. Where all those that
/// the stream cannot do without could be had, every one was attempted and the listeners that could be
/// had are the result, in the order of the plan. Otherwise the first that the stream cannot do without
/// and that could not be had is the last that was attempted, and its error is the result.
pub proof fn law_what_attempting_a_plan_comes_to<S, L, F>(
    register: F,
    start: S,
    plan: Seq<PlannedListener>,
    end: S,
    result: Result<Seq<L>, Error>,
) -> (run: (Seq<S>, Seq<Result<L, Error>>)) where
    F: Fn(S, ListenerRequest<SystemAudioListenerEvent>) -> (S, Result<L, Error>),

    requires
        may_conclude(register, start, plan, end, result),
    ensures
        ({
            let (states, outcomes) = run;
            &&& states.len() == outcomes.len() + 1
            &&& outcomes.len() <= plan.len()
            &&& states[0] == start
            &&& states.last() == end
            &&& forall|i: int|
                0 <= i < outcomes.len() ==> call_ensures(
                    register,
                    (states[i], plan[i].request),
                    (states[i + 1], #[trigger] outcomes[i]),
                )
            &&& result is Ok ==> {
                &&& outcomes.len() == plan.len()
                &&& forall|i: int|
                    0 <= i < plan.len() && (#[trigger] plan[i]).required ==> outcomes[i] is Ok
                &&& result->Ok_0 == outcomes.filter(
                    |outcome: Result<L, Error>| outcome is Ok,
                ).map_values(|outcome: Result<L, Error>| outcome->Ok_0)
            }
            &&& result is Err ==> {
                &&& outcomes.len() > 0
                &&& plan[outcomes.len() - 1].required
                &&& outcomes.last() is Err
                &&& outcomes.last()->Err_0 == result->Err_0
                &&& forall|i: int|
                    0 <= i < outcomes.len() - 1 && (#[trigger] plan[i]).required ==> outcomes[i]
                        is Ok
            }
        }),
{
    let (states, outcomes) = choose|states: Seq<S>, outcomes: Seq<Result<L, Error>>| #[trigger]
        answers(register, start, plan, states, outcomes) && states.last() == end && concludes(
            plan,
            outcomes,
            result,
        );
    law_successes_are_what_succeeded(outcomes);
    if result is Ok {
        assert forall|i: int| 0 <= i < plan.len() && (#[trigger] plan[i]).required implies outcomes[i]
            is Ok by {
            assert(!fatal(plan[i], outcomes[i]));
        }
    } else {
        assert forall|i: int|
            0 <= i < outcomes.len() - 1 && (#[trigger] plan[i]).required implies outcomes[i] is Ok by {
            assert(!fatal(plan[i], outcomes.drop_last()[i]));
        }
    }
    (states, outcomes)
}

/// Registering the listeners of a plan is attempting the plan.
pub proof fn law_registering_attempts_the_plan<S, L, F>(
    plan: Vec<PlannedListener>,
    state: S,
    register: &F,
    end: S,
    result: Result<Vec<L>, Error>,
) where F: Fn(S, ListenerRequest<SystemAudioListenerEvent>) -> (S, Result<L, Error>)
    requires
        call_ensures(register_listeners::<S, L, F>, (plan, state, register), (end, result)),
    ensures
        result is Ok ==> may_conclude(
            *register,
            state,
            plan@,
            end,
            Ok::<Seq<L>, Error>(result->Ok_0@),
        ),
        result is Err ==> may_conclude(
            *register,
            state,
            plan@,
            end,
            Err::<Seq<L>, Error>(result->Err_0),
        ),
{
}

/// What is listed of a result is its listeners, or its error.
pub proof fn law_results_are_listed_as_they_are<L>(result: Result<Vec<L>, Error>)
    ensures
        result is Ok ==> listed(result) == Ok::<Seq<L>, Error>(result->Ok_0@),
        result is Err ==> listed(result) == Err::<Seq<L>, Error>(result->Err_0),
{
}

/// Whoever can register any listener at any time can be asked for those of any plan.
pub proof fn law_any_plan_can_be_attempted<S, L, F>(
    register: F,
    start: S,
    plan: Seq<PlannedListener>,
) where F: Fn(S, ListenerRequest<SystemAudioListenerEvent>) -> (S, Result<L, Error>)
    requires
        forall|state: S, request: ListenerRequest<SystemAudioListenerEvent>| #[trigger]
            call_requires(register, (state, request)),
    ensures
        accepts::<S, L, F>(register, start, plan),
{
}

/// A listener that the stream can do without is added at the end if it could be had. What is held
/// already stays as it is in any case.
pub proof fn law_optional_listeners_come_last<L>(
    listeners: &mut Vec<L>,
    listener: Result<L, Error>,
)
    requires
        call_ensures(push_optional_listener::<L>, (listeners, listener), ()),
    ensures
        listener is Ok ==> final(listeners)@ == old(listeners)@.push(listener->Ok_0),
        listener is Err ==> final(listeners)@ == old(listeners)@,
{
}

/// A plan that is being worked off asks for the registrations of the plan one after the other, and for
/// no more once all were attempted. It ends at once, with the error, where one that the stream cannot
/// do without could not be had, and nowhere else. What it holds is what came of the registrations that
/// succeeded, in their order.
pub proof fn law_plans_are_worked_off_in_order<L>(
    plan: Vec<PlannedListener>,
    course: Seq<ListenerSetup<L>>,
    outcomes: Seq<Result<L, Error>>,
    n: int,
    request: Option<ListenerRequest<SystemAudioListenerEvent>>,
    listeners: Vec<L>,
    outcome: Result<L, Error>,
    recorded: Result<ListenerSetup<L>, Error>,
)
    requires
        0 <= n <= outcomes.len() <= plan@.len(),
        course.len() == outcomes.len() + 1,
        call_ensures(ListenerSetup::<L>::new, (plan,), course[0]),
        forall|i: int|
            0 <= i < outcomes.len() ==> call_ensures(
                ListenerSetup::<L>::record,
                (course[i], #[trigger] outcomes[i]),
                Ok(course[i + 1]),
            ),
        call_ensures(ListenerSetup::<L>::next_request, (&course[n],), request),
        call_ensures(ListenerSetup::<L>::into_listeners, (course[n],), listeners),
        call_ensures(ListenerSetup::<L>::record, (course[n], outcome), recorded),
    ensures
        request is Some <==> n < plan@.len(),
        request is Some ==> request->Some_0 == plan@[n].request,
        listeners@ == outcomes.take(n).filter(|outcome: Result<L, Error>| outcome is Ok).map_values(
            |outcome: Result<L, Error>| outcome->Ok_0,
        ),
        n < plan@.len() ==> {
            &&& recorded is Err <==> plan@[n].required && outcome is Err
            &&& recorded is Err ==> recorded->Err_0 == outcome->Err_0
        },
{
    lemma_worked_off(plan, course, outcomes, n);
    law_successes_are_what_succeeded(outcomes.take(n));
}

/// What is left and what is held once the first `n` registrations of a plan were attempted.
proof fn lemma_worked_off<L>(
    plan: Vec<PlannedListener>,
    course: Seq<ListenerSetup<L>>,
    outcomes: Seq<Result<L, Error>>,
    n: int,
)
    requires
        0 <= n <= outcomes.len() <= plan@.len(),
        course.len() == outcomes.len() + 1,
        call_ensures(ListenerSetup::<L>::new, (plan,), course[0]),
        forall|i: int|
            0 <= i < outcomes.len() ==> call_ensures(
                ListenerSetup::<L>::record,
                (course[i], #[trigger] outcomes[i]),
                Ok(course[i + 1]),
            ),
    ensures
        course[n].pending() == plan@.skip(n),
        course[n].held() == successes(outcomes.take(n)),
    decreases n,
{
    if n == 0 {
        assert(plan@.skip(0) =~= plan@);
    } else {
        lemma_worked_off(plan, course, outcomes, n - 1);
        let outcome = outcomes[n - 1];
        assert(course[n - 1].pending().len() > 0);
        assert(call_ensures(
            ListenerSetup::<L>::record,
            (course[n - 1], outcome),
            Ok(course[n]),
        ));
        assert(plan@.skip(n - 1).drop_first() =~= plan@.skip(n));
        assert(outcomes.take(n).drop_last() =~= outcomes.take(n - 1));
        assert(outcomes.take(n).last() == outcome);
    }
}

} // verus!
