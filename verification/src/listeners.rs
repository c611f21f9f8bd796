//! The property listeners behind a system-audio stream, and what holds of registering them.
use crate::error::Error;
use crate::plan::{
    aggregate_listener_plan, default_output_listener_plan, system_audio_global_listener_plan,
    tap_listener_plan, ListenerRequest, PlannedListener, SystemAudioListenerEvent,
};
use crate::property::{AudioDeviceID, AudioObject, AudioObjectID};
use crate::registration::register_listeners;
use crate::{plan, registration};
use vstd::prelude::*;

verus! {

/// Registers the listeners for the private aggregate device, asking `register` for each once.
///
/// Fails with the error of the listener for the device being alive, or of that for its sample
/// rate, if it cannot be had. The other listeners are left out where they cannot be had.
pub fn aggregate_property_listeners<S, L, F>(
    aggregate_device_id: AudioDeviceID,
    state: S,
    register: &F,
) -> (result: (S, Result<Vec<L>, Error>)) where
    F: Fn(S, ListenerRequest<SystemAudioListenerEvent>) -> (S, Result<L, Error>),

    requires
        registration::accepts::<S, L, F>(
            *register,
            state,
            plan::aggregate_plan(aggregate_device_id),
        ),
    ensures
        registration::may_conclude(
            *register,
            state,
            plan::aggregate_plan(aggregate_device_id),
            result.0,
            registration::listed(result.1),
        ),
{
    register_listeners(aggregate_listener_plan(aggregate_device_id), state, register)
}

/// Registers the listeners for the audio system as a whole, asking `register` for each once.
///
/// Fails with the error of the listener for the default output device if it cannot be had. The
/// other listeners are left out where they cannot be had.
pub fn system_audio_global_property_listeners<S, L, F>(state: S, register: &F) -> (result: (
    S,
    Result<Vec<L>, Error>,
)) where F: Fn(S, ListenerRequest<SystemAudioListenerEvent>) -> (S, Result<L, Error>)
    requires
        registration::accepts::<S, L, F>(*register, state, plan::system_audio_global_plan()),
    ensures
        registration::may_conclude(
            *register,
            state,
            plan::system_audio_global_plan(),
            result.0,
            registration::listed(result.1),
        ),
{
    register_listeners(system_audio_global_listener_plan(), state, register)
}

/// Registers the listeners of a plan that holds none that the stream cannot do without.
fn register_optional_listeners<S, L, F>(plan: Vec<PlannedListener>, state: S, register: &F) -> (
result: (S, Vec<L>)) where
    F: Fn(S, ListenerRequest<SystemAudioListenerEvent>) -> (S, Result<L, Error>),

    requires
        registration::accepts::<S, L, F>(*register, state, plan@),
        forall|i: int| 0 <= i < plan@.len() ==> !(#[trigger] plan@[i]).required,
    ensures
        registration::may_conclude(
            *register,
            state,
            plan@,
            result.0,
            Ok::<Seq<L>, Error>(result.1@),
        ),
{
    let ghost full = plan@;
    let ghost start = state;
    let (end, result) = register_listeners(plan, state, register);
    match result {
        Ok(listeners) => (end, listeners),
        Err(_) => {
            proof {
                let (_, outcomes) = attempts(
                    *register,
                    start,
                    full,
                    end,
                    registration::listed(result),
                );
                law_optional_listeners_never_fail(full, outcomes, registration::listed(result));
            }
            (end, Vec::new())
        },
    }
}

/// Registers the listeners for the tap, asking `register` for each once and leaving out those that
/// cannot be had.
pub fn tap_property_listeners<S, L, F>(tap_id: AudioObjectID, state: S, register: &F) -> (result: (
    S,
    Vec<L>,
)) where F: Fn(S, ListenerRequest<SystemAudioListenerEvent>) -> (S, Result<L, Error>)
    requires
        registration::accepts::<S, L, F>(*register, state, plan::tap_plan(tap_id)),
    ensures
        registration::may_conclude(
            *register,
            state,
            plan::tap_plan(tap_id),
            result.0,
            Ok::<Seq<L>, Error>(result.1@),
        ),
{
    register_optional_listeners(tap_listener_plan(tap_id), state, register)
}

/// Registers the listeners for the default output device, asking `register` for each once and
/// leaving out those that cannot be had. Where there is no default output, nothing is registered.
pub fn default_output_property_listeners<S, L, F>(
    default_output_id: Option<AudioDeviceID>,
    state: S,
    register: &F,
) -> (result: (S, Vec<L>)) where
    F: Fn(S, ListenerRequest<SystemAudioListenerEvent>) -> (S, Result<L, Error>),

    requires
        registration::accepts::<S, L, F>(
            *register,
            state,
            plan::default_output_plan(default_output_id),
        ),
    ensures
        registration::may_conclude(
            *register,
            state,
            plan::default_output_plan(default_output_id),
            result.0,
            Ok::<Seq<L>, Error>(result.1@),
        ),
        default_output_id is None ==> result.0 == state && result.1@.len() == 0,
{
    register_optional_listeners(default_output_listener_plan(default_output_id), state, register)
}

/// Registers what is watched for as long as a system-audio stream exists: the aggregate device,
/// the audio system as a whole, and the tap, in this order. `register` is asked for each listener
/// once.
pub fn system_audio_listeners<S, L, F>(
    aggregate_device_id: AudioDeviceID,
    tap_id: AudioObjectID,
    state: S,
    register: &F,
) -> (result: (S, Result<Vec<L>, Error>)) where
    F: Fn(S, ListenerRequest<SystemAudioListenerEvent>) -> (S, Result<L, Error>),

    requires
        registration::accepts::<S, L, F>(
            *register,
            state,
            plan::system_audio_plan(aggregate_device_id, tap_id),
        ),
    ensures
        registration::may_conclude(
            *register,
            state,
            plan::system_audio_plan(aggregate_device_id, tap_id),
            result.0,
            registration::listed(result.1),
        ),
{
    let ghost start = state;
    let ghost first = plan::aggregate_plan(aggregate_device_id);
    let ghost second = plan::system_audio_global_plan();
    let ghost third = plan::tap_plan(tap_id);
    let ghost full = plan::system_audio_plan(aggregate_device_id, tap_id);
    proof {
        lemma_start_is_accepted::<S, L, F>(*register, start, first + second, third);
        lemma_start_is_accepted::<S, L, F>(*register, start, first, second);
    }
    let (state, aggregate) = aggregate_property_listeners(aggregate_device_id, state, register);
    let mut listeners = match aggregate {
        Ok(listeners) => listeners,
        Err(error) => {
            let result = Err(error);
            proof {
                lemma_failure_extends(
                    *register,
                    start,
                    first,
                    second + third,
                    state,
                    registration::listed(result),
                );
                assert(first + (second + third) =~= full);
            }
            return (state, result);
        },
    };
    let ghost middle = state;
    let ghost held_first = listeners@;
    proof {
        lemma_rest_is_accepted(*register, start, first, middle, held_first, second);
    }
    let (state, global) = system_audio_global_property_listeners(state, register);
    match global {
        Ok(mut global) => {
            let ghost held_second = global@;
            listeners.append(&mut global);
            proof {
                lemma_success_extends(
                    *register,
                    start,
                    first,
                    middle,
                    held_first,
                    second,
                    state,
                    Ok::<Seq<L>, Error>(held_second),
                );
            }
        },
        Err(error) => {
            let result = Err(error);
            proof {
                lemma_success_extends(
                    *register,
                    start,
                    first,
                    middle,
                    held_first,
                    second,
                    state,
                    registration::listed(result),
                );
                lemma_failure_extends(
                    *register,
                    start,
                    first + second,
                    third,
                    state,
                    registration::listed(result),
                );
            }
            return (state, result);
        },
    }
    let ghost late = state;
    let ghost held = listeners@;
    proof {
        lemma_rest_is_accepted(*register, start, first + second, late, held, third);
    }
    let (state, mut tap) = tap_property_listeners(tap_id, state, register);
    proof {
        lemma_success_extends(
            *register,
            start,
            first + second,
            late,
            held,
            third,
            state,
            Ok::<Seq<L>, Error>(tap@),
        );
    }
    listeners.append(&mut tap);
    (state, Ok(listeners))
}

/// Two runs of registrations, joined: the listeners of the first come before those of the second.
pub open spec fn joined<L>(held: Seq<L>, result: Result<Seq<L>, Error>) -> Result<Seq<L>, Error> {
    match result {
        Ok(listeners) => Ok(held + listeners),
        Err(error) => Err(error),
    }
}

/// Working off one plan and then another comes to the same as working off both as one plan.
pub proof fn law_plans_join<L>(
    first: Seq<PlannedListener>,
    first_outcomes: Seq<Result<L, Error>>,
    held: Seq<L>,
    second: Seq<PlannedListener>,
    second_outcomes: Seq<Result<L, Error>>,
    result: Result<Seq<L>, Error>,
)
    requires
        registration::concludes(first, first_outcomes, Ok::<Seq<L>, Error>(held)),
        registration::concludes(second, second_outcomes, result),
    ensures
        registration::concludes(
            first + second,
            first_outcomes + second_outcomes,
            joined(held, result),
        ),
{
    let plan = first + second;
    let outcomes = first_outcomes + second_outcomes;
    lemma_successes_join(first_outcomes, second_outcomes);
    assert forall|i: int|
        0 <= i < outcomes.len() && (i < first_outcomes.len() || !registration::fatal(
            second[i - first.len()],
            second_outcomes[i - first.len()],
        )) implies !registration::fatal(#[trigger] plan[i], #[trigger] outcomes[i]) by {
        if i < first.len() {
            assert(plan[i] == first[i] && outcomes[i] == first_outcomes[i]);
        } else {
            assert(plan[i] == second[i - first.len()]);
            assert(outcomes[i] == second_outcomes[i - first.len()]);
        }
    }
    match result {
        Ok(_) => {
            assert forall|i: int| 0 <= i < outcomes.len() implies !registration::fatal(
                #[trigger] plan[i],
                #[trigger] outcomes[i],
            ) by {
                if i >= first.len() {
                    assert(!registration::fatal(
                        second[i - first.len()],
                        second_outcomes[i - first.len()],
                    ));
                }
            }
        },
        Err(_) => {
            let before = second_outcomes.drop_last();
            assert(outcomes.drop_last() =~= first_outcomes + before);
            assert forall|i: int| 0 <= i < outcomes.len() - 1 implies !registration::fatal(
                #[trigger] plan[i],
                #[trigger] outcomes.drop_last()[i],
            ) by {
                assert(outcomes.drop_last()[i] == outcomes[i]);
                if i >= first.len() {
                    assert(before[i - first.len()] == second_outcomes[i - first.len()]);
                    assert(!registration::fatal(second[i - first.len()], before[i - first.len()]));
                }
            }
            assert(outcomes.last() == second_outcomes.last());
        },
    }
}

/// A plan comes to one result only, given the outcomes of its registrations.
pub proof fn law_result_is_determined<L>(
    plan: Seq<PlannedListener>,
    outcomes: Seq<Result<L, Error>>,
    one: Result<Seq<L>, Error>,
    other: Result<Seq<L>, Error>,
)
    requires
        registration::concludes(plan, outcomes, one),
        registration::concludes(plan, outcomes, other),
    ensures
        one == other,
{
    if outcomes.len() > 0 {
        let last = outcomes.len() - 1;
        if one is Ok {
            assert(!registration::fatal(plan[last], outcomes[last]));
        }
        if other is Ok {
            assert(!registration::fatal(plan[last], outcomes[last]));
        }
    }
}

/// Where each registration of a plan has an outcome of its own, working off the plan comes to a
/// result: it succeeds if no outcome is fatal, and otherwise stops at the first fatal one.
pub proof fn law_every_plan_concludes<L>(
    plan: Seq<PlannedListener>,
    outcomes: Seq<Result<L, Error>>,
) -> (attempted: int)
    requires
        outcomes.len() == plan.len(),
    ensures
        0 <= attempted <= plan.len(),
        registration::unhindered(plan, outcomes) ==> registration::concludes(
            plan,
            outcomes,
            Ok::<Seq<L>, Error>(registration::successes(outcomes)),
        ),
        !registration::unhindered(plan, outcomes) ==> attempted > 0 && registration::concludes(
            plan,
            outcomes.take(attempted),
            Err::<Seq<L>, Error>(outcomes[attempted - 1]->Err_0),
        ),
{
    if registration::unhindered(plan, outcomes) {
        plan.len() as int
    } else {
        lemma_first_fatal(plan, outcomes, 0)
    }
}

/// A plan succeeds if and only if none of its required listeners fails.
pub proof fn law_success_needs_the_required_listeners<L>(
    plan: Seq<PlannedListener>,
    outcomes: Seq<Result<L, Error>>,
    result: Result<Seq<L>, Error>,
)
    requires
        registration::concludes(plan, outcomes, result),
    ensures
        result is Ok <==> forall|i: int|
            0 <= i < outcomes.len() && (#[trigger] plan[i]).required ==> outcomes[i] is Ok,
{
    if result is Ok {
        assert forall|i: int|
            0 <= i < outcomes.len() && (#[trigger] plan[i]).required implies outcomes[i] is Ok by {
            assert(!registration::fatal(plan[i], outcomes[i]));
        }
    } else {
        assert(plan[outcomes.len() - 1].required && outcomes[outcomes.len() - 1] is Err);
    }
}

/// A plan of which nothing is required succeeds, whatever its registrations come to.
pub proof fn law_optional_listeners_never_fail<L>(
    plan: Seq<PlannedListener>,
    outcomes: Seq<Result<L, Error>>,
    result: Result<Seq<L>, Error>,
)
    requires
        forall|i: int| 0 <= i < plan.len() ==> !(#[trigger] plan[i]).required,
        registration::concludes(plan, outcomes, result),
    ensures
        result == Ok::<Seq<L>, Error>(registration::successes(outcomes)),
{
    if result is Err {
        assert(plan[outcomes.len() - 1].required);
    }
}

/// The aggregate device is monitored if and only if its two required listeners could be had. They
/// then come first, and no more listeners are held than were planned.
pub proof fn law_aggregate_listeners<L>(
    aggregate_device_id: AudioDeviceID,
    outcomes: Seq<Result<L, Error>>,
    result: Result<Seq<L>, Error>,
)
    requires
        registration::concludes(plan::aggregate_plan(aggregate_device_id), outcomes, result),
    ensures
        result is Ok <==> outcomes.len() >= 2 && outcomes[0] is Ok && outcomes[1] is Ok,
        result matches Ok(held) ==> 2 <= held.len() <= outcomes.len() && held[0] == outcomes[0]->Ok_0
            && held[1] == outcomes[1]->Ok_0,
{
    let planned = plan::aggregate_plan(aggregate_device_id);
    assert forall|i: int| 2 <= i < planned.len() implies !(#[trigger] planned[i]).required by {}
    assert(planned[0].required && planned[1].required);
    match result {
        Ok(held) => {
            assert(!registration::fatal(planned[0], outcomes[0]));
            assert(!registration::fatal(planned[1], outcomes[1]));
            let start = outcomes.take(2);
            let rest = outcomes.skip(2);
            assert(outcomes =~= start + rest);
            lemma_successes_join(start, rest);
            lemma_successes_len(rest);
            reveal_with_fuel(registration::successes, 3);
            assert(start.drop_last().drop_last() =~= Seq::empty());
        },
        Err(_) => {
            assert(planned[outcomes.len() - 1].required);
        },
    }
}

/// No property is watched twice among what is watched for as long as a stream exists.
pub proof fn law_properties_are_watched_once(
    aggregate_device_id: AudioDeviceID,
    tap_id: AudioObjectID,
    i: int,
    j: int,
)
    requires
        0 <= i < j < plan::system_audio_plan(aggregate_device_id, tap_id).len(),
    ensures
        ({
            let planned = plan::system_audio_plan(aggregate_device_id, tap_id);
            (planned[i].request.object, planned[i].request.address) != (
                planned[j].request.object,
                planned[j].request.address,
            )
        }),
{
}

/// Only the loss of the aggregate device is reported as a lost device. Every other change
/// invalidates the stream, but for a change of the default output device.
pub proof fn law_what_listeners_report(
    aggregate_device_id: AudioDeviceID,
    tap_id: AudioObjectID,
    i: int,
)
    requires
        0 <= i < plan::system_audio_plan(aggregate_device_id, tap_id).len(),
    ensures
        ({
            let request = plan::system_audio_plan(aggregate_device_id, tap_id)[i].request;
            match request.event {
                SystemAudioListenerEvent::DeviceNotAvailable(_) => request.object
                    == AudioObject::Id(aggregate_device_id) && request.address.selector
                    == crate::property::PropertySelector::DeviceIsAlive,
                SystemAudioListenerEvent::DefaultOutputChanged => request.object
                    == AudioObject::System && request.address.selector
                    == crate::property::PropertySelector::DefaultOutputDevice,
                SystemAudioListenerEvent::StreamInvalidated(_) => true,
            }
        }),
{
}

proof fn lemma_successes_join<L>(one: Seq<Result<L, Error>>, other: Seq<Result<L, Error>>)
    ensures
        registration::successes(one + other) == registration::successes(one)
            + registration::successes(other),
    decreases other.len(),
{
    if other.len() == 0 {
        assert(one + other =~= one);
        assert(registration::successes(one) + registration::successes(other)
            =~= registration::successes(one));
    } else {
        lemma_successes_join(one, other.drop_last());
        assert((one + other).drop_last() =~= one + other.drop_last());
        assert((one + other).last() == other.last());
        assert(registration::successes(one + other) =~= registration::successes(one)
            + registration::successes(other));
    }
}

proof fn lemma_successes_len<L>(outcomes: Seq<Result<L, Error>>)
    ensures
        registration::successes(outcomes).len() <= outcomes.len(),
    decreases outcomes.len(),
{
    if outcomes.len() > 0 {
        lemma_successes_len(outcomes.drop_last());
    }
}

proof fn lemma_first_fatal<L>(
    plan: Seq<PlannedListener>,
    outcomes: Seq<Result<L, Error>>,
    from: int,
) -> (attempted: int)
    requires
        outcomes.len() == plan.len(),
        0 <= from <= plan.len(),
        registration::unhindered(plan, outcomes.take(from)),
        !registration::unhindered(plan, outcomes),
    ensures
        0 < attempted <= plan.len(),
        registration::concludes(
            plan,
            outcomes.take(attempted),
            Err::<Seq<L>, Error>(outcomes[attempted - 1]->Err_0),
        ),
    decreases plan.len() - from,
{
    if from == plan.len() {
        assert(outcomes.take(from) =~= outcomes);
        0
    } else {
        let next = outcomes.take(from + 1);
        assert(next.drop_last() =~= outcomes.take(from));
        if registration::fatal(plan[from], outcomes[from]) {
            from + 1
        } else {
            assert forall|i: int| 0 <= i < next.len() implies !registration::fatal(
                #[trigger] plan[i],
                #[trigger] next[i],
            ) by {
                if i < from {
                    assert(next[i] == outcomes.take(from)[i]);
                }
            }
            lemma_first_fatal(plan, outcomes, from + 1)
        }
    }
}

/// What `register` worked on and what it answered where attempting `plan` came to `result`.
proof fn attempts<S, L, F>(
    register: F,
    start: S,
    plan: Seq<PlannedListener>,
    end: S,
    result: Result<Seq<L>, Error>,
) -> (attempts: (Seq<S>, Seq<Result<L, Error>>)) where
    F: Fn(S, ListenerRequest<SystemAudioListenerEvent>) -> (S, Result<L, Error>),

    requires
        registration::may_conclude(register, start, plan, end, result),
    ensures
        registration::answers(register, start, plan, attempts.0, attempts.1),
        attempts.0.last() == end,
        registration::concludes(plan, attempts.1, result),
{
    choose|states: Seq<S>, outcomes: Seq<Result<L, Error>>| #[trigger]
        registration::answers(register, start, plan, states, outcomes) && states.last() == end
            && registration::concludes(plan, outcomes, result)
}

proof fn lemma_start_is_accepted<S, L, F>(
    register: F,
    start: S,
    first: Seq<PlannedListener>,
    second: Seq<PlannedListener>,
) where F: Fn(S, ListenerRequest<SystemAudioListenerEvent>) -> (S, Result<L, Error>)
    requires
        registration::accepts::<S, L, F>(register, start, first + second),
    ensures
        registration::accepts::<S, L, F>(register, start, first),
{
    let plan = first + second;
    assert forall|states: Seq<S>, outcomes: Seq<Result<L, Error>>| #[trigger]
        registration::answers(register, start, first, states, outcomes) && registration::unhindered(
            first,
            outcomes,
        ) && outcomes.len() < first.len() implies call_requires(
        register,
        (states.last(), first[outcomes.len() as int].request),
    ) by {
        let nothing: Seq<Result<L, Error>> = Seq::empty();
        let last = seq![states.last()];
        assert(registration::answers(register, states.last(), second, last, nothing));
        lemma_answers_join(register, start, first, states, outcomes, second, last, nothing);
        assert(outcomes + nothing =~= outcomes);
        assert(states + last.drop_first() =~= states);
        assert(plan[outcomes.len() as int] == first[outcomes.len() as int]);
    }
}

proof fn lemma_rest_is_accepted<S, L, F>(
    register: F,
    start: S,
    first: Seq<PlannedListener>,
    middle: S,
    held: Seq<L>,
    second: Seq<PlannedListener>,
) where F: Fn(S, ListenerRequest<SystemAudioListenerEvent>) -> (S, Result<L, Error>)
    requires
        registration::accepts::<S, L, F>(register, start, first + second),
        registration::may_conclude(register, start, first, middle, Ok::<Seq<L>, Error>(held)),
    ensures
        registration::accepts::<S, L, F>(register, middle, second),
{
    let plan = first + second;
    let (states, one) = attempts(register, start, first, middle, Ok::<Seq<L>, Error>(held));
    assert forall|further: Seq<S>, other: Seq<Result<L, Error>>| #[trigger]
        registration::answers(register, middle, second, further, other) && registration::unhindered(
            second,
            other,
        ) && other.len() < second.len() implies call_requires(
        register,
        (further.last(), second[other.len() as int].request),
    ) by {
        lemma_answers_join(register, start, first, states, one, second, further, other);
        assert(plan[(one + other).len() as int] == second[other.len() as int]);
    }
}

/// Answers to the start of one plan, followed by answers to another where the first was worked off
/// whole, are answers to both as one plan, and as little hindered.
proof fn lemma_answers_join<S, L, F>(
    register: F,
    start: S,
    first: Seq<PlannedListener>,
    states: Seq<S>,
    one: Seq<Result<L, Error>>,
    second: Seq<PlannedListener>,
    further: Seq<S>,
    other: Seq<Result<L, Error>>,
) where F: Fn(S, ListenerRequest<SystemAudioListenerEvent>) -> (S, Result<L, Error>)
    requires
        registration::answers(register, start, first, states, one),
        registration::answers(register, states.last(), second, further, other),
        one.len() == first.len() || other.len() == 0,
    ensures
        registration::answers(
            register,
            start,
            first + second,
            states + further.drop_first(),
            one + other,
        ),
        (states + further.drop_first()).last() == further.last(),
        registration::unhindered(first, one) && registration::unhindered(second, other)
            ==> registration::unhindered(first + second, one + other),
{
    let plan = first + second;
    let outcomes = one + other;
    let all = states + further.drop_first();
    assert forall|i: int| one.len() <= i < all.len() implies all[i] == further[i - one.len()] by {
        if i > one.len() {
            assert(all[i] == further.drop_first()[i - one.len() - 1]);
        }
    }
    assert forall|i: int| 0 <= i < outcomes.len() implies call_ensures(
        register,
        (all[i], plan[i].request),
        (all[i + 1], #[trigger] outcomes[i]),
    ) by {
        if i < one.len() {
            assert(outcomes[i] == one[i]);
        } else {
            assert(outcomes[i] == other[i - one.len()]);
            assert(all[i + 1] == further[i - one.len() + 1]);
        }
    }
    if registration::unhindered(first, one) && registration::unhindered(second, other) {
        assert forall|i: int| 0 <= i < outcomes.len() implies !registration::fatal(
            #[trigger] plan[i],
            #[trigger] outcomes[i],
        ) by {
            if i < one.len() {
                assert(plan[i] == first[i] && outcomes[i] == one[i]);
            } else {
                assert(plan[i] == second[i - one.len()] && outcomes[i] == other[i - one.len()]);
            }
        }
    }
}

proof fn lemma_success_extends<S, L, F>(
    register: F,
    start: S,
    first: Seq<PlannedListener>,
    middle: S,
    held: Seq<L>,
    second: Seq<PlannedListener>,
    end: S,
    result: Result<Seq<L>, Error>,
) where F: Fn(S, ListenerRequest<SystemAudioListenerEvent>) -> (S, Result<L, Error>)
    requires
        registration::may_conclude(register, start, first, middle, Ok::<Seq<L>, Error>(held)),
        registration::may_conclude(register, middle, second, end, result),
    ensures
        registration::may_conclude(register, start, first + second, end, joined(held, result)),
{
    let (states, one) = attempts(register, start, first, middle, Ok::<Seq<L>, Error>(held));
    let (further, other) = attempts(register, middle, second, end, result);
    law_plans_join(first, one, held, second, other, result);
    lemma_answers_join(register, start, first, states, one, second, further, other);
}

proof fn lemma_failure_extends<S, L, F>(
    register: F,
    start: S,
    first: Seq<PlannedListener>,
    second: Seq<PlannedListener>,
    end: S,
    result: Result<Seq<L>, Error>,
) where F: Fn(S, ListenerRequest<SystemAudioListenerEvent>) -> (S, Result<L, Error>)
    requires
        result is Err,
        registration::may_conclude(register, start, first, end, result),
    ensures
        registration::may_conclude(register, start, first + second, end, result),
{
    let (states, outcomes) = attempts(register, start, first, end, result);
    let plan = first + second;
    assert forall|i: int| 0 <= i < outcomes.len() - 1 implies !registration::fatal(
        #[trigger] plan[i],
        #[trigger] outcomes.drop_last()[i],
    ) by {
        assert(plan[i] == first[i]);
    }
    assert(registration::answers(register, start, plan, states, outcomes));
}

/// Each of the functions that register listeners attempts all that is watched on what it is about, and
/// nothing else.
pub proof fn law_everything_watched_is_attempted<S, L, F>(
    aggregate_device_id: AudioDeviceID,
    tap_id: AudioObjectID,
    default_output_id: Option<AudioDeviceID>,
    state: S,
    register: &F,
    aggregate: (S, Result<Vec<L>, Error>),
    global: (S, Result<Vec<L>, Error>),
    tap: (S, Vec<L>),
    default_output: (S, Vec<L>),
) where F: Fn(S, ListenerRequest<SystemAudioListenerEvent>) -> (S, Result<L, Error>)
    requires
        call_ensures(
            aggregate_property_listeners::<S, L, F>,
            (aggregate_device_id, state, register),
            aggregate,
        ),
        call_ensures(
            system_audio_global_property_listeners::<S, L, F>,
            (state, register),
            global,
        ),
        call_ensures(tap_property_listeners::<S, L, F>, (tap_id, state, register), tap),
        call_ensures(
            default_output_property_listeners::<S, L, F>,
            (default_output_id, state, register),
            default_output,
        ),
    ensures
        registration::may_conclude(
            *register,
            state,
            plan::aggregate_plan(aggregate_device_id),
            aggregate.0,
            registration::listed(aggregate.1),
        ),
        registration::may_conclude(
            *register,
            state,
            plan::system_audio_global_plan(),
            global.0,
            registration::listed(global.1),
        ),
        registration::may_conclude(
            *register,
            state,
            plan::tap_plan(tap_id),
            tap.0,
            Ok::<Seq<L>, Error>(tap.1@),
        ),
        registration::may_conclude(
            *register,
            state,
            plan::default_output_plan(default_output_id),
            default_output.0,
            Ok::<Seq<L>, Error>(default_output.1@),
        ),
        default_output_id is None ==> default_output.0 == state && default_output.1@.len() == 0,
{
}

/// Registering what is watched as long as a system-audio stream exists attempts what is watched on the
/// aggregate device, then on the audio system, then on the tap. Where nothing fails, the result holds a
/// listener for each of the sixteen properties, and where one fails that the stream cannot do without,
/// its error is the result.
pub proof fn law_a_stream_is_watched<S, L, F>(
    aggregate_device_id: AudioDeviceID,
    tap_id: AudioObjectID,
    state: S,
    register: &F,
    end: S,
    result: Result<Vec<L>, Error>,
) -> (run: (Seq<S>, Seq<Result<L, Error>>)) where
    F: Fn(S, ListenerRequest<SystemAudioListenerEvent>) -> (S, Result<L, Error>),

    requires
        call_ensures(
            system_audio_listeners::<S, L, F>,
            (aggregate_device_id, tap_id, state, register),
            (end, result),
        ),
    ensures
        ({
            let (states, outcomes) = run;
            let plan = plan::aggregate_plan(aggregate_device_id) + plan::system_audio_global_plan()
                + plan::tap_plan(tap_id);
            &&& states.len() == outcomes.len() + 1
            &&& outcomes.len() <= plan.len()
            &&& states[0] == state
            &&& states.last() == end
            &&& forall|i: int|
                0 <= i < outcomes.len() ==> call_ensures(
                    *register,
                    (states[i], plan[i].request),
                    (states[i + 1], #[trigger] outcomes[i]),
                )
            &&& result is Ok ==> {
                &&& outcomes.len() == 16
                &&& outcomes[0] is Ok && outcomes[1] is Ok && outcomes[11] is Ok
                &&& result->Ok_0@ == outcomes.filter(
                    |outcome: Result<L, Error>| outcome is Ok,
                ).map_values(|outcome: Result<L, Error>| outcome->Ok_0)
            }
            &&& result is Err ==> {
                &&& outcomes.len() == 1 || outcomes.len() == 2 || outcomes.len() == 12
                &&& outcomes.last() is Err
                &&& outcomes.last()->Err_0 == result->Err_0
            }
        }),
{
    let planned = plan::system_audio_plan(aggregate_device_id, tap_id);
    let (states, outcomes) = registration::law_what_attempting_a_plan_comes_to(
        *register,
        state,
        planned,
        end,
        registration::listed(result),
    );
    assert(planned[0].required && planned[1].required && planned[11].required);
    if result is Err {
        assert(planned[outcomes.len() - 1].required);
    }
    (states, outcomes)
}

} // verus!
