//! What holds of the controllers whatever the inputs, proved from the
//! contracts of the functions involved.
use crate::on_off::OnOff;
use crate::{settled, BangBang, BangBangError, BangBangState};
use vstd::prelude::*;

verus! {

/// Whether `run` and `results` record consecutive toggles of one on/off
/// controller: `run[0]` is the controller at the start, and the toggle
/// numbered `i` finds it as `run[i]`, answers `results[i]` and leaves it as
/// `run[i + 1]`.
pub open spec fn toggles<'a>(
    run: Seq<OnOff<'a>>,
    results: Seq<Result<(), BangBangError>>,
) -> bool {
    &&& run.len() == results.len() + 1
    &&& forall|i: int|
        0 <= i < results.len() ==> run[i].set_yields(
            run[i].current().flipped(),
            #[trigger] results[i],
            &run[i + 1],
        )
}

/// Toggling twice leads back: each state is the opposite of its opposite, and
/// no state is its own opposite.
pub proof fn lemma_flipped_twice(state: BangBangState)
    ensures
        state.flipped() != state,
        state.flipped().flipped() == state,
{
}

/// A boolean and the state that stands for it tell the same: `B` stands for
/// `true` and `A` for `false`, and going there and back changes nothing.
pub proof fn lemma_bool_round_trip(value: bool, state: BangBangState)
    ensures
        BangBangState::of_bool(value).as_bool() == value,
        BangBangState::of_bool(state.as_bool()) == state,
        BangBangState::of_bool(!value) == BangBangState::of_bool(value).flipped(),
{
}

/// A controller that cannot be refused stays so, whatever is asked of it.
pub proof fn lemma_unobstructed_is_kept<'a>(
    before: OnOff<'a>,
    target: BangBangState,
    result: Result<(), BangBangError>,
    after: OnOff<'a>,
)
    requires
        before.set_yields(target, result, &after),
        before.unobstructed(),
    ensures
        result is Ok,
        after.current() == target,
        after.unobstructed(),
{
    assert(before.admits(target, result));
    assert forall|other: BangBangState, outcome: Result<(), BangBangError>| #[trigger]
        after.admits(other, outcome) implies outcome is Ok by {
        if other == target {
            assert(before.admits(target, outcome));
        } else {
            assert(other == target.flipped());
            assert(before.admits(other, outcome));
        }
    }
}

/// A controller that cannot be refused, because it has no handlers or because
/// none of them can fail, alternates: every toggle succeeds, and after `n`
/// toggles the controller is in the state it started in where `n` is even, and
/// in the opposite state where `n` is odd.
pub proof fn lemma_unobstructed_toggles_alternate<'a>(
    run: Seq<OnOff<'a>>,
    results: Seq<Result<(), BangBangError>>,
)
    requires
        toggles(run, results),
        run[0].unobstructed(),
    ensures
        forall|i: int| 0 <= i < results.len() ==> (#[trigger] results[i]) is Ok,
        forall|n: int|
            0 <= n < run.len() ==> (#[trigger] run[n]).current() == if n % 2 == 0 {
                run[0].current()
            } else {
                run[0].current().flipped()
            },
        forall|n: int| 0 <= n < run.len() ==> (#[trigger] run[n]).unobstructed(),
    decreases results.len(),
{
    if results.len() > 0 {
        let last = results.len() - 1;
        let shorter_run = run.drop_last();
        let shorter_results = results.drop_last();
        assert forall|i: int| 0 <= i < shorter_results.len() implies shorter_run[i].set_yields(
            shorter_run[i].current().flipped(),
            #[trigger] shorter_results[i],
            &shorter_run[i + 1],
        ) by {
            assert(run[i].set_yields(run[i].current().flipped(), results[i], &run[i + 1]));
        }
        lemma_unobstructed_toggles_alternate(shorter_run, shorter_results);
        assert(shorter_run[last] == run[last]);
        assert(run[last].set_yields(run[last].current().flipped(), results[last], &run[last + 1]));
        lemma_unobstructed_is_kept(
            run[last],
            run[last].current().flipped(),
            results[last],
            run[last + 1],
        );
        assert forall|i: int| 0 <= i < results.len() implies (#[trigger] results[i]) is Ok by {
            if i < last {
                assert(shorter_results[i] is Ok);
            }
        }
        assert forall|n: int| 0 <= n < run.len() implies (#[trigger] run[n]).current() == if n % 2
            == 0 {
            run[0].current()
        } else {
            run[0].current().flipped()
        } by {
            if n <= last {
                assert(shorter_run[n] == run[n]);
            }
        }
        assert forall|n: int| 0 <= n < run.len() implies (#[trigger] run[n]).unobstructed() by {
            if n <= last {
                assert(shorter_run[n] == run[n]);
            }
        }
    }
}

/// Toggling a controller neither registers nor removes a handler, and a
/// controller without handlers calls none.
pub proof fn lemma_ungated_stays_ungated<'a>(
    run: Seq<OnOff<'a>>,
    results: Seq<Result<(), BangBangError>>,
)
    requires
        toggles(run, results),
        !run[0].gated(BangBangState::A),
        !run[0].gated(BangBangState::B),
    ensures
        forall|n: int|
            0 <= n < run.len() ==> !(#[trigger] run[n]).gated(BangBangState::A)
                && !run[n].gated(BangBangState::B),
        forall|n: int|
            0 <= n < run.len() ==> (#[trigger] run[n]).invocations() == run[0].invocations(),
    decreases results.len(),
{
    if results.len() > 0 {
        let last = results.len() - 1;
        let shorter_run = run.drop_last();
        let shorter_results = results.drop_last();
        assert forall|i: int| 0 <= i < shorter_results.len() implies shorter_run[i].set_yields(
            shorter_run[i].current().flipped(),
            #[trigger] shorter_results[i],
            &shorter_run[i + 1],
        ) by {
            assert(run[i].set_yields(run[i].current().flipped(), results[i], &run[i + 1]));
        }
        lemma_ungated_stays_ungated(shorter_run, shorter_results);
        assert(shorter_run[last] == run[last]);
        assert(run[last].set_yields(run[last].current().flipped(), results[last], &run[last + 1]));
        lemma_flipped_twice(run[last].current());
        assert forall|n: int| 0 <= n < run.len() implies !(#[trigger] run[n]).gated(
            BangBangState::A,
        ) && !run[n].gated(BangBangState::B) by {
            if n <= last {
                assert(shorter_run[n] == run[n]);
            }
        }
        assert forall|n: int| 0 <= n < run.len() implies (#[trigger] run[n]).invocations()
            == run[0].invocations() by {
            if n <= last {
                assert(shorter_run[n] == run[n]);
            }
        }
    }
}

/// A controller without handlers never refuses a toggle and alternates: after
/// `n` toggles it is in the state it started in where `n` is even, and in the
/// opposite state where `n` is odd. No handler is registered or called on the
/// way.
pub proof fn lemma_ungated_toggles_alternate<'a>(
    run: Seq<OnOff<'a>>,
    results: Seq<Result<(), BangBangError>>,
)
    requires
        toggles(run, results),
        !run[0].gated(BangBangState::A),
        !run[0].gated(BangBangState::B),
    ensures
        forall|i: int| 0 <= i < results.len() ==> (#[trigger] results[i]) is Ok,
        forall|n: int|
            0 <= n < run.len() ==> (#[trigger] run[n]).current() == if n % 2 == 0 {
                run[0].current()
            } else {
                run[0].current().flipped()
            },
        forall|n: int|
            0 <= n < run.len() ==> (#[trigger] run[n]).invocations() == run[0].invocations(),
{
    assert(run[0].unobstructed()) by {
        assert forall|target: BangBangState, outcome: Result<(), BangBangError>| #[trigger]
            run[0].admits(target, outcome) implies outcome is Ok by {
            assert(!run[0].gated(target));
        }
    }
    lemma_unobstructed_toggles_alternate(run, results);
    lemma_ungated_stays_ungated(run, results);
}

/// A request is refused only by a handler, the refusal is an answer of that
/// handler, and the controller is then in the state it was in.
pub proof fn lemma_refusal_changes_nothing<'a>(
    before: OnOff<'a>,
    target: BangBangState,
    result: Result<(), BangBangError>,
    after: OnOff<'a>,
)
    requires
        before.set_yields(target, result, &after),
        result is Err,
    ensures
        before.handler(target) matches Some(h) && h.admits(result),
        after.current() == before.current(),
        after.is_on() == before.is_on(),
        after.is_off() == before.is_off(),
{
}

/// Where the handler for the state asked for can only fail with `error`, the
/// request fails with `error` and the controller is in the state it was in.
pub proof fn lemma_handler_failure_is_returned<'a>(
    before: OnOff<'a>,
    target: BangBangState,
    error: BangBangError,
    result: Result<(), BangBangError>,
    after: OnOff<'a>,
)
    requires
        before.set_yields(target, result, &after),
        before.handler(target) matches Some(h) && forall|outcome: Result<(), BangBangError>|
            h.admits(outcome) ==> outcome == Err::<(), BangBangError>(error),
    ensures
        result == Err::<(), BangBangError>(error),
        after.current() == before.current(),
{
}

/// Where no handler is registered for the state asked for, or the one that is
/// can only succeed, the request succeeds and the controller is in that state.
pub proof fn lemma_permitted_request_succeeds<'a>(
    before: OnOff<'a>,
    target: BangBangState,
    result: Result<(), BangBangError>,
    after: OnOff<'a>,
)
    requires
        before.set_yields(target, result, &after),
        before.handler(target) matches Some(h) ==> forall|outcome: Result<(), BangBangError>|
            h.admits(outcome) ==> outcome is Ok,
    ensures
        result is Ok,
        after.current() == target,
        after.is_on() == (target == BangBangState::B),
{
}

/// A request that succeeded left the controller in the state asked for,
/// whether or not that is the state it was in.
pub proof fn lemma_success_reaches_target<'a>(
    before: OnOff<'a>,
    target: BangBangState,
    result: Result<(), BangBangError>,
    after: OnOff<'a>,
)
    requires
        before.set_yields(target, result, &after),
        result is Ok,
    ensures
        after.current() == target,
        after.current() == settled(before.current(), target, result),
{
}

/// Reading the state is pure: whatever two calls of `state` on one controller
/// return, with no transition in between, is the same state, the one the
/// controller is in.
pub proof fn lemma_state_reads_agree<C: BangBang>(
    controller: &C,
    first: BangBangState,
    second: BangBangState,
)
    requires
        call_ensures(C::state, (controller,), first),
        call_ensures(C::state, (controller,), second),
    ensures
        first == second,
        first == controller.current(),
{
}

/// Whatever `is_on` and `is_off` return for one controller, one of the two
/// is true and the other false.
pub proof fn lemma_on_off_reads_complementary<'a>(controller: &OnOff<'a>, on: bool, off: bool)
    requires
        call_ensures(OnOff::is_on, (controller,), on),
        call_ensures(OnOff::is_off, (controller,), off),
    ensures
        on != off,
        on == (controller.current() == BangBangState::B),
{
}

/// A controller is on or off, never both and never neither.
pub proof fn lemma_on_xor_off<'a>(controller: OnOff<'a>)
    ensures
        controller.is_on() != controller.is_off(),
        controller.is_on() <==> controller.current() == BangBangState::B,
        controller.is_off() <==> controller.current() == BangBangState::A,
{
}

/// One request calls one handler at most: the handler of the state asked for
/// is called once where it is registered, and no other call is made.
pub proof fn lemma_one_call_per_request<'a>(
    before: OnOff<'a>,
    target: BangBangState,
    result: Result<(), BangBangError>,
    after: OnOff<'a>,
)
    requires
        before.set_yields(target, result, &after),
    ensures
        before.gated(target) ==> after.invocations() == before.invocations().push(target),
        !before.gated(target) ==> after.invocations() == before.invocations(),
        after.invocations().len() == before.invocations().len() + if before.gated(target) {
            1int
        } else {
            0int
        },
{
}

} // verus!
