//! What holds of every run.
//!
//! The statements here are about [`Model`], the state of the coordinator
//! as its contracts see it, under any sequence of events.

use crate::coordinator::EventView;
use crate::coordinator::Model;
use crate::coordinator::exit_code_for;
use crate::outcome::FailureView;
use crate::outcome::OutcomeView;
use crate::paint::Palette;
use crate::report::announcement;
use crate::report::closing;
use crate::report::verdict;
use vstd::prelude::*;

verus! {

/// The state that `events`, taken one after the other, lead to from
/// `start`.
pub open spec fn state_after(start: Model, events: Seq<EventView>) -> Model
    decreases events.len(),
{
    if events.len() == 0 {
        start
    } else {
        state_after(start, events.drop_last()).next(events.last())
    }
}

/// The indices of the tests that are asked for while `events` are taken one
/// after the other from `start`, in the order in which they are asked for.
pub open spec fn invocations(start: Model, events: Seq<EventView>) -> Seq<nat>
    decreases events.len(),
{
    if events.len() == 0 {
        Seq::empty()
    } else {
        let earlier = invocations(start, events.drop_last());
        match state_after(start, events.drop_last()).invoked_by(events.last()) {
            Some(index) => earlier.push(index),
            None => earlier,
        }
    }
}

/// Everything that is printed while `events` are taken one after the other
/// from `start`. `elapsed` is the time that the run took, as it is shown at
/// its end.
pub open spec fn transcript(start: Model, events: Seq<EventView>, elapsed: Seq<char>) -> Seq<char>
    decreases events.len(),
{
    if events.len() == 0 {
        Seq::empty()
    } else {
        transcript(start, events.drop_last(), elapsed) + state_after(
            start,
            events.drop_last(),
        ).said_on(events.last(), elapsed)
    }
}

/// The lines of the tests that `outcomes` came from: for each test its
/// announcement and its verdict, in the order of the tests.
pub open spec fn test_lines(names: Seq<Seq<char>>, outcomes: Seq<OutcomeView>, palette: Palette) -> Seq<
    char,
>
    decreases outcomes.len(),
{
    if outcomes.len() == 0 {
        Seq::empty()
    } else {
        test_lines(names, outcomes.drop_last(), palette) + announcement(names[outcomes.len() - 1])
            + verdict(outcomes.last() is Passed, palette)
    }
}

/// How many tests have been asked for by the time a run is in `state`.
pub open spec fn dispatched(state: Model) -> nat {
    if !state.has_run {
        0
    } else if state.completed {
        state.names.len()
    } else {
        state.cursor() + 1
    }
}

/// The events of a run in which the embedding program keeps to its part:
/// one tick, and then the outcome of each test as it is asked for.
pub open spec fn pass_events(outcomes: Seq<OutcomeView>) -> Seq<EventView> {
    Seq::new(
        outcomes.len() + 1,
        |i: int|
            if i == 0 {
                EventView::Tick
            } else {
                EventView::Outcome(outcomes[i - 1])
            },
    )
}

/// How many of `outcomes` are passes.
pub open spec fn count_passed(outcomes: Seq<OutcomeView>) -> nat
    decreases outcomes.len(),
{
    if outcomes.len() == 0 {
        0
    } else if outcomes.last() is Passed {
        count_passed(outcomes.drop_last()) + 1
    } else {
        count_passed(outcomes.drop_last())
    }
}

/// The failures among `outcomes`, each under the name of the test at its
/// place in `names`, in the order of the tests.
pub open spec fn failures_among(names: Seq<Seq<char>>, outcomes: Seq<OutcomeView>) -> Seq<
    FailureView,
>
    decreases outcomes.len(),
{
    if outcomes.len() == 0 {
        Seq::empty()
    } else {
        let earlier = failures_among(names, outcomes.drop_last());
        match outcomes.last() {
            OutcomeView::Passed => earlier,
            OutcomeView::Panicked(payload) => earlier.push(
                FailureView { name: names[outcomes.len() - 1], payload },
            ),
        }
    }
}

/// No event leads out of the states that a run goes through, and none
/// changes the list of tests or the palette.
pub proof fn lemma_next_keeps_wf(state: Model, event: EventView)
    requires
        state.wf(),
    ensures
        state.next(event).wf(),
        state.next(event).names == state.names,
        state.next(event).palette == state.palette,
{
}

/// Once the run is completed, every test is counted exactly once: as
/// passed or as failed.
pub proof fn lemma_counts_add_up(state: Model)
    requires
        state.wf(),
        state.completed,
    ensures
        state.passed + state.failures.len() == state.names.len(),
{
}

/// The exit code of a completed run is 0 if and only if no test failed, and
/// 1 if any did.
pub proof fn lemma_exit_code_tells_failure(state: Model)
    requires
        state.wf(),
        state.completed,
    ensures
        state.exit_code == 0 <==> state.failures.len() == 0,
        state.exit_code != 0 ==> state.exit_code == 1,
{
}

/// The event that completes a run tells the loop to exit with the code of
/// the state that it leads to.
pub proof fn lemma_completion_tells_exit(state: Model, event: EventView)
    requires
        state.wf(),
        state.completed_by(event),
    ensures
        state.next(event).completed,
        state.exit_told_by(event) == Some(state.next(event).exit_code),
        state.invoked_by(event) is None,
{
}

/// A tick after the run is completed asks for no test, prints nothing,
/// leaves the state as it is and tells the loop to exit with the code that
/// was fixed when the run ended.
pub proof fn lemma_tick_after_completion(state: Model, elapsed: Seq<char>)
    requires
        state.wf(),
        state.completed,
    ensures
        state.next(EventView::Tick) == state,
        state.invoked_by(EventView::Tick) is None,
        state.said_on(EventView::Tick, elapsed) == Seq::<char>::empty(),
        state.exit_told_by(EventView::Tick) == Some(state.exit_code),
{
}

/// Once the run is completed, no sequence of events, however long, changes
/// the state or asks for a test again.
pub proof fn lemma_completed_is_final(state: Model, events: Seq<EventView>)
    requires
        state.wf(),
        state.completed,
    ensures
        state_after(state, events) == state,
        invocations(state, events) == Seq::<nat>::empty(),
    decreases events.len(),
{
    if events.len() > 0 {
        lemma_completed_is_final(state, events.drop_last());
    }
}

/// Every tick after the run is completed, whatever came between, tells the
/// loop to exit with the code that was fixed when the run ended.
pub proof fn lemma_ticks_repeat_exit(state: Model, events: Seq<EventView>)
    requires
        state.wf(),
        state.completed,
    ensures
        forall|i: int|
            0 <= i < events.len() && events[i] is Tick ==> #[trigger] state_after(
                state,
                events.take(i),
            ).exit_told_by(events[i]) == Some(state.exit_code),
{
    assert forall|i: int| 0 <= i < events.len() && events[i] is Tick implies #[trigger] state_after(
        state,
        events.take(i),
    ).exit_told_by(events[i]) == Some(state.exit_code) by {
        lemma_completed_is_final(state, events.take(i));
    }
}

/// Whatever events come in whatever order, the tests are asked for in
/// registration order, starting with the first and without a gap or a
/// repetition: the tests asked for from `start` on are those with the
/// indices from `dispatched(start)` up to `dispatched` of the state
/// reached.
pub proof fn lemma_invocations_from(start: Model, events: Seq<EventView>)
    requires
        start.wf(),
    ensures
        state_after(start, events).wf(),
        state_after(start, events).names == start.names,
        dispatched(start) <= dispatched(state_after(start, events)),
        invocations(start, events) == Seq::new(
            (dispatched(state_after(start, events)) - dispatched(start)) as nat,
            |i: int| (dispatched(start) + i) as nat,
        ),
    decreases events.len(),
{
    if events.len() > 0 {
        let before = state_after(start, events.drop_last());
        lemma_invocations_from(start, events.drop_last());
        lemma_next_keeps_wf(before, events.last());
    }
}

/// Each test is asked for exactly once, in registration order: from the
/// state before the first tick, under any sequence of events, the tests
/// asked for are the first `dispatched` ones in order, and once the run is
/// completed these are all of them.
pub proof fn lemma_each_test_once_in_order(
    names: Seq<Seq<char>>,
    palette: Palette,
    events: Seq<EventView>,
)
    ensures
        ({
            let end = state_after(Model::fresh(names, palette), events);
            let asked = invocations(Model::fresh(names, palette), events);
            &&& asked == Seq::new(dispatched(end), |i: int| i as nat)
            &&& asked.len() <= names.len()
            &&& end.completed ==> asked.len() == names.len()
        }),
{
    lemma_invocations_from(Model::fresh(names, palette), events);
}

/// The failures among some outcomes and the passes among them are all of
/// them.
pub proof fn lemma_outcomes_split(names: Seq<Seq<char>>, outcomes: Seq<OutcomeView>)
    ensures
        count_passed(outcomes) + failures_among(names, outcomes).len() == outcomes.len(),
    decreases outcomes.len(),
{
    if outcomes.len() > 0 {
        lemma_outcomes_split(names, outcomes.drop_last());
    }
}

/// Where the embedding program keeps to its part, the state after the
/// first `done` outcomes holds exactly these outcomes: the passes counted,
/// the failures in order under the names of their tests. The run is
/// completed when the last outcome is in, and not before.
pub proof fn lemma_pass_prefix(
    names: Seq<Seq<char>>,
    palette: Palette,
    outcomes: Seq<OutcomeView>,
    done: nat,
)
    requires
        outcomes.len() == names.len(),
        done <= outcomes.len(),
    ensures
        ({
            let seen = outcomes.take(done as int);
            let state = state_after(Model::fresh(names, palette), pass_events(seen));
            &&& state.wf()
            &&& state.names == names
            &&& state.palette == palette
            &&& state.has_run
            &&& state.completed == (done == names.len())
            &&& state.passed == count_passed(seen)
            &&& state.failures == failures_among(names, seen)
        }),
    decreases done,
{
    let start = Model::fresh(names, palette);
    let seen = outcomes.take(done as int);
    let events = pass_events(seen);
    if done == 0 {
        assert(state_after(start, events.drop_last()) == start);
    } else {
        let earlier = outcomes.take(done - 1);
        lemma_pass_prefix(names, palette, outcomes, (done - 1) as nat);
        lemma_outcomes_split(names, earlier);
        assert(events.drop_last() =~= pass_events(earlier));
        assert(seen.drop_last() =~= earlier);
        lemma_outcomes_split(names, seen);
    }
}

/// Where the embedding program keeps to its part, what has been printed
/// after the first `done` outcomes is the lines of the tests that are over
/// and then either the announcement of the next test or, after the last,
/// the closing part of the report.
pub proof fn lemma_transcript_prefix(
    names: Seq<Seq<char>>,
    palette: Palette,
    outcomes: Seq<OutcomeView>,
    elapsed: Seq<char>,
    done: nat,
)
    requires
        outcomes.len() == names.len(),
        done <= outcomes.len(),
    ensures
        ({
            let seen = outcomes.take(done as int);
            let printed = transcript(Model::fresh(names, palette), pass_events(seen), elapsed);
            if done < names.len() {
                printed == test_lines(names, seen, palette) + announcement(names[done as int])
            } else {
                printed == test_lines(names, seen, palette) + closing(
                    count_passed(seen),
                    failures_among(names, seen),
                    elapsed,
                    palette,
                )
            }
        }),
    decreases done,
{
    let start = Model::fresh(names, palette);
    let seen = outcomes.take(done as int);
    let events = pass_events(seen);
    if done == 0 {
        assert(events.last() == EventView::Tick);
        assert(transcript(start, events.drop_last(), elapsed) =~= Seq::<char>::empty());
        assert(test_lines(names, seen, palette) =~= Seq::<char>::empty());
    } else {
        let earlier = outcomes.take(done - 1);
        let before = state_after(start, pass_events(earlier));
        let last = outcomes[done - 1];
        lemma_transcript_prefix(names, palette, outcomes, elapsed, (done - 1) as nat);
        lemma_pass_prefix(names, palette, outcomes, (done - 1) as nat);
        lemma_pass_prefix(names, palette, outcomes, done);
        lemma_outcomes_split(names, earlier);
        assert(events.drop_last() =~= pass_events(earlier));
        assert(events.last() == EventView::Outcome(last));
        assert(seen.drop_last() =~= earlier);
        assert(seen.last() == last);
        let heard = verdict(last is Passed, palette);
        let lines = test_lines(names, earlier, palette);
        let call = announcement(names[done - 1]);
        assert(transcript(start, events, elapsed) == (lines + call) + before.said_on(
            EventView::Outcome(last),
            elapsed,
        ));
        if done < names.len() {
            let next = announcement(names[done as int]);
            assert((lines + call) + (heard + next) =~= (lines + call + heard) + next);
        } else {
            let end = closing(count_passed(seen), failures_among(names, seen), elapsed, palette);
            assert((lines + call) + (heard + end) =~= (lines + call + heard) + end);
        }
    }
}

/// The whole output of a run in which every test is called and its outcome
/// handed back: the line of each test in registration order, and then the
/// closing part of the report.
pub proof fn lemma_transcript_of_pass(
    names: Seq<Seq<char>>,
    palette: Palette,
    outcomes: Seq<OutcomeView>,
    elapsed: Seq<char>,
)
    requires
        outcomes.len() == names.len(),
    ensures
        transcript(Model::fresh(names, palette), pass_events(outcomes), elapsed) == test_lines(
            names,
            outcomes,
            palette,
        ) + closing(count_passed(outcomes), failures_among(names, outcomes), elapsed, palette),
{
    lemma_transcript_prefix(names, palette, outcomes, elapsed, outcomes.len());
    assert(outcomes.take(outcomes.len() as int) =~= outcomes);
}

/// A run in which every test is called and its outcome handed back ends
/// completed, with every pass counted, every failure recorded in order
/// under the name of its test, and the exit code that the failures call
/// for.
pub proof fn lemma_run_pass(names: Seq<Seq<char>>, palette: Palette, outcomes: Seq<OutcomeView>)
    requires
        outcomes.len() == names.len(),
    ensures
        ({
            let end = state_after(Model::fresh(names, palette), pass_events(outcomes));
            &&& end.completed
            &&& end.passed == count_passed(outcomes)
            &&& end.failures == failures_among(names, outcomes)
            &&& end.passed + end.failures.len() == names.len()
            &&& end.exit_code == exit_code_for(end.failures.len())
            &&& invocations(Model::fresh(names, palette), pass_events(outcomes)) == Seq::new(
                names.len(),
                |i: int| i as nat,
            )
        }),
{
    lemma_pass_prefix(names, palette, outcomes, outcomes.len());
    assert(outcomes.take(outcomes.len() as int) =~= outcomes);
    lemma_each_test_once_in_order(names, palette, pass_events(outcomes));
}

} // verus!
