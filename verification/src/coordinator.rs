//! The run coordinator: what happens on each call from the event loop.
//!
//! The coordinator is a state machine. It is fed events, a tick of the loop
//! or the outcome of the test that it asked for, and answers each with an
//! [`Action`]: text to print, and whether to call a test next or to return
//! to the loop. The embedding program does what the action says and comes
//! back with the next event. Calling the tests and printing are left to it;
//! every decision is made here.
//!
//! [`Model`] is the state as the contracts see it, and [`Model::next`] and
//! its companions say what each event does to it.

use crate::clock::elapsed_text;
use crate::clock::now;
use crate::control::exit_request;
use crate::outcome::Failure;
use crate::outcome::FailureView;
use crate::outcome::Outcome;
use crate::outcome::OutcomeView;
use crate::outcome::failure_views;
use crate::paint::Palette;
use crate::registry::WinitBasedTest;
use crate::registry::names_of;
use crate::registry::test_names;
use crate::registry::texts;
use crate::report::announcement;
use crate::report::announcement_text;
use crate::report::banner;
use crate::report::banner_text;
use crate::report::closing;
use crate::report::closing_text;
use crate::report::unsupported_warning;
use crate::report::unsupported_warning_text;
use crate::report::verdict;
use crate::report::verdict_text;
use vstd::prelude::*;
use web_time::Instant;
use winit::event_loop::ControlFlow;

verus! {

/// The exit code of a run in which `failed` tests failed.
pub open spec fn exit_code_for(failed: nat) -> i32 {
    if failed == 0 {
        0
    } else {
        1
    }
}

/// The state of a run, as the contracts see it.
pub struct Model {
    /// The names of the registered tests, in registration order.
    pub names: Seq<Seq<char>>,
    /// How many tests have returned without a panic.
    pub passed: nat,
    /// The tests that panicked, in the order in which they ran.
    pub failures: Seq<FailureView>,
    /// Whether the first tick has been seen.
    pub has_run: bool,
    /// Whether every test has run and the report has been made.
    pub completed: bool,
    /// The code that the loop is told to exit with. It is 0 until the run
    /// is completed.
    pub exit_code: i32,
    /// Whether the report is coloured.
    pub palette: Palette,
}

/// What the coordinator is told.
pub enum EventView {
    Tick,
    Outcome(OutcomeView),
}

impl Model {
    /// The state before the first tick.
    pub open spec fn fresh(names: Seq<Seq<char>>, palette: Palette) -> Model {
        Model {
            names,
            passed: 0,
            failures: Seq::empty(),
            has_run: false,
            completed: false,
            exit_code: 0,
            palette,
        }
    }

    /// How many tests have come to an end. The test that is called next, if
    /// there is one, has this index.
    pub open spec fn cursor(self) -> nat {
        self.passed + self.failures.len()
    }

    /// Whether a test has been asked for and its outcome is still to come.
    pub open spec fn awaiting(self) -> bool {
        self.has_run && !self.completed && self.cursor() < self.names.len()
    }

    /// What holds of every state that a run goes through.
    pub open spec fn wf(self) -> bool {
        &&& self.cursor() <= self.names.len()
        &&& !self.has_run ==> self.cursor() == 0 && !self.completed
        &&& self.has_run && !self.completed ==> self.cursor() < self.names.len()
        &&& self.completed ==> self.has_run && self.cursor() == self.names.len()
        &&& self.exit_code == if self.completed {
            exit_code_for(self.failures.len())
        } else {
            0
        }
    }

    /// Whether `event` moves the run on: the first tick does, and so does
    /// an outcome that is waited for. A later tick only repeats the request
    /// to exit, and an outcome that nobody asked for is dropped.
    pub open spec fn moved_by(self, event: EventView) -> bool {
        match event {
            EventView::Tick => !self.has_run,
            EventView::Outcome(_) => self.awaiting(),
        }
    }

    /// The state with `event` taken in, before it is decided what comes
    /// next.
    pub open spec fn absorbed(self, event: EventView) -> Model {
        match event {
            EventView::Tick => Model { has_run: true, ..self },
            EventView::Outcome(OutcomeView::Passed) => Model { passed: self.passed + 1, ..self },
            EventView::Outcome(OutcomeView::Panicked(payload)) => Model {
                failures: self.failures.push(
                    FailureView { name: self.names[self.cursor() as int], payload },
                ),
                ..self
            },
        }
    }

    /// Whether `event` ends the run: it moves the run on and no test is
    /// left.
    pub open spec fn completed_by(self, event: EventView) -> bool {
        self.moved_by(event) && self.absorbed(event).cursor() >= self.names.len()
    }

    /// The state after `event`.
    pub open spec fn next(self, event: EventView) -> Model {
        if !self.moved_by(event) {
            self
        } else if self.completed_by(event) {
            let taken = self.absorbed(event);
            Model {
                completed: true,
                exit_code: exit_code_for(taken.failures.len()),
                ..taken
            }
        } else {
            self.absorbed(event)
        }
    }

    /// The index of the test that is to be called after `event`, if one is.
    pub open spec fn invoked_by(self, event: EventView) -> Option<nat> {
        if self.moved_by(event) && !self.completed_by(event) {
            Some(self.absorbed(event).cursor())
        } else {
            None
        }
    }

    /// The code that the loop is told to exit with on `event`, if it is told
    /// to exit: when the run ends, and on every tick after the first.
    pub open spec fn exit_told_by(self, event: EventView) -> Option<i32> {
        if self.completed_by(event) {
            Some(self.next(event).exit_code)
        } else if event is Tick && self.has_run {
            Some(self.exit_code)
        } else {
            None
        }
    }

    /// What is to be printed on `event`. `elapsed` is the time that the run
    /// took, as it is shown at its end.
    pub open spec fn said_on(self, event: EventView, elapsed: Seq<char>) -> Seq<char> {
        if !self.moved_by(event) {
            Seq::empty()
        } else {
            let taken = self.absorbed(event);
            let heard = match event {
                EventView::Tick => Seq::empty(),
                EventView::Outcome(outcome) => verdict(outcome is Passed, self.palette),
            };
            if self.completed_by(event) {
                heard + closing(taken.passed, taken.failures, elapsed, self.palette)
            } else {
                heard + announcement(self.names[taken.cursor() as int])
            }
        }
    }
}

/// What the coordinator is told.
pub enum Event {
    /// The event loop has called.
    Tick,
    /// The test that was asked for has come to an end.
    Outcome(Outcome),
}

impl View for Event {
    type V = EventView;

    open spec fn view(&self) -> EventView {
        match self {
            Event::Tick => EventView::Tick,
            Event::Outcome(outcome) => EventView::Outcome(outcome@),
        }
    }
}

/// What the embedding program does after it has printed an action's text.
#[derive(Clone, Copy, Debug, PartialEq, Eq)]
pub enum Step {
    /// Call the test with this index, catch its panic, and come back with
    /// the outcome.
    Invoke(usize),
    /// Return to the event loop.
    Return,
}

impl View for Step {
    type V = Option<nat>;

    open spec fn view(&self) -> Option<nat> {
        match self {
            Step::Invoke(index) => Some(*index as nat),
            Step::Return => None,
        }
    }
}

/// The coordinator's answer to an event.
pub struct Action {
    /// What to print, as it is, before anything else is done.
    pub text: String,
    /// What to do then.
    pub step: Step,
}

/// The state of a run.
pub struct State {
    names: Vec<&'static str>,
    passed: usize,
    panics: Vec<Failure>,
    start: Instant,
    run: bool,
    completed: bool,
    code: i32,
    palette: Palette,
}

impl View for State {
    type V = Model;

    closed spec fn view(&self) -> Model {
        Model {
            names: texts(self.names@),
            passed: self.passed as nat,
            failures: failure_views(self.panics@),
            has_run: self.run,
            completed: self.completed,
            exit_code: self.code,
            palette: self.palette,
        }
    }
}

impl State {
    /// What holds of the fields at every moment, also in the middle of an
    /// update: no more tests are counted than are registered, nothing is
    /// counted before the first tick, and a completed run has counted
    /// every test and fixed its exit code.
    #[verifier::type_invariant]
    spec fn inv(self) -> bool {
        &&& self.passed + self.panics@.len() <= self.names@.len()
        &&& !self.run ==> self.passed == 0 && self.panics@.len() == 0 && !self.completed
        &&& self.completed ==> {
            &&& self.run
            &&& self.passed + self.panics@.len() == self.names@.len()
            &&& self.code == exit_code_for(self.panics@.len())
        }
    }

    /// The state before the first tick of a run through tests with these
    /// `names`. The clock of the run starts here.
    pub fn new(names: Vec<&'static str>, palette: Palette) -> (state: State)
        ensures
            state@.wf(),
            state@ == Model::fresh(texts(names@), palette),
    {
        let state = State {
            names,
            passed: 0,
            panics: Vec::new(),
            start: now(),
            run: false,
            completed: false,
            code: 0,
            palette,
        };
        assert(failure_views(state.panics@) =~= Seq::empty());
        state
    }

    /// How many tests are registered.
    pub fn test_count(&self) -> (count: usize)
        ensures
            count == self@.names.len(),
    {
        self.names.len()
    }

    /// How many tests have returned without a panic.
    pub fn passed(&self) -> (passed: usize)
        ensures
            passed == self@.passed,
    {
        self.passed
    }

    /// The tests that panicked, in the order in which they ran.
    pub fn failures(&self) -> (failures: &Vec<Failure>)
        ensures
            failure_views(failures@) == self@.failures,
    {
        &self.panics
    }

    /// Whether the first tick has been seen.
    pub fn has_run(&self) -> (has_run: bool)
        ensures
            has_run == self@.has_run,
    {
        self.run
    }

    /// Whether every test has run and the report has been made.
    pub fn is_completed(&self) -> (completed: bool)
        ensures
            completed == self@.completed,
    {
        self.completed
    }

    /// The code that the loop is told to exit with: 0 until the run is
    /// completed, and then 0 if and only if no test failed.
    pub fn exit_code(&self) -> (code: i32)
        ensures
            code == self@.exit_code,
    {
        self.code
    }

    /// The lengths of the view are those of the vectors behind it.
    proof fn lemma_lengths(&self)
        ensures
            self@.names.len() == self.names@.len(),
            self@.failures.len() == self.panics@.len(),
            self@.cursor() == self.passed + self.panics@.len(),
    {
    }

    /// Whether `event` ends the run.
    pub fn completed_by(&self, event: &Event) -> (ends: bool)
        ensures
            ends == self@.completed_by(event@),
    {
        proof {
            use_type_invariant(self);
            self.lemma_lengths();
        }
        let count = self.names.len();
        let done = self.passed + self.panics.len();
        match event {
            Event::Tick => !self.run && count == 0,
            Event::Outcome(_) => self.run && !self.completed && count - done == 1,
        }
    }
}

/// Answers `event`, given the time that the run has taken so far as it is
/// to be shown.
///
/// The first tick starts the run: the answer asks for the first test, or
/// ends the run at once if there is none. An outcome that is waited for is
/// counted, and the answer asks for the next test or ends the run. Ending
/// the run means making the report, fixing the exit code and telling the
/// loop to exit with it. Every later tick tells the loop again, with the
/// same code, and does nothing else.
pub fn react(state: &mut State, event: Event, elapsed: &str, control_flow: &mut ControlFlow) -> (action:
    Action)
    ensures
        final(state)@ == old(state)@.next(event@),
        old(state)@.wf() ==> final(state)@.wf(),
        action.step@ == old(state)@.invoked_by(event@),
        action.text@ == old(state)@.said_on(event@, elapsed@),
        match old(state)@.exit_told_by(event@) {
            Some(code) => exit_request(*final(control_flow)) == Some(code),
            None => *final(control_flow) == *old(control_flow),
        },
{
    proof {
        use_type_invariant(&*state);
        state.lemma_lengths();
    }
    let count = state.names.len();
    let mut text = String::new();
    match event {
        Event::Tick => {
            if state.run {
                control_flow.set_exit_with_code(state.code);
                return Action { text, step: Step::Return };
            }
            state.run = true;
        },
        Event::Outcome(outcome) => {
            let index = state.passed + state.panics.len();
            if !state.run || state.completed || index >= count {
                return Action { text, step: Step::Return };
            }
            match outcome {
                Outcome::Passed => {
                    text = verdict_text(true, state.palette);
                    state.passed = state.passed + 1;
                },
                Outcome::Panicked(payload) => {
                    text = verdict_text(false, state.palette);
                    let ghost before = failure_views(state.panics@);
                    let failure = Failure { name: state.names[index], payload };
                    // The list leaves the state for the push and comes back
                    // whole, so that the state never holds it half-written.
                    let mut panics: Vec<Failure> = Vec::new();
                    core::mem::swap(&mut state.panics, &mut panics);
                    panics.push(failure);
                    core::mem::swap(&mut state.panics, &mut panics);
                    assert(failure_views(state.panics@) =~= before.push(failure@));
                },
            }
        },
    }
    let index = state.passed + state.panics.len();
    if index < count {
        let call = announcement_text(state.names[index]);
        text.append(call.as_str());
        Action { text, step: Step::Invoke(index) }
    } else {
        let report = closing_text(state.passed, &state.panics, elapsed, state.palette);
        text.append(report.as_str());
        state.code = if state.panics.len() == 0 {
            0
        } else {
            1
        };
        state.completed = true;
        control_flow.set_exit_with_code(state.code);
        Action { text, step: Step::Return }
    }
}

/// Answers `event`, reading the clock where the run ends.
///
/// This is [`react`] with the time taken from the clock of the run. The
/// time is only read, and only appears in the text, where `event` ends the
/// run.
pub fn run_internal(state: &mut State, event: Event, control_flow: &mut ControlFlow) -> (action:
    Action)
    ensures
        final(state)@ == old(state)@.next(event@),
        old(state)@.wf() ==> final(state)@.wf(),
        action.step@ == old(state)@.invoked_by(event@),
        exists|elapsed: Seq<char>| action.text@ == old(state)@.said_on(event@, elapsed),
        !old(state)@.completed_by(event@) ==> action.text@ == old(state)@.said_on(
            event@,
            Seq::empty(),
        ),
        match old(state)@.exit_told_by(event@) {
            Some(code) => exit_request(*final(control_flow)) == Some(code),
            None => *final(control_flow) == *old(control_flow),
        },
{
    let elapsed = if state.completed_by(&event) {
        elapsed_text(&state.start)
    } else {
        String::new()
    };
    react(state, event, elapsed.as_str(), control_flow)
}

/// How a run starts.
pub enum Launch {
    /// Panics cannot be caught here, so no test is run. The warning is to
    /// be printed to the error stream; no event loop is to be built.
    Unsupported { warning: String },
    /// The run can start. The banner is to be printed, and `state` is to be
    /// fed the ticks of the event loop.
    Ready { banner: String, state: State },
}

/// Prepares a run through `tests`.
///
/// Under Miri a panic cannot be caught and carried on from, so there the
/// run is called off before anything is counted. Everywhere else the state
/// of the run is set up and its clock is started.
pub fn run<F>(tests: &[WinitBasedTest<F>], under_miri: bool, palette: Palette) -> (launch: Launch)
    ensures
        match launch {
            Launch::Unsupported { warning } => under_miri && warning@ == unsupported_warning(
                palette,
            ),
            Launch::Ready { banner: line, state } => {
                &&& !under_miri
                &&& line@ == banner(tests@.len())
                &&& state@.wf()
                &&& state@ == Model::fresh(names_of(tests@), palette)
            },
        },
{
    if under_miri {
        return Launch::Unsupported { warning: unsupported_warning_text(palette) };
    }
    let names = test_names(tests);
    let line = banner_text(tests.len());
    Launch::Ready { banner: line, state: State::new(names, palette) }
}

} // verus!
