use winit::event_loop::ControlFlow;
use winit_test::coordinator::{react, run, run_internal, Event, Launch, State, Step};
use winit_test::outcome::{FailurePayload, Outcome};
use winit_test::paint::Palette;
use winit_test::registry::{test_names, TestFunction, WinitBasedTest};

fn fresh(names: &[&'static str]) -> State {
    State::new(names.to_vec(), Palette::Plain)
}

fn failed(text: &'static str) -> Event {
    Event::Outcome(Outcome::Panicked(FailurePayload::StaticText(text)))
}

#[test]
fn new_state_has_counted_nothing() {
    let state = fresh(&["a", "b"]);
    assert_eq!(state.test_count(), 2);
    assert_eq!(state.passed(), 0);
    assert!(state.failures().is_empty());
    assert!(!state.has_run());
    assert!(!state.is_completed());
    assert_eq!(state.exit_code(), 0);
}

#[test]
fn first_tick_asks_for_the_first_test() {
    let mut state = fresh(&["a", "b"]);
    let mut control_flow = ControlFlow::Poll;
    let action = react(&mut state, Event::Tick, "never shown", &mut control_flow);
    assert_eq!(action.text, "test a ... ");
    assert_eq!(action.step, Step::Invoke(0));
    assert!(state.has_run());
    assert!(!state.is_completed());
    assert_eq!(control_flow, ControlFlow::Poll);
}

#[test]
fn every_test_is_asked_for_once_and_in_order() {
    let names = ["t0", "t1", "t2", "t3", "t4"];
    let mut state = fresh(&names);
    let mut control_flow = ControlFlow::Poll;
    let mut asked = Vec::new();
    let mut action = react(&mut state, Event::Tick, "1s", &mut control_flow);
    while let Step::Invoke(index) = action.step {
        asked.push(index);
        // Ticks in the middle of the run ask for nothing.
        let stray = react(&mut state, Event::Tick, "1s", &mut control_flow);
        assert_eq!(stray.step, Step::Return);
        assert_eq!(stray.text, "");
        action = react(&mut state, Event::Outcome(Outcome::Passed), "1s", &mut control_flow);
    }
    for _ in 0..3 {
        let later = react(&mut state, Event::Tick, "1s", &mut control_flow);
        assert_eq!(later.step, Step::Return);
        let later = react(&mut state, Event::Outcome(Outcome::Passed), "1s", &mut control_flow);
        assert_eq!(later.step, Step::Return);
    }
    assert_eq!(asked, vec![0, 1, 2, 3, 4]);
    assert_eq!(state.passed(), 5);
}

#[test]
fn counts_add_up_to_the_number_of_tests() {
    let names = ["a", "b", "c", "d", "e", "f", "g"];
    let mut state = fresh(&names);
    let mut control_flow = ControlFlow::Poll;
    let mut action = react(&mut state, Event::Tick, "1s", &mut control_flow);
    while let Step::Invoke(index) = action.step {
        let event = if index % 3 == 0 { failed("no") } else { Event::Outcome(Outcome::Passed) };
        action = react(&mut state, event, "1s", &mut control_flow);
    }
    assert!(state.is_completed());
    assert_eq!(state.passed(), 4);
    assert_eq!(state.failures().len(), 3);
    assert_eq!(state.passed() + state.failures().len(), names.len());
    let failed_names: Vec<&str> = state.failures().iter().map(|failure| failure.name).collect();
    assert_eq!(failed_names, vec!["a", "d", "g"]);
}

#[test]
fn exit_code_is_zero_only_without_failures() {
    for failing in [None, Some(0), Some(1), Some(2)] {
        let mut state = fresh(&["a", "b", "c"]);
        let mut control_flow = ControlFlow::Poll;
        let mut action = react(&mut state, Event::Tick, "1s", &mut control_flow);
        while let Step::Invoke(index) = action.step {
            let event =
                if Some(index) == failing { failed("no") } else { Event::Outcome(Outcome::Passed) };
            action = react(&mut state, event, "1s", &mut control_flow);
        }
        let expected = if failing.is_some() { 1 } else { 0 };
        assert_eq!(state.exit_code(), expected);
        assert_eq!(state.failures().is_empty(), state.exit_code() == 0);
        assert_eq!(control_flow, ControlFlow::ExitWithCode(expected));
    }
}

#[test]
fn ticks_after_completion_repeat_the_exit_code() {
    let mut state = fresh(&["a"]);
    let mut control_flow = ControlFlow::Poll;
    react(&mut state, Event::Tick, "1s", &mut control_flow);
    react(&mut state, failed("no"), "1s", &mut control_flow);
    assert!(state.is_completed());
    assert_eq!(control_flow, ControlFlow::ExitWithCode(1));
    for _ in 0..10 {
        // The loop may hand in a fresh value each time.
        let mut control_flow = ControlFlow::Wait;
        let action = run_internal(&mut state, Event::Tick, &mut control_flow);
        assert_eq!(action.text, "");
        assert_eq!(action.step, Step::Return);
        assert_eq!(control_flow, ControlFlow::ExitWithCode(1));
        assert_eq!(state.passed(), 0);
        assert_eq!(state.failures().len(), 1);
        assert_eq!(state.exit_code(), 1);
        assert!(state.is_completed());
    }
}

#[test]
fn tick_during_the_run_asks_the_loop_to_exit_with_zero() {
    let mut state = fresh(&["a", "b"]);
    let mut control_flow = ControlFlow::Poll;
    react(&mut state, Event::Tick, "1s", &mut control_flow);
    react(&mut state, failed("no"), "1s", &mut control_flow);
    assert_eq!(control_flow, ControlFlow::Poll);
    let action = react(&mut state, Event::Tick, "1s", &mut control_flow);
    assert_eq!(action.step, Step::Return);
    assert_eq!(action.text, "");
    assert_eq!(control_flow, ControlFlow::ExitWithCode(0));
    assert!(!state.is_completed());
    assert_eq!(state.failures().len(), 1);
}

#[test]
fn outcome_before_the_first_tick_is_dropped() {
    let mut state = fresh(&["a"]);
    let mut control_flow = ControlFlow::Poll;
    let action = react(&mut state, failed("early"), "1s", &mut control_flow);
    assert_eq!(action.text, "");
    assert_eq!(action.step, Step::Return);
    assert!(!state.has_run());
    assert_eq!(state.passed(), 0);
    assert!(state.failures().is_empty());
    assert_eq!(control_flow, ControlFlow::Poll);
}

#[test]
fn outcome_after_completion_is_dropped() {
    let mut state = fresh(&["a"]);
    let mut control_flow = ControlFlow::Poll;
    react(&mut state, Event::Tick, "1s", &mut control_flow);
    react(&mut state, Event::Outcome(Outcome::Passed), "1s", &mut control_flow);
    let mut control_flow = ControlFlow::Poll;
    let action = react(&mut state, failed("late"), "1s", &mut control_flow);
    assert_eq!(action.text, "");
    assert_eq!(action.step, Step::Return);
    assert_eq!(state.passed(), 1);
    assert!(state.failures().is_empty());
    assert_eq!(state.exit_code(), 0);
    assert_eq!(control_flow, ControlFlow::Poll);
}

#[test]
fn react_writes_the_time_it_is_given() {
    let mut state = fresh(&["a", "b"]);
    let mut control_flow = ControlFlow::Poll;
    let first = react(&mut state, Event::Tick, "12.5ms", &mut control_flow);
    assert_eq!(first.text, "test a ... ");
    let second = react(&mut state, Event::Outcome(Outcome::Passed), "12.5ms", &mut control_flow);
    assert_eq!(second.text, "ok\ntest b ... ");
    assert_eq!(second.step, Step::Invoke(1));
    let last = react(&mut state, failed("bad"), "12.5ms", &mut control_flow);
    assert_eq!(
        last.text,
        "FAILED\n\nfailures:\n\n---- b panic ----\nbad\n\n\
         test result: FAILED. 1 passed; 1 failed; finished in 12.5ms\n"
    );
    assert_eq!(last.step, Step::Return);
}

#[test]
fn completed_by_tells_the_last_event() {
    let mut state = fresh(&["a", "b"]);
    let mut control_flow = ControlFlow::Poll;
    assert!(!state.completed_by(&Event::Tick));
    assert!(!state.completed_by(&Event::Outcome(Outcome::Passed)));
    react(&mut state, Event::Tick, "1s", &mut control_flow);
    assert!(!state.completed_by(&Event::Tick));
    assert!(!state.completed_by(&Event::Outcome(Outcome::Passed)));
    react(&mut state, Event::Outcome(Outcome::Passed), "1s", &mut control_flow);
    assert!(!state.completed_by(&Event::Tick));
    assert!(state.completed_by(&Event::Outcome(Outcome::Passed)));
    assert!(state.completed_by(&failed("x")));
    react(&mut state, Event::Outcome(Outcome::Passed), "1s", &mut control_flow);
    assert!(!state.completed_by(&Event::Tick));
    assert!(!state.completed_by(&Event::Outcome(Outcome::Passed)));
    let empty = fresh(&[]);
    assert!(empty.completed_by(&Event::Tick));
    assert!(!empty.completed_by(&Event::Outcome(Outcome::Passed)));
}

#[test]
fn run_internal_reads_the_clock_at_the_end() {
    let mut state = fresh(&[]);
    let mut control_flow = ControlFlow::Poll;
    let action = run_internal(&mut state, Event::Tick, &mut control_flow);
    let head = "\ntest result: ok. 0 passed; 0 failed; finished in ";
    assert!(action.text.starts_with(head));
    let time = &action.text[head.len()..];
    assert!(time.ends_with("s\n"));
    assert!(time.chars().next().unwrap().is_ascii_digit());
}

#[test]
fn names_are_collected_in_registration_order() {
    fn first(_: &u8) {}
    fn second(_: &u8) {}
    let tests: [WinitBasedTest<fn(&u8)>; 3] = [
        WinitBasedTest { name: "first", function: TestFunction::Oneoff(first) },
        WinitBasedTest { name: "second", function: TestFunction::Oneoff(second) },
        WinitBasedTest { name: "first", function: TestFunction::Oneoff(first) },
    ];
    assert_eq!(test_names(&tests), vec!["first", "second", "first"]);
    let none: [WinitBasedTest<fn(&u8)>; 0] = [];
    assert!(test_names(&none).is_empty());
    match run(&tests, false, Palette::Plain) {
        Launch::Ready { banner, state } => {
            assert_eq!(banner, "\nRunning 3 tests...\n");
            assert_eq!(state.test_count(), 3);
            assert!(!state.has_run());
        }
        Launch::Unsupported { .. } => panic!("the run was called off"),
    }
}

#[test]
fn duplicate_names_are_kept_apart() {
    let mut state = fresh(&["same", "same"]);
    let mut control_flow = ControlFlow::Poll;
    let first = react(&mut state, Event::Tick, "1s", &mut control_flow);
    assert_eq!(first.step, Step::Invoke(0));
    let second = react(&mut state, failed("one"), "1s", &mut control_flow);
    assert_eq!(second.step, Step::Invoke(1));
    react(&mut state, failed("two"), "1s", &mut control_flow);
    assert_eq!(state.failures().len(), 2);
    assert_eq!(state.failures()[0].payload.message(), "one");
    assert_eq!(state.failures()[1].payload.message(), "two");
}
