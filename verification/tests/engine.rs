use fernspielapparat::books::{compile, Book, BookSpec};
use fernspielapparat::engine::{acts_done, Engine, Switch};
use fernspielapparat::error::ErrorKind;
use fernspielapparat::senses::Input;
use fernspielapparat::states::State;

const SECOND: u128 = 1_000_000_000;

fn phone_book() -> Book {
    let states = vec![
        State::builder().name("idle").input(Input::pick_up(), 1).build(),
        State::builder()
            .name("tone")
            .input(Input::digit(1).unwrap(), 2)
            .input(Input::hang_up(), 0)
            .timeout(10 * SECOND, 0)
            .end(3)
            .build(),
        State::builder().name("talk").end(3).input(Input::hang_up(), 0).build(),
        State::builder().name("bye").terminal(true).input(Input::pick_up(), 1).end(0).timeout(0, 0).build(),
    ];
    compile(BookSpec { states, initial: 0 }).unwrap()
}

#[test]
fn compile_accepts_sound_graph() {
    let book = phone_book();
    assert_eq!(book.initial(), 0);
    assert_eq!(book.states().len(), 4);
    assert_eq!(book.states()[2].name(), "talk");
    assert_eq!(book.state(3).map(|state| state.name()), Some("bye"));
    assert!(book.state(4).is_none());
}

#[test]
fn compile_rejects_initial_outside_graph() {
    let states = vec![State::builder().build()];
    assert_eq!(compile(BookSpec { states, initial: 1 }).err(), Some(ErrorKind::InvalidTransitionTarget));
    assert_eq!(
        compile(BookSpec { states: vec![], initial: 0 }).err(),
        Some(ErrorKind::InvalidTransitionTarget)
    );
}

#[test]
fn compile_rejects_transition_outside_graph() {
    let by_input = vec![State::builder().build(), State::builder().input(Input::pick_up(), 2).build()];
    assert_eq!(
        compile(BookSpec { states: by_input, initial: 0 }).err(),
        Some(ErrorKind::InvalidTransitionTarget)
    );
    let by_timeout = vec![State::builder().timeout(SECOND, 1).build()];
    assert_eq!(
        compile(BookSpec { states: by_timeout, initial: 0 }).err(),
        Some(ErrorKind::InvalidTransitionTarget)
    );
    let by_end = vec![State::builder().end(7).build()];
    assert_eq!(
        compile(BookSpec { states: by_end, initial: 0 }).err(),
        Some(ErrorKind::InvalidTransitionTarget)
    );
    let to_self = vec![State::builder().end(0).build()];
    assert!(compile(BookSpec { states: to_self, initial: 0 }).is_ok());
}

#[test]
fn engine_starts_in_initial_state() {
    let states = vec![State::builder().name("a").build(), State::builder().name("b").build()];
    let engine = Engine::new(compile(BookSpec { states, initial: 1 }).unwrap(), 5 * SECOND);
    assert_eq!(engine.current(), 1);
    assert_eq!(engine.enter_time(), 5 * SECOND);
    assert_eq!(engine.state().name(), "b");
    assert_eq!(engine.book().states().len(), 2);
}

#[test]
fn tick_follows_input_and_records_entry() {
    let mut engine = Engine::new(phone_book(), 0);
    assert_eq!(engine.tick(SECOND, None, &[Ok(false)]), None);
    assert_eq!(engine.tick(SECOND, Some(Input::hang_up()), &[Ok(false)]), None);
    assert_eq!(engine.current(), 0);
    assert_eq!(engine.enter_time(), 0);
    assert_eq!(engine.tick(2 * SECOND, Some(Input::pick_up()), &[Ok(false)]), Some(Switch { from: 0, to: 1 }));
    assert_eq!(engine.current(), 1);
    assert_eq!(engine.enter_time(), 2 * SECOND);
}

#[test]
fn tick_prefers_input_then_timeout_then_completion() {
    let mut engine = Engine::new(phone_book(), 0);
    engine.tick(0, Some(Input::pick_up()), &[Ok(false)]);
    // all three rules apply: the input wins
    let mut by_input = Engine::new(phone_book(), 0);
    by_input.tick(0, Some(Input::pick_up()), &[Ok(false)]);
    assert_eq!(
        by_input.tick(11 * SECOND, Some(Input::digit(1).unwrap()), &[Ok(true)]),
        Some(Switch { from: 1, to: 2 })
    );
    // timeout and completion apply: the timeout wins
    let mut by_timeout = Engine::new(phone_book(), 0);
    by_timeout.tick(0, Some(Input::pick_up()), &[Ok(false)]);
    assert_eq!(by_timeout.tick(10 * SECOND + 1, None, &[Ok(true)]), Some(Switch { from: 1, to: 0 }));
    // only completion applies
    assert_eq!(engine.tick(10 * SECOND, None, &[Ok(true)]), Some(Switch { from: 1, to: 3 }));
}

#[test]
fn tick_measures_timeout_from_entry() {
    let mut engine = Engine::new(phone_book(), 0);
    engine.tick(100 * SECOND, Some(Input::pick_up()), &[Ok(false)]);
    assert_eq!(engine.tick(110 * SECOND, None, &[Ok(false)]), None);
    assert_eq!(engine.tick(110 * SECOND + 1, None, &[Ok(false)]), Some(Switch { from: 1, to: 0 }));
    assert_eq!(engine.enter_time(), 110 * SECOND + 1);
}

#[test]
fn tick_waits_for_every_actuator() {
    let mut engine = Engine::new(phone_book(), 0);
    engine.tick(0, Some(Input::pick_up()), &[Ok(false)]);
    engine.tick(0, Some(Input::digit(1).unwrap()), &[Ok(false)]);
    assert_eq!(engine.current(), 2);
    assert_eq!(engine.tick(1_000 * SECOND, None, &[Ok(true), Ok(false), Ok(true)]), None);
    assert_eq!(
        engine.tick(1_000 * SECOND, None, &[Ok(true), Err(ErrorKind::PlaybackFailure), Ok(true)]),
        Some(Switch { from: 2, to: 3 })
    );
}

#[test]
fn acts_done_counts_failures_as_done() {
    assert!(acts_done(&[]));
    assert!(acts_done(&[Ok(true)]));
    assert!(!acts_done(&[Ok(false)]));
    assert!(acts_done(&[Err(ErrorKind::PlaybackFailure), Ok(true)]));
    assert!(acts_done(&[Err(ErrorKind::NotPausable)]));
    assert!(!acts_done(&[Err(ErrorKind::PlaybackFailure), Ok(false)]));
    assert!(!acts_done(&[Ok(true), Ok(true), Ok(false)]));
}

#[test]
fn terminal_state_is_never_left_by_a_tick() {
    let mut engine = Engine::new(phone_book(), 0);
    engine.tick(0, Some(Input::pick_up()), &[Ok(false)]);
    engine.tick(0, None, &[Ok(true)]);
    assert_eq!(engine.current(), 3);
    assert!(engine.state().is_terminal());
    assert_eq!(engine.tick(SECOND, Some(Input::pick_up()), &[Ok(true)]), None);
    assert_eq!(engine.tick(100 * SECOND, None, &[Ok(true)]), None);
    assert_eq!(engine.current(), 3);
    assert_eq!(engine.enter_time(), 0);
}

#[test]
fn reset_reenters_initial_state() {
    let mut engine = Engine::new(phone_book(), 0);
    engine.tick(0, Some(Input::pick_up()), &[Ok(false)]);
    engine.tick(0, None, &[Ok(true)]);
    assert_eq!(engine.reset(9 * SECOND), Switch { from: 3, to: 0 });
    assert_eq!(engine.current(), 0);
    assert_eq!(engine.enter_time(), 9 * SECOND);
    assert_eq!(engine.book().states().len(), 4);
    assert_eq!(engine.reset(10 * SECOND), Switch { from: 0, to: 0 });
    assert_eq!(engine.enter_time(), 10 * SECOND);
}

#[test]
fn run_replaces_graph_and_starts_over() {
    let mut engine = Engine::new(phone_book(), 0);
    engine.tick(0, Some(Input::pick_up()), &[Ok(false)]);
    let states = vec![State::builder().name("x").build(), State::builder().name("y").build()];
    let next = compile(BookSpec { states, initial: 1 }).unwrap();
    let (old, was_current) = engine.run(next, 4 * SECOND);
    assert_eq!(old.states().len(), 4);
    assert_eq!(was_current, 1);
    assert_eq!(engine.current(), 1);
    assert_eq!(engine.state().name(), "y");
    assert_eq!(engine.enter_time(), 4 * SECOND);
}

#[test]
fn tick_treats_backwards_clock_as_no_time_passed() {
    let states = vec![State::builder().timeout(0, 0).build()];
    let mut engine = Engine::new(compile(BookSpec { states, initial: 0 }).unwrap(), 5 * SECOND);
    assert_eq!(engine.tick(SECOND, None, &[Ok(false)]), None);
    assert_eq!(engine.tick(5 * SECOND, None, &[Ok(false)]), None);
    assert_eq!(engine.tick(5 * SECOND + 1, None, &[Ok(false)]), Some(Switch { from: 0, to: 0 }));
}
