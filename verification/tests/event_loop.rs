use gl_bootstrap::events::{Action, EventLoop, InputEvent, Key};

const ESCAPE: InputEvent = InputEvent::KeyDown { key: Some(Key::Escape) };
const OTHER_KEY: InputEvent = InputEvent::KeyDown { key: Some(Key::Other) };
const NO_KEY: InputEvent = InputEvent::KeyDown { key: None };

#[test]
fn quit_and_escape_end_the_loop() {
    assert!(InputEvent::Quit.ends_loop());
    assert!(ESCAPE.ends_loop());
    assert!(!OTHER_KEY.ends_loop());
    assert!(!NO_KEY.ends_loop());
    assert!(!InputEvent::Other.ends_loop());
}

#[test]
fn fresh_loop_runs() {
    assert!(EventLoop::new().is_running());
}

#[test]
fn escape_stops_a_running_loop() {
    let mut event_loop = EventLoop::new();
    assert_eq!(event_loop.handle(InputEvent::Other), Action::Continue);
    assert_eq!(event_loop.handle(OTHER_KEY), Action::Continue);
    assert!(event_loop.is_running());
    assert_eq!(event_loop.handle(ESCAPE), Action::Exit);
    assert!(!event_loop.is_running());
}

#[test]
fn quit_stops_a_running_loop() {
    let mut event_loop = EventLoop::new();
    assert_eq!(event_loop.handle(InputEvent::Quit), Action::Exit);
    assert!(!event_loop.is_running());
}

#[test]
fn loop_exits_once_and_ignores_what_follows() {
    let events = [InputEvent::Other, NO_KEY, ESCAPE, InputEvent::Quit, ESCAPE, InputEvent::Other];
    let mut event_loop = EventLoop::new();
    let actions: Vec<Action> = events.iter().map(|e| event_loop.handle(*e)).collect();
    assert_eq!(
        actions,
        vec![
            Action::Continue,
            Action::Continue,
            Action::Exit,
            Action::Ignored,
            Action::Ignored,
            Action::Ignored,
        ]
    );
    assert_eq!(actions.iter().filter(|a| **a == Action::Exit).count(), 1);
    assert!(!event_loop.is_running());
}

#[test]
fn drain_stops_at_the_first_event_that_ends_the_loop() {
    let mut event_loop = EventLoop::new();
    let events = [OTHER_KEY, InputEvent::Quit, ESCAPE, InputEvent::Other];
    assert_eq!(event_loop.drain(&events), 2);
    assert!(!event_loop.is_running());
}

#[test]
fn drain_looks_at_every_event_when_none_ends_the_loop() {
    let mut event_loop = EventLoop::new();
    assert_eq!(event_loop.drain(&[OTHER_KEY, NO_KEY, InputEvent::Other]), 3);
    assert!(event_loop.is_running());
    assert_eq!(event_loop.drain(&[]), 0);
    assert!(event_loop.is_running());
}

#[test]
fn drain_looks_at_nothing_once_the_loop_has_ended() {
    let mut event_loop = EventLoop::new();
    assert_eq!(event_loop.drain(&[ESCAPE]), 1);
    assert_eq!(event_loop.drain(&[InputEvent::Other, InputEvent::Quit]), 0);
    assert!(!event_loop.is_running());
}

#[test]
fn drain_goes_on_over_several_polls() {
    let mut event_loop = EventLoop::new();
    assert_eq!(event_loop.drain(&[InputEvent::Other]), 1);
    assert_eq!(event_loop.drain(&[NO_KEY, OTHER_KEY]), 2);
    assert_eq!(event_loop.drain(&[InputEvent::Other, ESCAPE, ESCAPE]), 2);
    assert!(!event_loop.is_running());
}
