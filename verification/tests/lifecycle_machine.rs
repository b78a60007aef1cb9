use std::cell::Cell;
use webview_shell::lifecycle::AppLifecycle;
use webview_shell::lifecycle::ConstructionError;
use webview_shell::lifecycle::LifecycleState;
use webview_shell::lifecycle::LoopControl;
use webview_shell::lifecycle::PlatformEvent;

fn never() -> Result<u32, String> {
    panic!("the factory must not be called");
}

#[test]
fn new_lifecycle_is_uninitialized() {
    let lifecycle: AppLifecycle<u32> = AppLifecycle::new();
    assert_eq!(lifecycle.state(), LifecycleState::Uninitialized);
    assert_eq!(lifecycle.webview(), None);
}

#[test]
fn loop_start_builds_the_webview() {
    let mut lifecycle: AppLifecycle<u32> = AppLifecycle::new();
    let outcome = lifecycle.dispatch(PlatformEvent::LoopStarted, || Ok::<u32, String>(7));
    assert_eq!(outcome, Ok(LoopControl::Wait));
    assert_eq!(lifecycle.state(), LifecycleState::Running);
    assert_eq!(lifecycle.webview(), Some(&7));
}

#[test]
fn repeated_loop_start_builds_only_once() {
    let built = Cell::new(0u32);
    let mut lifecycle: AppLifecycle<u32> = AppLifecycle::new();
    for _ in 0..5 {
        let outcome = lifecycle.dispatch(PlatformEvent::LoopStarted, || {
            built.set(built.get() + 1);
            Ok::<u32, String>(built.get())
        });
        assert_eq!(outcome, Ok(LoopControl::Wait));
        assert_eq!(lifecycle.state(), LifecycleState::Running);
        assert_eq!(lifecycle.webview(), Some(&1));
    }
    assert_eq!(built.get(), 1);
}

#[test]
fn close_releases_the_webview_and_stops_the_loop() {
    let mut lifecycle: AppLifecycle<String> = AppLifecycle::new();
    assert_eq!(lifecycle.dispatch(PlatformEvent::LoopStarted, || Ok::<String, ()>("view".to_string())), Ok(LoopControl::Wait));
    let outcome = lifecycle.dispatch(PlatformEvent::CloseRequested, || Err::<String, ()>(()));
    assert_eq!(outcome, Ok(LoopControl::Exit));
    assert_eq!(lifecycle.state(), LifecycleState::Terminated);
    assert_eq!(lifecycle.webview(), None);
}

#[test]
fn webview_is_dropped_when_closing() {
    let handle = std::rc::Rc::new(0u8);
    let mut lifecycle: AppLifecycle<std::rc::Rc<u8>> = AppLifecycle::new();
    let given = handle.clone();
    assert_eq!(lifecycle.dispatch(PlatformEvent::LoopStarted, move || Ok::<_, ()>(given)), Ok(LoopControl::Wait));
    assert_eq!(std::rc::Rc::strong_count(&handle), 2);
    assert_eq!(lifecycle.dispatch(PlatformEvent::Other, || Err(())), Ok(LoopControl::Wait));
    assert_eq!(std::rc::Rc::strong_count(&handle), 2);
    assert_eq!(lifecycle.dispatch(PlatformEvent::CloseRequested, || Err(())), Ok(LoopControl::Exit));
    assert_eq!(std::rc::Rc::strong_count(&handle), 1);
}

#[test]
fn events_after_termination_have_no_effect() {
    let mut lifecycle: AppLifecycle<u32> = AppLifecycle::new();
    assert_eq!(lifecycle.dispatch(PlatformEvent::LoopStarted, || Ok::<u32, String>(1)), Ok(LoopControl::Wait));
    assert_eq!(lifecycle.dispatch(PlatformEvent::CloseRequested, never), Ok(LoopControl::Exit));
    for event in [PlatformEvent::CloseRequested, PlatformEvent::LoopStarted, PlatformEvent::Other, PlatformEvent::CloseRequested] {
        assert_eq!(lifecycle.dispatch(event, never), Ok(LoopControl::Exit));
        assert_eq!(lifecycle.state(), LifecycleState::Terminated);
        assert_eq!(lifecycle.webview(), None);
    }
}

#[test]
fn other_events_change_nothing() {
    let mut lifecycle: AppLifecycle<u32> = AppLifecycle::new();
    assert_eq!(lifecycle.dispatch(PlatformEvent::Other, never), Ok(LoopControl::Wait));
    assert_eq!(lifecycle.state(), LifecycleState::Uninitialized);
    assert_eq!(lifecycle.dispatch(PlatformEvent::LoopStarted, || Ok::<u32, String>(3)), Ok(LoopControl::Wait));
    assert_eq!(lifecycle.dispatch(PlatformEvent::Other, never), Ok(LoopControl::Wait));
    assert_eq!(lifecycle.state(), LifecycleState::Running);
    assert_eq!(lifecycle.webview(), Some(&3));
}

#[test]
fn close_before_start_is_ignored() {
    let mut lifecycle: AppLifecycle<u32> = AppLifecycle::new();
    assert_eq!(lifecycle.dispatch(PlatformEvent::CloseRequested, never), Ok(LoopControl::Wait));
    assert_eq!(lifecycle.state(), LifecycleState::Uninitialized);
    assert_eq!(lifecycle.dispatch(PlatformEvent::LoopStarted, || Ok::<u32, String>(4)), Ok(LoopControl::Wait));
    assert_eq!(lifecycle.webview(), Some(&4));
}

#[test]
fn failed_construction_ends_the_run() {
    let mut lifecycle: AppLifecycle<u32> = AppLifecycle::new();
    let outcome = lifecycle.dispatch(PlatformEvent::LoopStarted, || Err::<u32, String>("no display".to_string()));
    assert_eq!(outcome, Err(ConstructionError { cause: "no display".to_string() }));
    assert_eq!(lifecycle.state(), LifecycleState::Terminated);
    assert_eq!(lifecycle.webview(), None);
    assert_eq!(lifecycle.dispatch(PlatformEvent::LoopStarted, never), Ok(LoopControl::Exit));
    assert_eq!(lifecycle.state(), LifecycleState::Terminated);
}
