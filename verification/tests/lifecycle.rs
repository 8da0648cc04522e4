use command_bridge::dispatcher::{Dispatcher, InvocationRequest, Step};
use command_bridge::error::{ErrorInfo, ErrorKind};
use command_bridge::lifecycle::{Application, LifecycleEvent, LifecycleState};
use command_bridge::registry::{CommandDescriptor, Handler};
use command_bridge::value::Value;
use command_bridge::window::{Size, WindowConfig, WindowHandle};

fn config() -> WindowConfig {
    WindowConfig::new(1200, 700, "Shell", "main")
}

fn commands() -> Vec<CommandDescriptor> {
    vec![
        CommandDescriptor::new("greet", Handler::Greet),
        CommandDescriptor::new("get_app_version", Handler::AppVersion),
        CommandDescriptor::new("open_external", Handler::OpenExternal),
    ]
}

fn running() -> Application {
    Application::start(&config(), Some(1), &commands(), "2.0.1").unwrap()
}

fn link(id: u64) -> InvocationRequest {
    InvocationRequest::new(id, "open_external", Value::text("https://example.com"))
}

#[test]
fn lifecycle_follows_the_startup_and_shutdown_order() {
    let s = LifecycleState::Uninitialized;
    let s = s.advance(LifecycleEvent::WindowReady).unwrap();
    assert_eq!(s, LifecycleState::WindowCreated);
    let s = s.advance(LifecycleEvent::CommandsReady).unwrap();
    assert_eq!(s, LifecycleState::CommandsRegistered);
    let s = s.advance(LifecycleEvent::LoopEntered).unwrap();
    assert_eq!(s, LifecycleState::Running);
    assert!(s.accepts_requests());
    let closing = s.advance(LifecycleEvent::CloseRequested).unwrap();
    assert_eq!(closing, LifecycleState::ShuttingDown);
    assert_eq!(s.advance(LifecycleEvent::QuitRequested), Some(LifecycleState::ShuttingDown));
    assert!(!closing.accepts_requests());
    assert_eq!(closing.advance(LifecycleEvent::Drained), Some(LifecycleState::Terminated));
    assert_eq!(closing.advance(LifecycleEvent::DeadlineElapsed), Some(LifecycleState::Terminated));
}

#[test]
fn lifecycle_rejects_events_out_of_order() {
    assert_eq!(LifecycleState::Uninitialized.advance(LifecycleEvent::CommandsReady), None);
    assert_eq!(LifecycleState::Uninitialized.advance(LifecycleEvent::LoopEntered), None);
    assert_eq!(LifecycleState::WindowCreated.advance(LifecycleEvent::LoopEntered), None);
    assert_eq!(LifecycleState::WindowCreated.advance(LifecycleEvent::WindowReady), None);
    assert_eq!(LifecycleState::Running.advance(LifecycleEvent::Drained), None);
    assert_eq!(LifecycleState::Running.advance(LifecycleEvent::StartupFailed), None);
    assert_eq!(LifecycleState::CommandsRegistered.advance(LifecycleEvent::StartupFailed), None);
    assert_eq!(LifecycleState::Terminated.advance(LifecycleEvent::WindowReady), None);
    assert_eq!(LifecycleState::Terminated.advance(LifecycleEvent::QuitRequested), None);
    assert!(!LifecycleState::Uninitialized.accepts_requests());
    assert!(!LifecycleState::CommandsRegistered.accepts_requests());
    assert!(!LifecycleState::Terminated.accepts_requests());
}

#[test]
fn startup_failure_terminates() {
    assert_eq!(
        LifecycleState::Uninitialized.advance(LifecycleEvent::StartupFailed),
        Some(LifecycleState::Terminated)
    );
    assert_eq!(
        LifecycleState::WindowCreated.advance(LifecycleEvent::StartupFailed),
        Some(LifecycleState::Terminated)
    );
}

#[test]
fn start_reaches_running_with_window_and_commands() {
    let app = running();
    assert_eq!(app.current_state(), LifecycleState::Running);
    assert_eq!(app.main_window(), Some(WindowHandle { id: 1 }));
    assert_eq!(app.minimum_size(), Some(Size { width: 1200, height: 700 }));
    assert_eq!(app.in_flight(), 0);
}

#[test]
fn start_with_zero_commands_reaches_running() {
    let mut app = Application::start(&config(), Some(1), &Vec::new(), "2.0.1").unwrap();
    assert_eq!(app.current_state(), LifecycleState::Running);
    assert_eq!(app.main_window(), Some(WindowHandle { id: 1 }));
    for (i, name) in ["greet", "get_app_version", "open_external", ""].iter().enumerate() {
        let d = app.invoke(&InvocationRequest::new(i as u64, name, Value::Unit));
        assert_eq!(d.handler, None);
        assert_eq!(
            d.step,
            Step::Reply(command_bridge::dispatcher::InvocationResponse {
                id: i as u64,
                outcome: Err(ErrorInfo::new(ErrorKind::UnknownCommand, name)),
            })
        );
    }
    assert_eq!(app.current_state(), LifecycleState::Running);
}

#[test]
fn start_without_a_window_is_fatal() {
    let error = Application::start(&config(), None, &commands(), "2.0.1").err().unwrap();
    assert_eq!(error.kind, ErrorKind::WindowCreation);
    assert!(error.kind.fatal());
}

#[test]
fn start_checks_the_window_before_the_commands() {
    let twice = vec![
        CommandDescriptor::new("greet", Handler::Greet),
        CommandDescriptor::new("greet", Handler::Echo),
    ];
    let error = Application::start(&config(), None, &twice, "2.0.1").err().unwrap();
    assert_eq!(error.kind, ErrorKind::WindowCreation);
}

#[test]
fn start_with_a_repeated_command_is_fatal() {
    let twice = vec![
        CommandDescriptor::new("greet", Handler::Greet),
        CommandDescriptor::new("echo", Handler::Echo),
        CommandDescriptor::new("greet", Handler::Echo),
    ];
    let error = Application::start(&config(), Some(1), &twice, "2.0.1").err().unwrap();
    assert_eq!(error, ErrorInfo::new(ErrorKind::DuplicateCommand, "greet"));
    assert!(error.kind.fatal());
}

#[test]
fn start_survives_an_unusable_minimum_size() {
    let flat = WindowConfig::new(0, 700, "Shell", "main");
    let app = Application::start(&flat, Some(1), &commands(), "2.0.1").unwrap();
    assert_eq!(app.current_state(), LifecycleState::Running);
    assert_eq!(app.minimum_size(), None);
}

#[test]
fn invoke_dispatches_while_running() {
    let mut app = running();
    let d = app.invoke(&InvocationRequest::new(1, "greet", Value::text("Ada")));
    assert_eq!(d.handler, Some(Handler::Greet));
    match d.step {
        Step::Reply(response) => assert_eq!(
            response.outcome,
            Ok(Value::text("Hello, Ada! You've been greeted from Rust!"))
        ),
        Step::OpenLink { .. } => panic!("greet settles at once"),
    }
    let d = app.invoke(&InvocationRequest::new(2, "get_app_version", Value::Unit));
    match d.step {
        Step::Reply(response) => assert_eq!(response.outcome, Ok(Value::text("2.0.1"))),
        Step::OpenLink { .. } => panic!("the version query settles at once"),
    }
    assert_eq!(app.in_flight(), 0);
}

#[test]
fn link_requests_are_in_flight_until_completed() {
    let mut app = running();
    let d = app.invoke(&link(5));
    assert_eq!(d.step, Step::OpenLink { id: 5, url: String::from("https://example.com") });
    assert_eq!(app.in_flight(), 1);
    assert_eq!(app.complete(6, true), None);
    assert_eq!(app.in_flight(), 1);
    assert_eq!(app.complete(5, true), Some(Dispatcher::complete_link(5, true)));
    assert_eq!(app.in_flight(), 0);
    assert_eq!(app.complete(5, true), None);
    assert_eq!(app.current_state(), LifecycleState::Running);
}

#[test]
fn responses_may_arrive_out_of_order() {
    let mut app = running();
    app.invoke(&link(1));
    app.invoke(&link(2));
    app.invoke(&link(3));
    assert_eq!(app.in_flight(), 3);
    assert_eq!(app.complete(2, false).unwrap().id, 2);
    assert_eq!(app.complete(3, true).unwrap().id, 3);
    let first = app.complete(1, false).unwrap();
    assert_eq!(first.id, 1);
    assert_eq!(first.error().unwrap().kind, ErrorKind::HandlerFailure);
    assert_eq!(app.in_flight(), 0);
}

#[test]
fn shutdown_with_nothing_in_flight_terminates() {
    let mut app = running();
    assert_eq!(app.request_shutdown(), LifecycleState::Terminated);
    assert_eq!(app.main_window(), None);
    assert_eq!(app.minimum_size(), None);
    assert_eq!(app.request_shutdown(), LifecycleState::Terminated);
    assert_eq!(app.deadline_elapsed(), Vec::new());
}

#[test]
fn shutdown_refuses_new_requests() {
    let mut app = running();
    app.invoke(&link(1));
    assert_eq!(app.request_shutdown(), LifecycleState::ShuttingDown);
    assert_eq!(app.main_window(), None);
    let d = app.invoke(&InvocationRequest::new(2, "greet", Value::text("Ada")));
    assert_eq!(d.handler, None);
    assert_eq!(d.step, Step::Reply(Dispatcher::refuse(2)));
    assert_eq!(app.in_flight(), 1);
}

#[test]
fn shutdown_drains_requests_in_flight() {
    let mut app = running();
    app.invoke(&link(1));
    app.invoke(&link(2));
    assert_eq!(app.request_shutdown(), LifecycleState::ShuttingDown);
    assert_eq!(app.complete(1, true).unwrap().outcome, Ok(Value::Unit));
    assert_eq!(app.current_state(), LifecycleState::ShuttingDown);
    assert_eq!(app.complete(2, true).unwrap().outcome, Ok(Value::Unit));
    assert_eq!(app.current_state(), LifecycleState::Terminated);
    assert_eq!(app.deadline_elapsed(), Vec::new());
}

#[test]
fn deadline_abandons_requests_in_flight() {
    let mut app = running();
    app.invoke(&link(4));
    app.invoke(&link(9));
    app.invoke(&link(6));
    assert_eq!(app.complete(9, true).unwrap().id, 9);
    assert_eq!(app.deadline_elapsed(), Vec::new());
    assert_eq!(app.in_flight(), 2);
    app.request_shutdown();
    let abandoned = app.deadline_elapsed();
    assert_eq!(abandoned, vec![Dispatcher::refuse(4), Dispatcher::refuse(6)]);
    assert_eq!(abandoned[0].error().unwrap().kind.name(), "ShutdownInProgress");
    assert_eq!(app.current_state(), LifecycleState::Terminated);
    assert_eq!(app.in_flight(), 0);
    assert_eq!(app.complete(4, true), None);
}

#[test]
fn repeated_ids_are_settled_one_at_a_time() {
    let mut app = running();
    app.invoke(&link(7));
    app.invoke(&link(7));
    assert_eq!(app.in_flight(), 2);
    assert!(app.complete(7, true).is_some());
    assert_eq!(app.in_flight(), 1);
    assert!(app.complete(7, false).is_some());
    assert!(app.complete(7, true).is_none());
}

#[test]
fn start_reports_the_first_repeated_name() {
    let many = vec![
        CommandDescriptor::new("a", Handler::Greet),
        CommandDescriptor::new("b", Handler::Echo),
        CommandDescriptor::new("c", Handler::Echo),
        CommandDescriptor::new("b", Handler::Greet),
        CommandDescriptor::new("a", Handler::Greet),
    ];
    let error = Application::start(&config(), Some(1), &many, "2.0.1").err().unwrap();
    assert_eq!(error, ErrorInfo::new(ErrorKind::DuplicateCommand, "b"));
}

#[test]
fn application_window_keeps_its_minimum_size() {
    let mut app = running();
    assert_eq!(app.resize(800, 600), Ok(Size { width: 1200, height: 700 }));
    assert_eq!(app.resize(1300, 100), Ok(Size { width: 1300, height: 700 }));
    app.invoke(&link(1));
    app.complete(1, true);
    assert_eq!(app.resize(1, 1), Ok(Size { width: 1200, height: 700 }));
    app.request_shutdown();
    assert_eq!(
        app.resize(1300, 800),
        Err(ErrorInfo::new(ErrorKind::Constraint, "the window handle is stale"))
    );
}

#[test]
fn step_leaves_the_state_on_a_misplaced_event() {
    assert_eq!(
        LifecycleState::Uninitialized.step(LifecycleEvent::WindowReady),
        LifecycleState::WindowCreated
    );
    assert_eq!(
        LifecycleState::Uninitialized.step(LifecycleEvent::LoopEntered),
        LifecycleState::Uninitialized
    );
    assert_eq!(LifecycleState::Running.step(LifecycleEvent::Drained), LifecycleState::Running);
    assert_eq!(
        LifecycleState::Running.step(LifecycleEvent::QuitRequested),
        LifecycleState::ShuttingDown
    );
    assert_eq!(
        LifecycleState::ShuttingDown.step(LifecycleEvent::CloseRequested),
        LifecycleState::ShuttingDown
    );
    assert_eq!(
        LifecycleState::Terminated.step(LifecycleEvent::DeadlineElapsed),
        LifecycleState::Terminated
    );
}

#[test]
fn deadline_outside_shutdown_changes_nothing() {
    let mut app = running();
    app.invoke(&link(1));
    assert_eq!(app.deadline_elapsed(), Vec::new());
    assert_eq!(app.current_state(), LifecycleState::Running);
    assert_eq!(app.in_flight(), 1);
    assert_eq!(app.main_window(), Some(WindowHandle { id: 1 }));
}
