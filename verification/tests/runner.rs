use iced_winit::runner::{launch, Control, Error, Launch, Poll, Received, Runner, Step};

#[test]
fn launch_with_and_without_window() {
    assert_eq!(launch(true, true), Ok(Launch { is_daemon: false, opens_window: true }));
    assert_eq!(launch(false, true), Ok(Launch { is_daemon: true, opens_window: false }));
}

#[test]
fn launch_without_executor_fails() {
    assert_eq!(launch(true, false), Err(Error::ExecutorCreationFailed));
    assert_eq!(launch(false, false), Err(Error::ExecutorCreationFailed));
}

#[test]
fn boot_happens_once_with_the_fonts() {
    let mut runner = Runner::new(vec![vec![1u8, 2], vec![3u8]]);
    assert!(runner.boot_pending());
    assert_eq!(runner.resumed(), Some(vec![vec![1u8, 2], vec![3u8]]));
    assert!(!runner.boot_pending());
    assert_eq!(runner.resumed(), None);
    assert_eq!(runner.outcome(), Ok(()));
}

#[test]
fn failed_boot_is_returned_and_stops_dispatch() {
    let mut runner: Runner<u8> = Runner::new(Vec::new());
    assert_eq!(runner.resumed(), Some(Vec::new()));
    assert!(runner.dispatches());
    runner.fail(Error::WindowCreationFailed);
    assert!(!runner.dispatches());
    assert_eq!(runner.outcome(), Err(Error::WindowCreationFailed));

    let mut other: Runner<u8> = Runner::new(Vec::new());
    other.resumed();
    other.fail(Error::GraphicsCreationFailed);
    assert_eq!(other.outcome(), Err(Error::GraphicsCreationFailed));
}

#[test]
fn steps_after_poll() {
    let mut runner: Runner<u8> = Runner::new(Vec::new());
    assert_eq!(
        runner.after_poll(Poll::Pending(Received::Control(Control::CreateWindow { id: 4 }))),
        Step::CreateWindow { id: 4 }
    );
    assert_eq!(runner.after_poll(Poll::Pending(Received::Control(Control::Exit))), Step::Continue);
    assert_eq!(
        runner.after_poll(Poll::Pending(Received::Control(Control::ChangeFlow))),
        Step::Continue
    );
    assert_eq!(runner.after_poll(Poll::Pending(Received::Empty)), Step::Stop);
    assert_eq!(runner.after_poll(Poll::Pending(Received::Closed)), Step::Stop);
    assert!(runner.dispatches());
    assert_eq!(runner.after_poll(Poll::Ready), Step::Exit);
    assert!(!runner.dispatches());
    assert_eq!(runner.outcome(), Ok(()));
}
