use iced_winit::instance::{
    user_force_quit, Action, Effect, Event, Instance, Key, LoopEvent, Modifiers, StartCause,
    WindowAction, WindowEvent,
};

fn created(id: u64, alias: u64) -> Event {
    Event::WindowCreated { id, alias, exit_on_close_request: true, make_visible: true }
}

fn redraw(alias: u64) -> Event {
    Event::EventLoopAwakened(LoopEvent::WindowEvent {
        window_id: alias,
        event: WindowEvent::RedrawRequested,
    })
}

fn open(id: u64) -> Event {
    Event::EventLoopAwakened(LoopEvent::UserEvent(Action::Window(WindowAction::Open(id))))
}

#[test]
fn new_instance_expects_a_window_unless_daemon() {
    let app = Instance::new(false);
    assert!(app.is_window_opening());
    assert_eq!(app.actions(), 0);
    assert_eq!(app.events(), 0);
    assert!(app.windows().is_empty());
    let daemon = Instance::new(true);
    assert!(!daemon.is_window_opening());
}

#[test]
fn created_window_is_presented_on_redraw() {
    let mut instance = Instance::new(false);
    let effect = instance.step(created(3, 77));
    assert_eq!(effect, Effect::WindowOpened { id: 3, exit_on_close_request: true });
    assert!(!instance.is_window_opening());
    assert_eq!(instance.step(redraw(77)), Effect::Present { id: 3 });
    assert_eq!(instance.events(), 2);
}

#[test]
fn redraw_of_unknown_window_does_nothing() {
    let mut instance = Instance::new(true);
    assert_eq!(instance.step(redraw(5)), Effect::Nothing);
    instance.step(created(1, 10));
    assert_eq!(instance.step(redraw(11)), Effect::Nothing);
}

#[test]
fn open_action_requests_window_on_last_monitor() {
    let mut instance = Instance::new(true);
    assert_eq!(instance.step(open(1)), Effect::CreateWindow { id: 1, monitor_of: None });
    assert!(instance.is_window_opening());
    assert_eq!(instance.actions(), 1);
    instance.step(created(1, 100));
    instance.step(created(4, 101));
    instance.step(created(2, 102));
    assert_eq!(instance.step(open(9)), Effect::CreateWindow { id: 9, monitor_of: Some(4) });
    assert_eq!(instance.actions(), 2);
    assert_eq!(instance.events(), 5);
}

#[test]
fn other_actions_and_events_do_nothing() {
    let mut instance = Instance::new(true);
    let events = [
        Event::EventLoopAwakened(LoopEvent::UserEvent(Action::Output)),
        Event::EventLoopAwakened(LoopEvent::UserEvent(Action::Window(WindowAction::Close(1)))),
        Event::EventLoopAwakened(LoopEvent::NewEvents(StartCause::Init)),
        Event::EventLoopAwakened(LoopEvent::AboutToWait),
        Event::EventLoopAwakened(LoopEvent::WindowEvent {
            window_id: 1,
            event: WindowEvent::CloseRequested,
        }),
    ];
    for event in events {
        assert_eq!(instance.step(event), Effect::Nothing);
    }
    assert_eq!(instance.actions(), 2);
    assert_eq!(instance.events(), 5);
    assert!(!instance.is_window_opening());
    assert!(instance.windows().is_empty());
}

#[test]
fn recreated_window_takes_new_alias() {
    let mut instance = Instance::new(false);
    instance.step(created(1, 50));
    instance.step(created(1, 60));
    assert_eq!(instance.step(redraw(60)), Effect::Present { id: 1 });
    // The older platform identifier still points at the same window.
    assert_eq!(instance.step(redraw(50)), Effect::Present { id: 1 });
    let record = instance.windows().get(1).unwrap();
    assert_eq!(record.alias, 60);
}

#[test]
fn run_action_alone_does_not_count() {
    let mut instance = Instance::new(true);
    assert_eq!(
        instance.run_action(Action::Window(WindowAction::Open(8))),
        Effect::CreateWindow { id: 8, monitor_of: None }
    );
    assert_eq!(instance.actions(), 0);
    assert!(instance.is_window_opening());
}

#[test]
fn only_the_quit_shortcut_forces_quit() {
    let logo = Modifiers { shift: false, control: false, alt: false, logo: true };
    let none = Modifiers { shift: false, control: false, alt: false, logo: false };
    let q = WindowEvent::KeyboardInput { key: Key::Character('q'), pressed: true };
    assert!(user_force_quit(&q, logo));
    assert!(!user_force_quit(&q, none));
    assert!(!user_force_quit(&WindowEvent::KeyboardInput { key: Key::Character('q'), pressed: false }, logo));
    assert!(!user_force_quit(&WindowEvent::KeyboardInput { key: Key::Character('w'), pressed: true }, logo));
    assert!(!user_force_quit(&WindowEvent::KeyboardInput { key: Key::Other, pressed: true }, logo));
    assert!(!user_force_quit(&WindowEvent::RedrawRequested, none));
    assert!(!user_force_quit(&WindowEvent::RedrawRequested, logo));
    assert!(!user_force_quit(&WindowEvent::CloseRequested, logo));
    assert!(!user_force_quit(&WindowEvent::Other, none));
}
