//! The decisions of a running application instance: what each event that
//! reaches the instance does to its state, and which effect the event loop
//! has to carry out for it.
use vstd::prelude::*;
use crate::window_manager::{WindowManager, WindowManagerView, WindowRecord, alias_lookup, last_window, lemma_last_window};

verus! {

/// Why the event loop woke up.
#[derive(Clone, Copy, Debug, PartialEq, Eq, Structural)]
pub enum StartCause {
    /// The loop is starting.
    Init,
    /// A requested wake-up time was reached.
    ResumeTimeReached,
    /// A wait ended before its time.
    WaitCancelled,
    /// The loop is polling.
    Poll,
}

/// What happened to a window, as far as the instance tells events apart.
#[derive(Clone, Copy, Debug, PartialEq, Eq, Structural)]
pub enum WindowEvent {
    /// The window has to be drawn again.
    RedrawRequested,
    /// The user asked to close the window.
    CloseRequested,
    /// The window was destroyed.
    Destroyed,
    /// A key was pressed or released while the window had the focus.
    KeyboardInput { key: Key, pressed: bool },
    /// Any other window event.
    Other,
}

/// A key of the keyboard, by what it types.
#[derive(Clone, Copy, Debug, PartialEq, Eq, Structural)]
pub enum Key {
    /// A key that types this character.
    Character(char),
    /// Any other key.
    Other,
}

/// The state of the modifier keys when an event arrived.
#[derive(Clone, Copy, Debug, PartialEq, Eq, Structural)]
pub struct Modifiers {
    pub shift: bool,
    pub control: bool,
    pub alt: bool,
    pub logo: bool,
}

/// A window command of the runtime.
#[derive(Clone, Copy, Debug, PartialEq, Eq, Structural)]
pub enum WindowAction {
    /// Open a new window under the given identifier.
    Open(u64),
    /// Close the window with the given identifier.
    Close(u64),
    /// Any other window command.
    Other,
}

/// An action of the runtime, handed to the instance as a user event.
#[derive(Clone, Copy, Debug, PartialEq, Eq, Structural)]
pub enum Action {
    /// A message produced for the program.
    Output,
    /// A font to load.
    LoadFont,
    /// A widget operation.
    Widget,
    /// A clipboard command.
    Clipboard,
    /// A window command.
    Window(WindowAction),
    /// A system query.
    System,
    /// A request to stop the runtime.
    Exit,
}

/// An event of the platform event loop.
#[derive(Clone, Copy, Debug, PartialEq, Eq, Structural)]
pub enum LoopEvent {
    /// The loop woke up.
    NewEvents(StartCause),
    /// Something happened to the platform window with the given identifier.
    WindowEvent { window_id: u64, event: WindowEvent },
    /// A device event.
    DeviceEvent,
    /// An action of the runtime.
    UserEvent(Action),
    /// The application was suspended.
    Suspended,
    /// The application was resumed.
    Resumed,
    /// The loop is about to wait for new events.
    AboutToWait,
    /// The loop is exiting.
    LoopExiting,
    /// The system is low on memory.
    MemoryWarning,
}

/// An event as the instance receives it.
#[derive(Clone, Copy, Debug, PartialEq, Eq, Structural)]
pub enum Event {
    /// The event loop created the window `id`; the platform knows it as `alias`.
    WindowCreated { id: u64, alias: u64, exit_on_close_request: bool, make_visible: bool },
    /// The event loop woke the instance with one of its own events.
    EventLoopAwakened(LoopEvent),
}

/// What the event loop has to do after the instance took an event.
#[derive(Clone, Copy, Debug, PartialEq, Eq, Structural)]
pub enum Effect {
    /// Nothing.
    Nothing,
    /// Keep the newly created window `id` and tell its opener that it is open.
    WindowOpened { id: u64, exit_on_close_request: bool },
    /// Ask the event loop to create window `id`, on the monitor of window
    /// `monitor_of` if there is one.
    CreateWindow { id: u64, monitor_of: Option<u64> },
    /// Draw window `id` and present it.
    Present { id: u64 },
}

/// The abstract state of an [`Instance`].
pub struct InstanceView {
    pub windows: WindowManagerView,
    pub is_window_opening: bool,
    pub actions: nat,
    pub events: nat,
}

/// The state that an application instance keeps between events.
pub struct Instance {
    windows: WindowManager,
    is_window_opening: bool,
    actions: usize,
    events: u64,
}

impl View for Instance {
    type V = InstanceView;

    closed spec fn view(&self) -> InstanceView {
        InstanceView {
            windows: self.windows@,
            is_window_opening: self.is_window_opening,
            actions: self.actions as nat,
            events: self.events as nat,
        }
    }
}

/// The state and effect that a runtime action leads to.
pub open spec fn action_spec(s: InstanceView, action: Action) -> (InstanceView, Effect) {
    match action {
        Action::Window(WindowAction::Open(id)) => (
            InstanceView { is_window_opening: true, ..s },
            Effect::CreateWindow { id, monitor_of: last_window(s.windows) },
        ),
        _ => (s, Effect::Nothing),
    }
}

/// The state and effect that one event leads to.
pub open spec fn step_spec(s: InstanceView, event: Event) -> (InstanceView, Effect) {
    let counted = InstanceView { events: s.events + 1, ..s };
    match event {
        Event::WindowCreated { id, alias, exit_on_close_request, make_visible } => (
            InstanceView {
                windows: WindowManagerView {
                    entries: s.windows.entries.insert(id, WindowRecord { alias, exit_on_close_request }),
                    aliases: s.windows.aliases.insert(alias, id),
                },
                is_window_opening: false,
                ..counted
            },
            Effect::WindowOpened { id, exit_on_close_request },
        ),
        Event::EventLoopAwakened(LoopEvent::UserEvent(action)) => {
            let (t, effect) = action_spec(counted, action);
            (InstanceView { actions: t.actions + 1, ..t }, effect)
        },
        Event::EventLoopAwakened(
            LoopEvent::WindowEvent { window_id, event: WindowEvent::RedrawRequested },
        ) => (
            counted,
            match alias_lookup(s.windows, window_id) {
                Some(id) => Effect::Present { id },
                None => Effect::Nothing,
            },
        ),
        _ => (counted, Effect::Nothing),
    }
}

/// Whether the counters of `s` leave room for `event`.
pub open spec fn can_take(s: InstanceView, event: Event) -> bool {
    &&& s.events < u64::MAX
    &&& (event matches Event::EventLoopAwakened(LoopEvent::UserEvent(_)) ==> s.actions < usize::MAX)
}

impl Instance {
    /// A fresh instance with no windows. Unless it runs as a daemon, a
    /// window is about to open.
    pub fn new(is_daemon: bool) -> (r: Instance)
        ensures
            r@.windows.entries == Map::<u64, WindowRecord>::empty(),
            r@.windows.aliases == Map::<u64, u64>::empty(),
            r@.is_window_opening == !is_daemon,
            r@.actions == 0,
            r@.events == 0,
    {
        Instance { windows: WindowManager::new(), is_window_opening: !is_daemon, actions: 0, events: 0 }
    }

    /// Whether a window is being opened and has not been created yet.
    pub fn is_window_opening(&self) -> (r: bool)
        ensures
            r == self@.is_window_opening,
    {
        self.is_window_opening
    }

    /// How many runtime actions the instance has handled.
    pub fn actions(&self) -> (r: usize)
        ensures
            r == self@.actions,
    {
        self.actions
    }

    /// How many events the instance has taken.
    pub fn events(&self) -> (r: u64)
        ensures
            r == self@.events,
    {
        self.events
    }

    /// The registry of the instance's windows.
    pub fn windows(&self) -> (r: &WindowManager)
        ensures
            r@ == self@.windows,
    {
        &self.windows
    }

    /// Runs a runtime action: opening a window asks the event loop to create
    /// it, on the monitor of the last window.
    pub fn run_action(&mut self, action: Action) -> (effect: Effect)
        ensures
            (final(self)@, effect) == action_spec(old(self)@, action),
            action matches Action::Window(WindowAction::Open(id)) ==> effect == (Effect::CreateWindow {
                id,
                monitor_of: last_window(old(self)@.windows),
            }) && final(self)@.is_window_opening,
            !(action matches Action::Window(WindowAction::Open(_))) ==> effect == Effect::Nothing,
            final(self)@.windows == old(self)@.windows,
    {
        match action {
            Action::Window(WindowAction::Open(id)) => {
                let monitor_of = self.windows.last();
                self.is_window_opening = true;
                Effect::CreateWindow { id, monitor_of }
            },
            _ => Effect::Nothing,
        }
    }

    /// Takes one event and says what the event loop has to do for it.
    pub fn step(&mut self, event: Event) -> (effect: Effect)
        requires
            can_take(old(self)@, event),
        ensures
            (final(self)@, effect) == step_spec(old(self)@, event),
    {
        self.events = self.events + 1;
        match event {
            Event::WindowCreated { id, alias, exit_on_close_request, make_visible } => {
                self.windows.insert(id, alias, exit_on_close_request);
                self.is_window_opening = false;
                Effect::WindowOpened { id, exit_on_close_request }
            },
            Event::EventLoopAwakened(LoopEvent::UserEvent(action)) => {
                let effect = self.run_action(action);
                self.actions = self.actions + 1;
                effect
            },
            Event::EventLoopAwakened(
                LoopEvent::WindowEvent { window_id, event: WindowEvent::RedrawRequested },
            ) => {
                match self.windows.get_alias(window_id) {
                    Some(id) => Effect::Present { id },
                    None => Effect::Nothing,
                }
            },
            _ => Effect::Nothing,
        }
    }
}

/// A window that the instance was told was created, and that the platform
/// asks to redraw under its platform identifier, is the one presented.
pub proof fn lemma_created_window_is_presented(
    s: InstanceView,
    id: u64,
    alias: u64,
    exit_on_close_request: bool,
    make_visible: bool,
)
    ensures
        ({
            let created = Event::WindowCreated { id, alias, exit_on_close_request, make_visible };
            let redraw = Event::EventLoopAwakened(
                LoopEvent::WindowEvent { window_id: alias, event: WindowEvent::RedrawRequested },
            );
            step_spec(step_spec(s, created).0, redraw).1 == Effect::Present { id }
        }),
{
}

/// Only registered windows are presented, and the window is still
/// registered afterwards.
pub proof fn lemma_present_names_registered_window(s: InstanceView, event: Event, id: u64)
    requires
        step_spec(s, event).1 == (Effect::Present { id }),
    ensures
        s.windows.entries.contains_key(id),
        step_spec(s, event).0.windows.entries.contains_key(id),
{
}

/// Every event is counted once, and runtime actions are counted exactly
/// when they arrive as user events.
pub proof fn lemma_counters(s: InstanceView, event: Event)
    ensures
        step_spec(s, event).0.events == s.events + 1,
        step_spec(s, event).0.actions == s.actions + if event matches Event::EventLoopAwakened(
            LoopEvent::UserEvent(_),
        ) {
            1nat
        } else {
            0nat
        },
{
}

/// Asking to open a window marks a window as opening; the creation of a
/// window clears the mark; no other event touches it.
pub proof fn lemma_window_opening(s: InstanceView, event: Event)
    ensures
        step_spec(s, event).0.is_window_opening == match event {
            Event::WindowCreated { .. } => false,
            Event::EventLoopAwakened(LoopEvent::UserEvent(Action::Window(WindowAction::Open(_)))) => true,
            _ => s.is_window_opening,
        },
{
}

/// Windows are only ever added, and only by the event that reports their
/// creation; every other event leaves the registry as it was.
pub proof fn lemma_registry_grows_only_on_creation(s: InstanceView, event: Event, id: u64)
    ensures
        s.windows.entries.contains_key(id) ==> step_spec(s, event).0.windows.entries.contains_key(id),
        !(event is WindowCreated) ==> step_spec(s, event).0.windows == s.windows,
{
}

/// A window is requested on the monitor of the registered window with the
/// greatest identifier, and on no particular monitor when none is open.
pub proof fn lemma_new_window_monitor(s: InstanceView, event: Event, id: u64, monitor_of: Option<u64>)
    requires
        step_spec(s, event).1 == (Effect::CreateWindow { id, monitor_of }),
    ensures
        event == Event::EventLoopAwakened(LoopEvent::UserEvent(Action::Window(WindowAction::Open(id)))),
        match monitor_of {
            None => s.windows.entries.dom().is_empty(),
            Some(m) => s.windows.entries.contains_key(m) && forall|other: u64|
                #[trigger] s.windows.entries.contains_key(other) ==> other <= m,
        },
{
    if !s.windows.entries.dom().is_empty() {
        lemma_last_window(s.windows);
    }
}

/// Every request to open a window asks the event loop to create that
/// window, whether or not another window is already opening, and leaves the
/// instance marking a window as opening; the window registry and the
/// counters are not touched by the action itself.
pub proof fn lemma_open_always_requests_window(s: InstanceView, id: u64)
    ensures
        ({
            let (t, effect) = action_spec(s, Action::Window(WindowAction::Open(id)));
            &&& effect == (Effect::CreateWindow { id, monitor_of: last_window(s.windows) })
            &&& t.is_window_opening
            &&& t.windows == s.windows
            &&& t.actions == s.actions
            &&& t.events == s.events
        }),
        ({
            let (t, effect) = step_spec(
                s,
                Event::EventLoopAwakened(LoopEvent::UserEvent(Action::Window(WindowAction::Open(id)))),
            );
            &&& effect == (Effect::CreateWindow { id, monitor_of: last_window(s.windows) })
            &&& t.is_window_opening
            &&& t.actions == s.actions + 1
        }),
{
}

/// An opening request in a state that already marks a window as opening
/// asks for the window exactly as it would in a state without the mark.
pub proof fn lemma_open_ignores_opening_mark(s: InstanceView, id: u64)
    ensures
        action_spec(InstanceView { is_window_opening: true, ..s }, Action::Window(WindowAction::Open(id))).1
            == action_spec(InstanceView { is_window_opening: false, ..s }, Action::Window(WindowAction::Open(id))).1,
        action_spec(s, Action::Window(WindowAction::Open(id))).1 is CreateWindow,
{
}

/// The state after the instance took `events` in order, and the effect of
/// each event, in the same order.
pub open spec fn run_spec(s: InstanceView, events: Seq<Event>) -> (InstanceView, Seq<Effect>)
    decreases events.len(),
{
    if events.len() == 0 {
        (s, Seq::empty())
    } else {
        let (t, effects) = run_spec(s, events.drop_last());
        let (u, effect) = step_spec(t, events.last());
        (u, effects.push(effect))
    }
}

/// Taking a sequence of events handles each event exactly once, in order:
/// there is one effect per event, the effect of each event is the one it
/// has in the state that the events before it left, and the event counter
/// grows by exactly the number of events.
pub proof fn lemma_each_event_handled_once(s: InstanceView, events: Seq<Event>)
    ensures
        run_spec(s, events).1.len() == events.len(),
        run_spec(s, events).0.events == s.events + events.len(),
        forall|i: int|
            0 <= i < events.len() ==> #[trigger] run_spec(s, events).1[i] == step_spec(
                run_spec(s, events.take(i)).0,
                events[i],
            ).1,
    decreases events.len(),
{
    if events.len() > 0 {
        let prefix = events.drop_last();
        lemma_each_event_handled_once(s, prefix);
        assert forall|i: int| 0 <= i < events.len() implies #[trigger] run_spec(s, events).1[i] == step_spec(
            run_spec(s, events.take(i)).0,
            events[i],
        ).1 by {
            if i < prefix.len() {
                assert(events.take(i) =~= prefix.take(i));
                assert(run_spec(s, prefix).1[i] == step_spec(run_spec(s, prefix.take(i)).0, prefix[i]).1);
            } else {
                assert(events.take(i) =~= prefix);
            }
        }
    }
}

/// Whether `event` is the user's request to quit at once: the `Q` key
/// pressed while the logo key (Command, Super) is held. Which events force a
/// quit is this library's choice: the quit shortcut of the platform's
/// desktop conventions, and nothing else.
pub open spec fn is_quit_request(event: WindowEvent, modifiers: Modifiers) -> bool {
    &&& event == (WindowEvent::KeyboardInput { key: Key::Character('q'), pressed: true })
    &&& modifiers.logo
}

/// Returns true if the provided event should cause a program to exit: only
/// the quit shortcut does, and no other event.
pub fn user_force_quit(event: &WindowEvent, modifiers: Modifiers) -> (r: bool)
    ensures
        r == is_quit_request(*event, modifiers),
{
    match event {
        WindowEvent::KeyboardInput { key: Key::Character(c), pressed: true } => *c == 'q' && modifiers.logo,
        _ => false,
    }
}

} // verus!
