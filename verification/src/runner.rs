//! The decisions of the event-loop runner: when the graphics are booted,
//! which events still reach the application instance, what to do after
//! the instance was polled, and what running the program returns.
use vstd::prelude::*;

verus! {

/// Why running a program failed.
#[derive(Clone, Copy, Debug, PartialEq, Eq, Structural)]
pub enum Error {
    /// The executor of the program could not be created.
    ExecutorCreationFailed,
    /// The first window could not be created.
    WindowCreationFailed,
    /// The graphics of the first window could not be set up.
    GraphicsCreationFailed,
}

/// How a program is started.
#[derive(Clone, Copy, Debug, PartialEq, Eq, Structural)]
pub struct Launch {
    /// The program runs without a main window.
    pub is_daemon: bool,
    /// A window is opened before the program's first task runs.
    pub opens_window: bool,
}

/// What the instance asked the event loop to do.
#[derive(Clone, Copy, Debug, PartialEq, Eq, Structural)]
pub enum Control {
    /// Change how the event loop waits.
    ChangeFlow,
    /// Leave the event loop.
    Exit,
    /// Create the window `id`.
    CreateWindow { id: u64 },
}

/// What the control channel held when it was read.
#[derive(Clone, Copy, Debug, PartialEq, Eq, Structural)]
pub enum Received {
    /// A request of the instance.
    Control(Control),
    /// The channel is closed.
    Closed,
    /// Nothing is waiting in the channel.
    Empty,
}

/// The outcome of polling the instance once.
#[derive(Clone, Copy, Debug, PartialEq, Eq, Structural)]
pub enum Poll {
    /// The instance has finished.
    Ready,
    /// The instance waits for more events; the control channel was read.
    Pending(Received),
}

/// What the runner does after polling the instance.
#[derive(Clone, Copy, Debug, PartialEq, Eq, Structural)]
pub enum Step {
    /// Stop polling until the next event.
    Stop,
    /// Leave the event loop and stop polling.
    Exit,
    /// Create window `id`, hand the instance the created window, and poll again.
    CreateWindow { id: u64 },
    /// Poll again.
    Continue,
}

/// The abstract state of a [`Runner`].
pub struct RunnerView<F> {
    /// The fonts to load when the graphics are booted; none once they are.
    pub boot: Option<Seq<F>>,
    /// The failure that ended the run, if any.
    pub error: Option<Error>,
    /// The runner has asked the event loop to exit.
    pub exiting: bool,
}

/// The state that the event-loop runner keeps; `F` is a font to load when
/// the graphics are booted.
pub struct Runner<F> {
    boot: Option<Vec<F>>,
    error: Option<Error>,
    exiting: bool,
}

/// The view of the fonts that may be waiting.
pub open spec fn fonts_view<F>(fonts: Option<Vec<F>>) -> Option<Seq<F>> {
    match fonts {
        Some(v) => Some(v@),
        None => None,
    }
}

impl<F> View for Runner<F> {
    type V = RunnerView<F>;

    closed spec fn view(&self) -> RunnerView<F> {
        RunnerView { boot: fonts_view(self.boot), error: self.error, exiting: self.exiting }
    }
}

/// The launch of a program that was given window settings or not, once its
/// executor was created or failed to be.
pub open spec fn launch_spec(has_window_settings: bool, executor_created: bool) -> Result<Launch, Error> {
    if executor_created {
        Ok(Launch { is_daemon: !has_window_settings, opens_window: has_window_settings })
    } else {
        Err(Error::ExecutorCreationFailed)
    }
}

/// The state after the event loop resumed, and the fonts to load if the
/// graphics are booted now.
pub open spec fn resume_spec<F>(s: RunnerView<F>) -> (RunnerView<F>, Option<Seq<F>>) {
    (RunnerView { boot: None, ..s }, s.boot)
}

/// The state after booting failed with `error`.
pub open spec fn fail_spec<F>(s: RunnerView<F>, error: Error) -> RunnerView<F> {
    RunnerView { error: Some(error), exiting: true, ..s }
}

/// The state and step after polling the instance gave `poll`.
pub open spec fn poll_spec<F>(s: RunnerView<F>, poll: Poll) -> (RunnerView<F>, Step) {
    match poll {
        Poll::Ready => (RunnerView { exiting: true, ..s }, Step::Exit),
        Poll::Pending(Received::Control(Control::CreateWindow { id })) => (s, Step::CreateWindow { id }),
        Poll::Pending(Received::Control(_)) => (s, Step::Continue),
        Poll::Pending(_) => (s, Step::Stop),
    }
}

/// What running the program returns when the runner ends in state `s`.
pub open spec fn outcome_spec<F>(s: RunnerView<F>) -> Result<(), Error> {
    match s.error {
        Some(e) => Err(e),
        None => Ok(()),
    }
}

/// How a program is started. Without an executor the run ends at once
/// with [`Error::ExecutorCreationFailed`], before anything else happens.
/// Otherwise, with window settings a window is opened first; without, the
/// program runs as a daemon.
pub fn launch(has_window_settings: bool, executor_created: bool) -> (l: Result<Launch, Error>)
    ensures
        l == launch_spec(has_window_settings, executor_created),
{
    if !executor_created {
        return Err(Error::ExecutorCreationFailed);
    }
    Ok(Launch { is_daemon: !has_window_settings, opens_window: has_window_settings })
}

impl<F> Runner<F> {
    /// A runner whose graphics still have to be booted, loading `fonts`.
    pub fn new(fonts: Vec<F>) -> (r: Runner<F>)
        ensures
            r@ == (RunnerView { boot: Some(fonts@), error: None, exiting: false }),
    {
        Runner { boot: Some(fonts), error: None, exiting: false }
    }

    /// The event loop resumed. The first time only, the graphics have to be
    /// booted: the fonts to load into them, each once and in this order
    /// before the graphics reach the instance, are handed out.
    pub fn resumed(&mut self) -> (boot: Option<Vec<F>>)
        ensures
            (final(self)@, fonts_view(boot)) == resume_spec(old(self)@),
    {
        let boot = self.boot.take();
        boot
    }

    /// Booting failed: the run ends with `error`, and the event loop is
    /// asked to exit.
    pub fn fail(&mut self, error: Error)
        ensures
            final(self)@ == fail_spec(old(self)@, error),
    {
        self.error = Some(error);
        self.exiting = true;
    }

    /// Whether an event of the event loop is passed on to the instance:
    /// not once the loop is exiting.
    pub fn dispatches(&self) -> (r: bool)
        ensures
            r == !self@.exiting,
    {
        !self.exiting
    }

    /// Whether the graphics have not been booted yet.
    pub fn boot_pending(&self) -> (r: bool)
        ensures
            r == self@.boot is Some,
    {
        self.boot.is_some()
    }

    /// Decides what follows a poll of the instance.
    pub fn after_poll(&mut self, poll: Poll) -> (step: Step)
        ensures
            (final(self)@, step) == poll_spec(old(self)@, poll),
    {
        match poll {
            Poll::Ready => {
                self.exiting = true;
                Step::Exit
            },
            Poll::Pending(Received::Control(Control::CreateWindow { id })) => Step::CreateWindow { id },
            Poll::Pending(Received::Control(_)) => Step::Continue,
            Poll::Pending(_) => Step::Stop,
        }
    }

    /// What running the program returns: the failure that ended it, if any.
    pub fn outcome(&self) -> (r: Result<(), Error>)
        ensures
            r == outcome_spec(self@),
    {
        match self.error {
            Some(e) => Err(e),
            None => Ok(()),
        }
    }
}

/// The graphics are booted at most once: once the runner resumed, resuming
/// again boots nothing.
pub proof fn lemma_boot_once<F>(s: RunnerView<F>)
    ensures
        resume_spec(resume_spec(s).0).1 is None,
        resume_spec(s).1 == s.boot,
{
}

/// A failed boot makes the run return that failure, and no event reaches
/// the instance afterwards, whatever the runner does next.
pub proof fn lemma_failure_is_returned<F>(s: RunnerView<F>, error: Error, poll: Poll)
    ensures
        outcome_spec(fail_spec(s, error)) == Err::<(), Error>(error),
        fail_spec(s, error).exiting,
        poll_spec(fail_spec(s, error), poll).0.exiting,
        resume_spec(fail_spec(s, error)).0.exiting,
{
}

/// Polling never records a failure, so a run in which booting did not fail
/// returns `Ok`; and once the loop is exiting it stays so.
pub proof fn lemma_polling_keeps_outcome<F>(s: RunnerView<F>, poll: Poll)
    ensures
        poll_spec(s, poll).0.error == s.error,
        outcome_spec(poll_spec(s, poll).0) == outcome_spec(s),
        s.exiting ==> poll_spec(s, poll).0.exiting,
        poll == Poll::Ready ==> poll_spec(s, poll).1 == Step::Exit && poll_spec(s, poll).0.exiting,
{
}

} // verus!
