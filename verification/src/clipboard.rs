//! Access the clipboard.
use vstd::prelude::*;

verus! {

/// Which clipboard of the system is meant.
#[derive(Clone, Copy, Debug, PartialEq, Eq, Structural)]
pub enum Kind {
    /// The clipboard that copy and paste use.
    Standard,
    /// The selection clipboard of X11 and Wayland.
    Primary,
}

/// What a [`Clipboard`] holds, as contracts speak of it.
pub enum ClipboardState {
    /// No system clipboard can be reached.
    Unavailable,
    /// The clipboard of the window `window`, with the text last written to
    /// each clipboard kind.
    Connected { window: u64, standard: Option<Seq<char>>, primary: Option<Seq<char>> },
}

enum State {
    Unavailable,
    Connected { window: u64, standard: Option<String>, primary: Option<String> },
}

/// A buffer for short-term storage and transfer within and between
/// applications.
pub struct Clipboard {
    state: State,
}

/// The view of text that may be missing.
pub open spec fn text_view(text: Option<String>) -> Option<Seq<char>> {
    match text {
        Some(t) => Some(t@),
        None => None,
    }
}

impl View for Clipboard {
    type V = ClipboardState;

    closed spec fn view(&self) -> ClipboardState {
        match self.state {
            State::Unavailable => ClipboardState::Unavailable,
            State::Connected { window, standard, primary } => ClipboardState::Connected {
                window,
                standard: text_view(standard),
                primary: text_view(primary),
            },
        }
    }
}

/// The text that a clipboard in `state` holds for `kind`.
pub open spec fn contents(state: ClipboardState, kind: Kind) -> Option<Seq<char>> {
    match state {
        ClipboardState::Unavailable => None,
        ClipboardState::Connected { standard, primary, .. } => match kind {
            Kind::Standard => standard,
            Kind::Primary => primary,
        },
    }
}

/// The platform identifier of the window that a clipboard in `state` was
/// created for.
pub open spec fn window_of(state: ClipboardState) -> Option<u64> {
    match state {
        ClipboardState::Unavailable => None,
        ClipboardState::Connected { window, .. } => Some(window),
    }
}

/// The state of a clipboard in `state` after `text` was written to `kind`:
/// a connected clipboard holds it for that kind, and an unavailable one
/// stays as it was.
pub open spec fn after_write(state: ClipboardState, kind: Kind, text: Seq<char>) -> ClipboardState {
    match state {
        ClipboardState::Unavailable => ClipboardState::Unavailable,
        ClipboardState::Connected { window, standard, primary } => match kind {
            Kind::Standard => ClipboardState::Connected { window, standard: Some(text), primary },
            Kind::Primary => ClipboardState::Connected { window, standard, primary: Some(text) },
        },
    }
}

impl Clipboard {
    /// Creates a new [`Clipboard`] for the window with platform identifier
    /// `window`. It holds nothing until something is written to it.
    pub fn connect(window: u64) -> (c: Clipboard)
        ensures
            c@ == (ClipboardState::Connected { window, standard: None, primary: None }),
    {
        Clipboard { state: State::Connected { window, standard: None, primary: None } }
    }

    /// Creates a new [`Clipboard`] that isn't associated with a window.
    /// This clipboard will never contain a copied value.
    pub fn unconnected() -> (c: Clipboard)
        ensures
            c@ == ClipboardState::Unavailable,
    {
        Clipboard { state: State::Unavailable }
    }

    /// Reads the current content of the [`Clipboard`] as text.
    pub fn read(&self, kind: Kind) -> (r: Option<String>)
        ensures
            text_view(r) == contents(self@, kind),
    {
        match &self.state {
            State::Unavailable => None,
            State::Connected { standard, primary, .. } => {
                let slot = match kind {
                    Kind::Standard => standard,
                    Kind::Primary => primary,
                };
                match slot {
                    Some(text) => Some(text.clone()),
                    None => None,
                }
            },
        }
    }

    /// Writes the given text contents to the [`Clipboard`].
    pub fn write(&mut self, kind: Kind, contents: String)
        ensures
            final(self)@ == after_write(old(self)@, kind, contents@),
            old(self)@ is Unavailable ==> final(self)@ is Unavailable,
            window_of(final(self)@) == window_of(old(self)@),
            old(self)@ is Connected ==> crate::clipboard::contents(final(self)@, kind) == Some(contents@),
    {
        match &mut self.state {
            State::Unavailable => {},
            State::Connected { standard, primary, .. } => match kind {
                Kind::Standard => {
                    *standard = Some(contents);
                },
                Kind::Primary => {
                    *primary = Some(contents);
                },
            },
        }
    }

    /// Returns the identifier of the window used to create the [`Clipboard`], if any.
    pub fn window_id(&self) -> (r: Option<u64>)
        ensures
            r == window_of(self@),
    {
        match &self.state {
            State::Unavailable => None,
            State::Connected { window, .. } => Some(*window),
        }
    }
}

/// A connected clipboard gives back the text last written to a kind, and
/// writing to one kind leaves the other kind and the window as they were.
pub proof fn lemma_read_after_write(state: ClipboardState, written: Kind, text: Seq<char>, read: Kind)
    requires
        state is Connected,
    ensures
        contents(after_write(state, written, text), written) == Some(text),
        read != written ==> contents(after_write(state, written, text), read) == contents(state, read),
        window_of(after_write(state, written, text)) == window_of(state),
{
}

/// The state of a clipboard in `state` after each of `writes` (a kind and a
/// text), in order.
pub open spec fn after_writes(state: ClipboardState, writes: Seq<(Kind, Seq<char>)>) -> ClipboardState
    decreases writes.len(),
{
    if writes.len() == 0 {
        state
    } else {
        let (kind, text) = writes.last();
        after_write(after_writes(state, writes.drop_last()), kind, text)
    }
}

/// The text last written to `kind` among `writes`, if any was.
pub open spec fn last_written(writes: Seq<(Kind, Seq<char>)>, kind: Kind) -> Option<Seq<char>>
    decreases writes.len(),
{
    if writes.len() == 0 {
        None
    } else if writes.last().0 == kind {
        Some(writes.last().1)
    } else {
        last_written(writes.drop_last(), kind)
    }
}

/// However many writes an unconnected clipboard takes, of whichever kinds,
/// it stays unconnected: it never gives a copied value back and never
/// belongs to a window.
pub proof fn lemma_unavailable_after_any_writes(writes: Seq<(Kind, Seq<char>)>, read: Kind)
    ensures
        after_writes(ClipboardState::Unavailable, writes) == ClipboardState::Unavailable,
        contents(after_writes(ClipboardState::Unavailable, writes), read) is None,
        window_of(after_writes(ClipboardState::Unavailable, writes)) is None,
    decreases writes.len(),
{
    if writes.len() > 0 {
        lemma_unavailable_after_any_writes(writes.drop_last(), read);
    }
}

/// After any writes, a clipboard connected to `window` with nothing in it
/// still reports `window`, and gives back for each kind the text last
/// written to that kind, or nothing if none was.
pub proof fn lemma_connected_after_any_writes(window: u64, writes: Seq<(Kind, Seq<char>)>, read: Kind)
    ensures
        window_of(after_writes(ClipboardState::Connected { window, standard: None, primary: None }, writes))
            == Some(window),
        contents(after_writes(ClipboardState::Connected { window, standard: None, primary: None }, writes), read)
            == last_written(writes, read),
        after_writes(ClipboardState::Connected { window, standard: None, primary: None }, writes) is Connected,
    decreases writes.len(),
{
    if writes.len() > 0 {
        lemma_connected_after_any_writes(window, writes.drop_last(), read);
    }
}

/// A clipboard created with [`Clipboard::unconnected`] never holds a copied
/// value, whatever is written to it, and belongs to no window.
pub proof fn lemma_unavailable_is_empty(written: Kind, text: Seq<char>, read: Kind)
    ensures
        contents(ClipboardState::Unavailable, read) is None,
        contents(after_write(ClipboardState::Unavailable, written, text), read) is None,
        after_write(ClipboardState::Unavailable, written, text) == ClipboardState::Unavailable,
        window_of(ClipboardState::Unavailable) is None,
{
}

/// A clipboard created for a window reports that window, and nothing that
/// is written to it changes that.
pub proof fn lemma_connected_reports_window(window: u64, written: Kind, text: Seq<char>)
    ensures
        window_of(ClipboardState::Connected { window, standard: None, primary: None }) == Some(window),
        window_of(
            after_write(ClipboardState::Connected { window, standard: None, primary: None }, written, text),
        ) == Some(window),
{
}

} // verus!
