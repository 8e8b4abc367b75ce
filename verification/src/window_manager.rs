//! The registry of open windows: which windows exist, and which
//! platform window belongs to which application window.
use vstd::prelude::*;
use std::collections::BTreeMap;

verus! {

broadcast use vstd::std_specs::btree::group_btree_axioms;

/// What the registry remembers of one open window.
#[derive(Clone, Copy, Debug, PartialEq, Eq, Structural)]
pub struct WindowRecord {
    /// The identifier the platform gave to the window.
    pub alias: u64,
    /// Whether a close request on this window should close it.
    pub exit_on_close_request: bool,
}

/// The abstract contents of a [`WindowManager`].
pub struct WindowManagerView {
    /// Application window identifier to its record.
    pub entries: Map<u64, WindowRecord>,
    /// Platform window identifier to application window identifier.
    pub aliases: Map<u64, u64>,
}

/// The windows that an application instance has open, keyed by their
/// application identifier, with a second index from platform identifiers.
pub struct WindowManager {
    entries: BTreeMap<u64, WindowRecord>,
    aliases: BTreeMap<u64, u64>,
}

/// The application window that a platform window identifier stands for:
/// the alias must be known and its window still registered.
pub open spec fn alias_lookup(v: WindowManagerView, alias: u64) -> Option<u64> {
    if v.aliases.contains_key(alias) && v.entries.contains_key(v.aliases[alias]) {
        Some(v.aliases[alias])
    } else {
        None
    }
}

/// The last window in identifier order, if any window is open.
pub open spec fn last_window(v: WindowManagerView) -> Option<u64> {
    if v.entries.dom().is_empty() {
        None
    } else {
        Some(choose|id: u64| v.entries.contains_key(id) && forall|other: u64| #[trigger] v.entries.contains_key(other) ==> other <= id)
    }
}

/// The last window of a registry that holds a window is registered and no
/// registered window comes after it.
pub proof fn lemma_last_window(v: WindowManagerView)
    requires
        !v.entries.dom().is_empty(),
    ensures
        last_window(v) is Some,
        v.entries.contains_key(last_window(v)->0),
        forall|other: u64| #[trigger] v.entries.contains_key(other) ==> other <= last_window(v)->0,
{
    let x = v.entries.dom().choose();
    lemma_greatest_exists(v.entries.dom(), x, u64::MAX as int);
}

/// A set of `u64` that holds `x` and nothing above `hi` has a greatest element.
proof fn lemma_greatest_exists(s: Set<u64>, x: u64, hi: int)
    requires
        s.contains(x),
        x <= hi <= u64::MAX,
        forall|y: u64| #[trigger] s.contains(y) ==> y <= hi,
    ensures
        exists|m: u64| s.contains(m) && forall|y: u64| #[trigger] s.contains(y) ==> y <= m,
    decreases hi - x,
{
    if hi == x {
        assert(s.contains(x) && forall|y: u64| #[trigger] s.contains(y) ==> y <= x);
    } else {
        let top = hi as u64;
        if s.contains(top) {
            assert(s.contains(top) && forall|y: u64| #[trigger] s.contains(y) ==> y <= top);
        } else {
            lemma_greatest_exists(s, x, hi - 1);
        }
    }
}

impl View for WindowManager {
    type V = WindowManagerView;

    closed spec fn view(&self) -> WindowManagerView {
        WindowManagerView { entries: self.entries@, aliases: self.aliases@ }
    }
}

impl WindowManager {
    /// Creates an empty registry.
    pub fn new() -> (m: WindowManager)
        ensures
            m@.entries == Map::<u64, WindowRecord>::empty(),
            m@.aliases == Map::<u64, u64>::empty(),
    {
        WindowManager { entries: BTreeMap::new(), aliases: BTreeMap::new() }
    }

    /// Registers window `id`, known to the platform as `alias`. A window
    /// already registered under `id` is replaced.
    pub fn insert(&mut self, id: u64, alias: u64, exit_on_close_request: bool)
        ensures
            final(self)@.entries == old(self)@.entries.insert(
                id,
                WindowRecord { alias, exit_on_close_request },
            ),
            final(self)@.aliases == old(self)@.aliases.insert(alias, id),
    {
        let _ = self.aliases.insert(alias, id);
        let _ = self.entries.insert(id, WindowRecord { alias, exit_on_close_request });
    }

    /// The record of window `id`, if it is registered.
    pub fn get(&self, id: u64) -> (r: Option<WindowRecord>)
        ensures
            r == (if self@.entries.contains_key(id) { Some(self@.entries[id]) } else { None }),
    {
        match self.entries.get(&id) {
            Some(rec) => Some(*rec),
            None => None,
        }
    }

    /// The application window that platform window `alias` stands for.
    pub fn get_alias(&self, alias: u64) -> (r: Option<u64>)
        ensures
            r == alias_lookup(self@, alias),
    {
        match self.aliases.get(&alias) {
            Some(id) => {
                let id: u64 = *id;
                if self.entries.contains_key(&id) {
                    Some(id)
                } else {
                    None
                }
            },
            None => None,
        }
    }

    /// Whether no window is registered.
    pub fn is_empty(&self) -> (r: bool)
        ensures
            r == self@.entries.dom().is_empty(),
    {
        self.entries.is_empty()
    }

    /// The registered window with the greatest identifier, if any.
    pub fn last(&self) -> (r: Option<u64>)
        ensures
            r == last_window(self@),
    {
        let mut best: Option<u64> = None;
        for k in it: self.entries.keys()
            invariant
                match best {
                    None => it.index() == 0,
                    Some(b) => self.entries@.contains_key(b) && forall|i: int| 0 <= i < it.index() ==> *#[trigger] it.seq()[i] <= b,
                },
        {
            let k: u64 = *k;
            match best {
                None => { best = Some(k); },
                Some(b) => { if k > b { best = Some(k); } },
            }
        }
        proof {
            if let Some(b) = best {
                let c = choose|id: u64| self@.entries.contains_key(id) && forall|other: u64| #[trigger] self@.entries.contains_key(other) ==> other <= id;
                assert(self@.entries.contains_key(b) && forall|other: u64| #[trigger] self@.entries.contains_key(other) ==> other <= b);
                assert(c == b);
            }
        }
        best
    }
}

} // verus!
