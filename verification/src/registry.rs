//! The worker's registry of live windows and webviews.
//!
//! The toolkit's window and webview objects stay with the event loop. The
//! registry holds what the rules need to know of them: under which handle a
//! window is known to the host, which native window it is, and which handles
//! have a webview.

use std::collections::HashMap;
use std::collections::HashSet;
use vstd::prelude::*;

verus! {

/// The windows and webviews that the worker holds, by handle.
pub struct WindowManager {
    windows: HashMap<u32, u64>,
    natives: HashMap<u64, u32>,
    webviews: HashSet<u32>,
}

/// The registry after the handle `window_id` was retired: the window and
/// its webview are gone, and so is the way back from the window's native
/// identity where that led to this handle.
pub open spec fn windows_after_removal(windows: Map<u32, u64>, window_id: u32) -> Map<u32, u64> {
    windows.remove(window_id)
}

/// The native identities after the handle `window_id` was retired.
pub open spec fn natives_after_removal(
    windows: Map<u32, u64>,
    natives: Map<u64, u32>,
    window_id: u32,
) -> Map<u64, u32> {
    if windows.contains_key(window_id) && natives.contains_key(windows[window_id])
        && natives[windows[window_id]] == window_id {
        natives.remove(windows[window_id])
    } else {
        natives
    }
}

/// The webviews after the handle `window_id` was retired.
pub open spec fn webviews_after_removal(
    windows: Map<u32, u64>,
    webviews: Set<u32>,
    window_id: u32,
) -> Set<u32> {
    if windows.contains_key(window_id) {
        webviews.remove(window_id)
    } else {
        webviews
    }
}

/// Whether every way back is true: each native identity leads to a handle
/// whose window has that identity.
pub open spec fn ways_back_hold(windows: Map<u32, u64>, natives: Map<u64, u32>) -> bool {
    forall|native_id: u64|
        natives.contains_key(native_id) ==> windows.contains_key(#[trigger] natives[native_id])
            && windows[natives[native_id]] == native_id
}

impl WindowManager {
    /// Every way back from a native identity is true. [`WindowManager::new`]
    /// establishes this and every method keeps it.
    pub open spec fn well_formed(&self) -> bool {
        ways_back_hold(self.windows(), self.natives())
    }

    /// The registered windows: handle to native identity.
    pub closed spec fn windows(&self) -> Map<u32, u64> {
        self.windows@
    }

    /// The native identities that the worker can map back: native identity
    /// to handle.
    pub closed spec fn natives(&self) -> Map<u64, u32> {
        self.natives@
    }

    /// The handles that have a webview.
    pub closed spec fn webviews(&self) -> Set<u32> {
        self.webviews@
    }

    /// An empty registry.
    pub fn new() -> (manager: Self)
        ensures
            manager.well_formed(),
            manager.windows() == Map::<u32, u64>::empty(),
            manager.natives() == Map::<u64, u32>::empty(),
            manager.webviews() == Set::<u32>::empty(),
    {
        WindowManager { windows: HashMap::new(), natives: HashMap::new(), webviews: HashSet::new() }
    }

    /// Registers the window with native identity `native_id` under the
    /// handle `window_id`. An earlier window under that handle is replaced,
    /// and the way back from its native identity is forgotten.
    pub fn add_window(&mut self, window_id: u32, native_id: u64)
        requires
            old(self).well_formed(),
        ensures
            final(self).well_formed(),
            final(self).windows() == old(self).windows().insert(window_id, native_id),
            final(self).natives() == natives_after_removal(
                old(self).windows(),
                old(self).natives(),
                window_id,
            ).insert(native_id, window_id),
            final(self).webviews() == old(self).webviews(),
    {
        broadcast use vstd::std_specs::hash::group_hash_axioms;

        match self.windows.insert(window_id, native_id) {
            Some(earlier) => {
                let leads_here = match self.natives.get(&earlier) {
                    Some(handle) => *handle == window_id,
                    None => false,
                };
                if leads_here {
                    self.natives.remove(&earlier);
                }
            },
            None => {},
        }
        self.natives.insert(native_id, window_id);
        proof {
            lemma_registration_keeps_ways_back(
                old(self).windows(),
                old(self).natives(),
                window_id,
                native_id,
            );
        }
    }

    /// Registers a webview for the handle `window_id`.
    pub fn add_webview(&mut self, window_id: u32)
        requires
            old(self).well_formed(),
        ensures
            final(self).well_formed(),
            final(self).webviews() == old(self).webviews().insert(window_id),
            final(self).windows() == old(self).windows(),
            final(self).natives() == old(self).natives(),
    {
        broadcast use vstd::std_specs::hash::group_hash_axioms;

        self.webviews.insert(window_id);
    }

    /// Whether a window is registered under `window_id`.
    pub fn has_window(&self, window_id: u32) -> (known: bool)
        ensures
            known == self.windows().contains_key(window_id),
    {
        broadcast use vstd::std_specs::hash::group_hash_axioms;

        self.windows.contains_key(&window_id)
    }

    /// Whether a webview is registered for `window_id`.
    pub fn has_webview(&self, window_id: u32) -> (known: bool)
        ensures
            known == self.webviews().contains(window_id),
    {
        broadcast use vstd::std_specs::hash::group_hash_axioms;

        self.webviews.contains(&window_id)
    }

    /// The native identity of the window under `window_id`.
    pub fn get_window(&self, window_id: u32) -> (native_id: Option<u64>)
        ensures
            native_id == if self.windows().contains_key(window_id) {
                Some(self.windows()[window_id])
            } else {
                None
            },
    {
        broadcast use vstd::std_specs::hash::group_hash_axioms;

        match self.windows.get(&window_id) {
            Some(native_id) => Some(*native_id),
            None => None,
        }
    }

    /// The handle of the window with the native identity `native_id`.
    pub fn get_window_id(&self, native_id: u64) -> (window_id: Option<u32>)
        ensures
            window_id == if self.natives().contains_key(native_id) {
                Some(self.natives()[native_id])
            } else {
                None
            },
    {
        broadcast use vstd::std_specs::hash::group_hash_axioms;

        match self.natives.get(&native_id) {
            Some(window_id) => Some(*window_id),
            None => None,
        }
    }

    /// The number of registered windows.
    pub fn window_count(&self) -> (count: usize)
        ensures
            count == self.windows().len(),
    {
        broadcast use vstd::std_specs::hash::group_hash_axioms;

        self.windows.len()
    }
}

impl WindowManager {
    /// Retires the handle `window_id`. Nothing changes where no window is
    /// registered under it.
    pub fn remove_window(&mut self, window_id: u32)
        requires
            old(self).well_formed(),
        ensures
            final(self).well_formed(),
            final(self).windows() == windows_after_removal(old(self).windows(), window_id),
            final(self).natives() == natives_after_removal(
                old(self).windows(),
                old(self).natives(),
                window_id,
            ),
            final(self).webviews() == webviews_after_removal(
                old(self).windows(),
                old(self).webviews(),
                window_id,
            ),
    {
        broadcast use vstd::std_specs::hash::group_hash_axioms;

        match self.windows.remove(&window_id) {
            Some(native_id) => {
                let leads_here = match self.natives.get(&native_id) {
                    Some(handle) => *handle == window_id,
                    None => false,
                };
                if leads_here {
                    self.natives.remove(&native_id);
                }
                self.webviews.remove(&window_id);
                assert(self.windows@ =~= old(self).windows@.remove(window_id));
                assert(self.webviews@ =~= old(self).webviews@.remove(window_id));
            },
            None => {
                assert(self.windows@ =~= old(self).windows@.remove(window_id));
            },
        }
        proof {
            lemma_removal_keeps_ways_back(old(self).windows(), old(self).natives(), window_id);
        }
    }
}

/// Registering a window keeps every way back true.
pub proof fn lemma_registration_keeps_ways_back(
    windows: Map<u32, u64>,
    natives: Map<u64, u32>,
    window_id: u32,
    native_id: u64,
)
    requires
        ways_back_hold(windows, natives),
    ensures
        ways_back_hold(
            windows.insert(window_id, native_id),
            natives_after_removal(windows, natives, window_id).insert(native_id, window_id),
        ),
{
    let after = natives_after_removal(windows, natives, window_id).insert(native_id, window_id);
    assert forall|n: u64| after.contains_key(n) implies windows.insert(
        window_id,
        native_id,
    ).contains_key(#[trigger] after[n]) && windows.insert(window_id, native_id)[after[n]] == n by {
        if n != native_id {
            assert(natives.contains_key(n));
            assert(windows.contains_key(natives[n]));
        }
    }
}

/// Retiring a handle keeps every way back true, and afterwards no native
/// identity leads to the retired handle.
pub proof fn lemma_removal_keeps_ways_back(
    windows: Map<u32, u64>,
    natives: Map<u64, u32>,
    window_id: u32,
)
    requires
        ways_back_hold(windows, natives),
    ensures
        ways_back_hold(
            windows_after_removal(windows, window_id),
            natives_after_removal(windows, natives, window_id),
        ),
        forall|n: u64|
            natives_after_removal(windows, natives, window_id).contains_key(n)
                ==> #[trigger] natives_after_removal(windows, natives, window_id)[n] != window_id,
{
    let after = natives_after_removal(windows, natives, window_id);
    assert forall|n: u64| after.contains_key(n) implies windows_after_removal(
        windows,
        window_id,
    ).contains_key(#[trigger] after[n]) && windows_after_removal(windows, window_id)[after[n]] == n
        && after[n] != window_id by {
        assert(natives.contains_key(n));
        assert(windows.contains_key(natives[n]));
    }
}

/// Retiring one handle leaves every other handle as it was: its window,
/// its native identity and its webview.
pub proof fn lemma_removal_spares_others(
    windows: Map<u32, u64>,
    natives: Map<u64, u32>,
    webviews: Set<u32>,
    retired: u32,
    other: u32,
)
    requires
        other != retired,
    ensures
        windows_after_removal(windows, retired).contains_key(other) == windows.contains_key(other),
        windows.contains_key(other) ==> windows_after_removal(windows, retired)[other]
            == windows[other],
        webviews_after_removal(windows, webviews, retired).contains(other) == webviews.contains(
            other,
        ),
        forall|n: u64|
            natives.contains_key(n) && natives[n] == other ==> natives_after_removal(
                windows,
                natives,
                retired,
            ).contains_key(n) && #[trigger] natives_after_removal(windows, natives, retired)[n]
                == other,
{
}

} // verus!
