use vstd::prelude::*;
use std::collections::HashMap;

verus! {

broadcast use vstd::std_specs::hash::group_hash_axioms;

/// The visual targets registered for windows whose webview is not built yet,
/// by window handle: registering again for a window replaces its entry, and the
/// first webview built on the window takes it.
pub struct PendingVisualTargets<V> {
    entries: HashMap<isize, V>,
}

impl<V> PendingVisualTargets<V> {
    pub closed spec fn view(&self) -> Map<isize, V> {
        self.entries@
    }

    /// Nothing registered.
    pub fn new() -> (t: Self)
        ensures
            t.view() == Map::<isize, V>::empty(),
    {
        PendingVisualTargets { entries: HashMap::new() }
    }

    /// Takes the visual registered for a window, if any; it is gone afterwards.
    pub fn take(&mut self, hwnd: isize) -> (v: Option<V>)
        ensures
            final(self).view() == old(self).view().remove(hwnd),
            old(self).view().contains_key(hwnd) ==> v == Some(old(self).view()[hwnd]),
            !old(self).view().contains_key(hwnd) ==> v is None,
    {
        self.entries.remove(&hwnd)
    }

    /// Registers the visual for a window, replacing a pending one.
    pub fn register(&mut self, hwnd: isize, visual: V)
        ensures
            final(self).view() == old(self).view().insert(hwnd, visual),
    {
        let _ = self.entries.insert(hwnd, visual);
    }
}

/// A registered visual is taken once: taking right after registering gives it,
/// and taking again gives nothing.
pub proof fn registered_visual_is_taken_once<V>(targets: Map<isize, V>, hwnd: isize, visual: V)
    ensures
        targets.insert(hwnd, visual).contains_key(hwnd),
        targets.insert(hwnd, visual)[hwnd] == visual,
        !targets.insert(hwnd, visual).remove(hwnd).contains_key(hwnd),
{
}

} // verus!
