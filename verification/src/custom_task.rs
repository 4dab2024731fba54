use vstd::prelude::*;
use crate::error::Error;
use crate::text::str_eq;
use std::collections::HashMap;

verus! {

broadcast use vstd::std_specs::hash::group_hash_axioms;

/// The identifiers of the webviews that are alive. A response of a custom
/// protocol handler is delivered only while its webview is among them.
pub struct WebViewIds {
    ids: Vec<String>,
}

/// The identifiers in a list, as a set.
pub open spec fn id_set(ids: Seq<String>) -> Set<Seq<char>> {
    Set::new(|n: Seq<char>| exists|i: int| 0 <= i < ids.len() && (#[trigger] ids[i])@ == n)
}

impl WebViewIds {
    pub closed spec fn view(&self) -> Set<Seq<char>> {
        id_set(self.ids@)
    }

    /// No webview is alive.
    pub fn new() -> (w: Self)
        ensures
            w.view() == Set::<Seq<char>>::empty(),
    {
        let w = WebViewIds { ids: Vec::new() };
        assert(w.view() =~= Set::<Seq<char>>::empty());
        w
    }

    fn position(&self, id: &str) -> (pos: Option<usize>)
        ensures
            match pos {
                Some(i) => i < self.ids@.len() && self.ids@[i as int]@ == id@,
                None => !self.view().contains(id@),
            },
    {
        let mut i: usize = 0;
        while i < self.ids.len()
            invariant
                i <= self.ids@.len(),
                forall|j: int| 0 <= j < i ==> (#[trigger] self.ids@[j])@ != id@,
            decreases self.ids.len() - i,
        {
            if str_eq(self.ids[i].as_str(), id) {
                return Some(i);
            }
            i = i + 1;
        }
        proof {
            if self.view().contains(id@) {
                let j = choose|j: int| 0 <= j < self.ids@.len() && (#[trigger] self.ids@[j])@ == id@;
                assert(self.ids@[j]@ != id@);
            }
        }
        None
    }

    /// Whether the webview with this identifier is alive.
    pub fn contains(&self, id: &str) -> (b: bool)
        ensures
            b == self.view().contains(id@),
    {
        match self.position(id) {
            Some(_) => true,
            None => false,
        }
    }

    /// The webview with this identifier was created.
    pub fn insert(&mut self, id: &str)
        ensures
            final(self).view() == old(self).view().insert(id@),
    {
        if !self.contains(id) {
            let ghost before = self.ids@;
            self.ids.push(String::from_str(id));
            assert(self.view() =~= old(self).view().insert(id@)) by {
                assert forall|n: Seq<char>| self.view().contains(n) implies old(self).view().insert(id@).contains(n) by {
                    let j = choose|j: int| 0 <= j < self.ids@.len() && (#[trigger] self.ids@[j])@ == n;
                    if j < before.len() {
                        assert(before[j]@ == n);
                    }
                }
                assert forall|n: Seq<char>| old(self).view().insert(id@).contains(n) implies self.view().contains(n) by {
                    if n == id@ {
                        assert(self.ids@[before.len() as int]@ == n);
                    } else {
                        let j = choose|j: int| 0 <= j < before.len() && (#[trigger] before[j])@ == n;
                        assert(self.ids@[j]@ == n);
                    }
                }
            }
        } else {
            assert(old(self).view().insert(id@) =~= old(self).view());
        }
    }

    /// How many identifiers are stored.
    pub closed spec fn spec_len(&self) -> nat {
        self.ids@.len()
    }

    /// The webview with this identifier was dropped.
    pub fn remove(&mut self, id: &str)
        ensures
            final(self).view() == old(self).view().remove(id@),
        decreases old(self).spec_len(),
    {
        match self.position(id) {
            Some(i) => {
                let ghost before = self.ids@;
                self.ids.remove(i);
                assert(forall|j: int| 0 <= j < self.ids@.len() ==> #[trigger] self.ids@[j] == before[if j < i { j } else { j + 1 }]);
                let ghost mid = self.view();
                assert forall|n: Seq<char>| n != id@ implies (mid.contains(n) <==> id_set(before).contains(n)) by {
                    if mid.contains(n) {
                        let j = choose|j: int| 0 <= j < self.ids@.len() && (#[trigger] self.ids@[j])@ == n;
                        let k = if j < i { j } else { j + 1 };
                        assert(before[k]@ == n);
                    }
                    if id_set(before).contains(n) {
                        let k = choose|k: int| 0 <= k < before.len() && (#[trigger] before[k])@ == n;
                        assert(k != i);
                        let j = if k < i { k } else { k - 1 };
                        assert(self.ids@[j]@ == n);
                    }
                }
                self.remove(id);
                assert(self.view() =~= old(self).view().remove(id@));
            },
            None => {
                assert(old(self).view().remove(id@) =~= old(self).view());
            },
        }
    }
}

/// A webview's record of the custom protocol tasks it has started: for each task
/// key, the identifier of the latest task that used it. Identifiers are issued
/// by the webview in increasing order, so no two tasks it starts share one.
pub struct WryWebView {
    is_child: bool,
    accept_first_mouse: bool,
    custom_protocol_task_ids: HashMap<usize, u128>,
    next_task_uuid: u128,
}

impl WryWebView {
    /// The latest task identifier of each task key.
    pub closed spec fn tasks(&self) -> Map<usize, u128> {
        self.custom_protocol_task_ids@
    }

    pub closed spec fn spec_is_child(&self) -> bool {
        self.is_child
    }

    pub closed spec fn spec_accept_first_mouse(&self) -> bool {
        self.accept_first_mouse
    }

    /// The identifier the next task will get; every identifier issued so far
    /// is smaller.
    pub closed spec fn spec_next_uuid(&self) -> u128 {
        self.next_task_uuid
    }

    pub closed spec fn wf(&self) -> bool {
        forall|k: usize| #[trigger] self.custom_protocol_task_ids@.contains_key(k)
            ==> self.custom_protocol_task_ids@[k] < self.next_task_uuid
    }

    /// A webview with no task started yet.
    pub fn new(is_child: bool, accept_first_mouse: bool) -> (w: Self)
        ensures
            w.wf(),
            w.tasks() == Map::<usize, u128>::empty(),
            w.spec_is_child() == is_child,
            w.spec_accept_first_mouse() == accept_first_mouse,
    {
        WryWebView { is_child, accept_first_mouse, custom_protocol_task_ids: HashMap::new(), next_task_uuid: 0 }
    }

    /// Whether a key equivalent goes to the web content: a child webview lets the
    /// window handle it, any other webview lets the engine decide.
    pub fn perform_key_equivalent_in_webview(&self) -> (b: bool)
        ensures
            b == !self.spec_is_child(),
    {
        !self.is_child
    }

    /// Whether a click that activates the window also reaches the web content.
    pub fn accept_first_mouse(&self) -> (b: bool)
        ensures
            b == self.spec_accept_first_mouse(),
    {
        self.accept_first_mouse
    }

    /// Starts a task with this key: issues a new identifier for it, larger than
    /// every identifier issued before, and records it as the identifier of the
    /// latest task with this key, replacing an earlier one.
    pub fn add_custom_task_key(&mut self, task_id: usize) -> (uuid: u128)
        requires
            old(self).wf(),
            old(self).spec_next_uuid() < u128::MAX,
        ensures
            final(self).wf(),
            uuid == old(self).spec_next_uuid(),
            final(self).spec_next_uuid() == uuid + 1,
            forall|k: usize| #[trigger] old(self).tasks().contains_key(k) ==> old(self).tasks()[k] < uuid,
            final(self).tasks() == old(self).tasks().insert(task_id, uuid),
            final(self).spec_is_child() == old(self).spec_is_child(),
            final(self).spec_accept_first_mouse() == old(self).spec_accept_first_mouse(),
    {
        let task_uuid = self.next_task_uuid;
        self.custom_protocol_task_ids.insert(task_id, task_uuid);
        self.next_task_uuid = task_uuid + 1;
        task_uuid
    }

    /// Forgets the task with this key.
    pub fn remove_custom_task_key(&mut self, task_id: usize)
        requires
            old(self).wf(),
        ensures
            final(self).wf(),
            final(self).tasks() == old(self).tasks().remove(task_id),
            final(self).spec_next_uuid() == old(self).spec_next_uuid(),
            final(self).spec_is_child() == old(self).spec_is_child(),
            final(self).spec_accept_first_mouse() == old(self).spec_accept_first_mouse(),
    {
        self.custom_protocol_task_ids.remove(&task_id);
    }

    /// The identifier of the latest task with this key, if it is still running.
    pub fn get_custom_task_uuid(&self, task_id: usize) -> (uuid: Option<u128>)
        ensures
            uuid == (if self.tasks().contains_key(task_id) { Some(self.tasks()[task_id]) } else { None }),
    {
        match self.custom_protocol_task_ids.get(&task_id) {
            Some(u) => Some(*u),
            None => None,
        }
    }
}

/// Whether a response of a custom protocol handler may still be delivered to the
/// task it was started for: the task with that key must still be running and be
/// the same task, not a later one that reuses the key.
pub open spec fn task_is_valid(tasks: Map<usize, u128>, task_key: usize, task_uuid: u128) -> bool {
    tasks.contains_key(task_key) && tasks[task_key] == task_uuid
}

/// Checks that the task a response is meant for is still the latest with its key.
pub fn check_task_is_valid(webview: &WryWebView, task_key: usize, current_uuid: u128) -> (r: Result<(), Error>)
    ensures
        r is Ok <==> task_is_valid(webview.tasks(), task_key, current_uuid),
        r is Err ==> r == Err::<(), Error>(Error::CustomProtocolTaskInvalid),
{
    match webview.get_custom_task_uuid(task_key) {
        Some(latest) => {
            if latest != current_uuid {
                Err(Error::CustomProtocolTaskInvalid)
            } else {
                Ok(())
            }
        },
        None => Err(Error::CustomProtocolTaskInvalid),
    }
}

/// Checks that the webview a response is meant for is still alive.
pub fn check_webview_id_valid(ids: &WebViewIds, webview_id: &str) -> (r: Result<(), Error>)
    ensures
        r is Ok <==> ids.view().contains(webview_id@),
        r is Err ==> r == Err::<(), Error>(Error::CustomProtocolTaskInvalid),
{
    if !ids.contains(webview_id) {
        return Err(Error::CustomProtocolTaskInvalid);
    }
    Ok(())
}

/// Whether a response may be delivered: the webview is alive and the task is
/// still the one the response is meant for.
pub open spec fn delivery_allowed(
    ids: Set<Seq<char>>,
    tasks: Map<usize, u128>,
    webview_id: Seq<char>,
    task_key: usize,
    task_uuid: u128,
) -> bool {
    ids.contains(webview_id) && task_is_valid(tasks, task_key, task_uuid)
}

/// What is verified before each step of delivering a response: the webview is
/// alive and the task is still the one the response is meant for.
pub fn check_delivery(ids: &WebViewIds, webview: &WryWebView, webview_id: &str, task_key: usize, task_uuid: u128) -> (r: Result<(), Error>)
    ensures
        r is Ok <==> delivery_allowed(ids.view(), webview.tasks(), webview_id@, task_key, task_uuid),
        r is Err ==> r == Err::<(), Error>(Error::CustomProtocolTaskInvalid),
{
    check_webview_id_valid(ids, webview_id)?;
    check_task_is_valid(webview, task_key, task_uuid)
}

/// The response was delivered: while the webview is alive its task is
/// forgotten; otherwise the task is reported invalid.
pub fn finish_task(ids: &WebViewIds, webview: &mut WryWebView, webview_id: &str, task_key: usize) -> (r: Result<(), Error>)
    requires
        old(webview).wf(),
    ensures
        final(webview).wf(),
        ids.view().contains(webview_id@) ==> r is Ok && final(webview).tasks() == old(webview).tasks().remove(task_key),
        !ids.view().contains(webview_id@) ==> r == Err::<(), Error>(Error::CustomProtocolTaskInvalid)
            && final(webview).tasks() == old(webview).tasks(),
{
    if ids.contains(webview_id) {
        webview.remove_custom_task_key(task_key);
        Ok(())
    } else {
        Err(Error::CustomProtocolTaskInvalid)
    }
}

/// A response handler given out for the task started with identifier `uuid`
/// under `key` delivers while its webview is alive and no other task took the
/// key, and is refused from the moment the task is stopped, its webview is
/// dropped, or a task started later (whose identifier is larger) reuses the key.
pub proof fn stale_responders_are_refused(
    ids: Set<Seq<char>>,
    tasks: Map<usize, u128>,
    webview_id: Seq<char>,
    key: usize,
    uuid: u128,
    later_uuid: u128,
)
    requires
        uuid < later_uuid,
    ensures
        delivery_allowed(ids, tasks.insert(key, uuid), webview_id, key, uuid) == ids.contains(webview_id),
        !delivery_allowed(ids, tasks.insert(key, uuid).remove(key), webview_id, key, uuid),
        !delivery_allowed(ids.remove(webview_id), tasks.insert(key, uuid), webview_id, key, uuid),
        !delivery_allowed(ids, tasks.insert(key, uuid).insert(key, later_uuid), webview_id, key, uuid),
        delivery_allowed(ids, tasks.insert(key, uuid).insert(key, later_uuid), webview_id, key, later_uuid)
            == ids.contains(webview_id),
{
}

} // verus!
