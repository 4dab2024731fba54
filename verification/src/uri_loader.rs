use vstd::prelude::*;

verus! {

/// Loads URIs into webviews of one context one at a time.
///
/// Loading several URIs in the same context at once lets the content meant for
/// one webview end up in another, so loads are queued: a load starts only when
/// none is under way, and the next one starts when it finishes.
pub struct WebviewUriLoader<W> {
    lock: bool,
    queue: Vec<(W, String)>,
}

/// A queued load, with the URI by its characters.
pub open spec fn load_view<W>(entry: (W, String)) -> (W, Seq<char>) {
    (entry.0, entry.1@)
}

impl<W> WebviewUriLoader<W> {
    /// Whether a load is under way.
    pub closed spec fn spec_locked(&self) -> bool {
        self.lock
    }

    /// The loads waiting, oldest first.
    pub closed spec fn spec_queue(&self) -> Seq<(W, Seq<char>)> {
        self.queue@.map_values(|e: (W, String)| load_view(e))
    }

    /// The same loader with no load under way.
    pub closed spec fn unlocked(self) -> Self {
        WebviewUriLoader { lock: false, queue: self.queue }
    }

    /// The loader with no load under way keeps its queue.
    pub proof fn lemma_unlocked(self)
        ensures
            !self.unlocked().spec_locked(),
            self.unlocked().spec_queue() == self.spec_queue(),
    {
    }

    /// What a flush does: with a load under way nothing changes and nothing
    /// starts; otherwise the oldest waiting load starts and the loader stays
    /// locked until it finishes, and with nothing waiting the loader is unlocked.
    pub open spec fn flushed(before: Self, after: Self, next: Option<(W, String)>) -> bool {
        if before.spec_locked() {
            &&& next is None
            &&& after.spec_locked()
            &&& after.spec_queue() == before.spec_queue()
        } else if before.spec_queue().len() == 0 {
            &&& next is None
            &&& !after.spec_locked()
            &&& after.spec_queue() == before.spec_queue()
        } else {
            &&& next matches Some(n) && load_view(n) == before.spec_queue()[0]
            &&& after.spec_locked()
            &&& after.spec_queue() == before.spec_queue().drop_first()
        }
    }

    /// An idle loader with nothing waiting.
    pub fn new() -> (l: Self)
        ensures
            !l.spec_locked(),
            l.spec_queue().len() == 0,
    {
        WebviewUriLoader { lock: false, queue: Vec::new() }
    }

    /// Engages the lock and tells whether it was already engaged.
    fn is_locked(&mut self) -> (was: bool)
        ensures
            was == old(self).lock,
            final(self).lock,
            final(self).queue == old(self).queue,
    {
        let was = self.lock;
        self.lock = true;
        was
    }

    /// Releases the lock.
    fn unlock(&mut self)
        ensures
            !final(self).lock,
            final(self).queue == old(self).queue,
    {
        self.lock = false;
    }

    /// Adds a load at the end of the queue.
    pub fn push(&mut self, webview: W, url: String)
        ensures
            final(self).spec_queue() == old(self).spec_queue().push((webview, url@)),
            final(self).spec_locked() == old(self).spec_locked(),
    {
        self.queue.push((webview, url));
        assert(self.spec_queue() =~= old(self).spec_queue().push((webview, url@)));
    }

    /// What taking the oldest load off the queue does: nothing comes off an
    /// empty queue; otherwise the oldest load comes off and the rest stay, in
    /// order. Whether a load is under way does not change.
    pub open spec fn popped(before: Self, after: Self, e: Option<(W, String)>) -> bool {
        &&& after.spec_locked() == before.spec_locked()
        &&& if before.spec_queue().len() == 0 {
            &&& e is None
            &&& after.spec_queue() == before.spec_queue()
        } else {
            &&& e matches Some(x) && load_view(x) == before.spec_queue()[0]
            &&& after.spec_queue() == before.spec_queue().drop_first()
        }
    }

    /// Takes the oldest load off the queue.
    pub fn pop(&mut self) -> (e: Option<(W, String)>)
        ensures
            Self::popped(*old(self), *final(self), e),
    {
        if self.queue.len() == 0 {
            None
        } else {
            let e = self.queue.remove(0);
            assert(self.queue@ =~= old(self).queue@.drop_first());
            assert(self.spec_queue() =~= old(self).spec_queue().drop_first());
            Some(e)
        }
    }

    /// Starts the next load if none is under way; returns the webview and the URI
    /// to load now, if any.
    pub fn flush(&mut self) -> (next: Option<(W, String)>)
        ensures
            Self::flushed(*old(self), *final(self), next),
    {
        if !self.is_locked() {
            let next = self.pop();
            match next {
                Some(n) => {
                    assert(self.spec_queue() =~= old(self).spec_queue().drop_first());
                    Some(n)
                },
                None => {
                    self.unlock();
                    None
                },
            }
        } else {
            None
        }
    }

    /// The load under way has finished: unlocks and starts the next load, if any.
    pub fn load_finished(&mut self) -> (next: Option<(W, String)>)
        ensures
            Self::flushed(old(self).unlocked(), *final(self), next),
    {
        self.unlock();
        assert(*self == old(self).unlocked());
        self.flush()
    }
}

/// At most one load is under way: flushing while a load is under way starts none,
/// and loads start in the order they were queued.
pub proof fn loads_start_one_at_a_time_in_order<W>(
    before: WebviewUriLoader<W>,
    after: WebviewUriLoader<W>,
    next: Option<(W, String)>,
)
    requires
        WebviewUriLoader::flushed(before, after, next),
    ensures
        before.spec_locked() ==> next is None,
        next matches Some(n) ==> before.spec_queue().len() > 0 && load_view(n) == before.spec_queue()[0],
        next is Some ==> after.spec_locked(),
        after.spec_queue().len() + (if next is Some { 1int } else { 0int }) == before.spec_queue().len(),
{
}

/// Loads start first in, first out, each once: on an idle loader with nothing
/// waiting, queue two loads; a flush starts the first, its finish starts the
/// second, and the second's finish starts none and leaves the loader idle.
pub proof fn queued_loads_start_first_in_first_out<W>(
    l0: WebviewUriLoader<W>,
    l1: WebviewUriLoader<W>,
    l2: WebviewUriLoader<W>,
    l3: WebviewUriLoader<W>,
    l4: WebviewUriLoader<W>,
    l5: WebviewUriLoader<W>,
    first: (W, Seq<char>),
    second: (W, Seq<char>),
    n1: Option<(W, String)>,
    n2: Option<(W, String)>,
    n3: Option<(W, String)>,
)
    requires
        !l0.spec_locked(),
        l0.spec_queue().len() == 0,
        l1.spec_queue() == l0.spec_queue().push(first),
        l1.spec_locked() == l0.spec_locked(),
        l2.spec_queue() == l1.spec_queue().push(second),
        l2.spec_locked() == l1.spec_locked(),
        WebviewUriLoader::flushed(l2, l3, n1),
        WebviewUriLoader::flushed(l3.unlocked(), l4, n2),
        WebviewUriLoader::flushed(l4.unlocked(), l5, n3),
    ensures
        n1 matches Some(n) && load_view(n) == first,
        n2 matches Some(n) && load_view(n) == second,
        n3 is None,
        !l5.spec_locked(),
        l5.spec_queue().len() == 0,
{
    l3.lemma_unlocked();
    l4.lemma_unlocked();
    assert(l2.spec_queue() =~= seq![first, second]);
    assert(l3.spec_queue() =~= seq![second]);
    assert(l4.spec_queue() =~= Seq::<(W, Seq<char>)>::empty());
}

/// The queue is first in, first out, and gives each load once: on an empty
/// queue, push two loads; they come off in the order they were pushed, and
/// then nothing comes off.
pub proof fn queue_pops_first_in_first_out<W>(
    l0: WebviewUriLoader<W>,
    l1: WebviewUriLoader<W>,
    l2: WebviewUriLoader<W>,
    l3: WebviewUriLoader<W>,
    l4: WebviewUriLoader<W>,
    l5: WebviewUriLoader<W>,
    first: (W, Seq<char>),
    second: (W, Seq<char>),
    e1: Option<(W, String)>,
    e2: Option<(W, String)>,
    e3: Option<(W, String)>,
)
    requires
        l0.spec_queue().len() == 0,
        l1.spec_queue() == l0.spec_queue().push(first),
        l2.spec_queue() == l1.spec_queue().push(second),
        WebviewUriLoader::popped(l2, l3, e1),
        WebviewUriLoader::popped(l3, l4, e2),
        WebviewUriLoader::popped(l4, l5, e3),
    ensures
        e1 matches Some(x) && load_view(x) == first,
        e2 matches Some(x) && load_view(x) == second,
        e3 is None,
        l5.spec_queue().len() == 0,
{
    assert(l2.spec_queue() =~= seq![first, second]);
    assert(l3.spec_queue() =~= seq![second]);
    assert(l4.spec_queue() =~= Seq::<(W, Seq<char>)>::empty());
}

} // verus!
