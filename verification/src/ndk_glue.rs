use vstd::prelude::*;

verus! {

/// The part of the native window that holds the content, in pixels.
#[derive(Clone, Copy, Debug, Default, PartialEq, Eq, Structural)]
pub struct Rect {
    pub left: u32,
    pub top: u32,
    pub right: u32,
    pub bottom: u32,
}

/// A lifecycle event of the native activity, in the order the platform sent it.
#[derive(Clone, Copy, Debug, PartialEq, Eq, Structural)]
pub enum Event {
    Start,
    Resume,
    SaveInstanceState,
    Pause,
    Stop,
    Destroy,
    ConfigChanged,
    LowMemory,
    WindowLostFocus,
    WindowHasFocus,
    WindowCreated,
    WindowResized,
    WindowRedrawNeeded,
    /// The native window is about to be freed.
    WindowDestroyed,
    InputQueueCreated,
    /// The input queue is about to be freed.
    InputQueueDestroyed,
    ContentRectChanged,
}

/// What the activity callbacks leave behind for the application thread: the
/// current native window and input queue (by handle), the content rectangle, and
/// the events that were sent and not yet polled, oldest first.
pub struct NativeActivityGlue {
    content_rect: Rect,
    native_window: Option<u64>,
    input_queue: Option<u64>,
    events: Vec<Event>,
}

impl NativeActivityGlue {
    pub closed spec fn spec_content_rect(&self) -> Rect {
        self.content_rect
    }

    pub closed spec fn spec_native_window(&self) -> Option<u64> {
        self.native_window
    }

    pub closed spec fn spec_input_queue(&self) -> Option<u64> {
        self.input_queue
    }

    /// The events sent and not yet polled, oldest first.
    pub closed spec fn pending(&self) -> Seq<Event> {
        self.events@
    }

    /// An activity that has sent nothing yet.
    pub fn new() -> (glue: NativeActivityGlue)
        ensures
            glue.spec_content_rect() == (Rect { left: 0, top: 0, right: 0, bottom: 0 }),
            glue.spec_native_window() is None,
            glue.spec_input_queue() is None,
            glue.pending() == Seq::<Event>::empty(),
    {
        NativeActivityGlue {
            content_rect: Rect { left: 0, top: 0, right: 0, bottom: 0 },
            native_window: None,
            input_queue: None,
            events: Vec::new(),
        }
    }

    /// The content rectangle last reported by the platform.
    pub fn content_rect(&self) -> (r: Rect)
        ensures
            r == self.spec_content_rect(),
    {
        self.content_rect
    }

    /// The handle of the current native window, if there is one.
    pub fn native_window(&self) -> (w: Option<u64>)
        ensures
            w == self.spec_native_window(),
    {
        self.native_window
    }

    /// The handle of the current input queue, if there is one.
    pub fn input_queue(&self) -> (q: Option<u64>)
        ensures
            q == self.spec_input_queue(),
    {
        self.input_queue
    }

    /// Sends an event to the application thread.
    pub fn wake(&mut self, event: Event)
        ensures
            final(self).pending() == old(self).pending().push(event),
            final(self).spec_content_rect() == old(self).spec_content_rect(),
            final(self).spec_native_window() == old(self).spec_native_window(),
            final(self).spec_input_queue() == old(self).spec_input_queue(),
    {
        self.events.push(event);
    }

    /// Takes the oldest event that was sent and not yet polled.
    pub fn poll_events(&mut self) -> (e: Option<Event>)
        ensures
            old(self).pending().len() == 0 ==> e is None && final(self).pending() == old(self).pending(),
            old(self).pending().len() > 0 ==> e == Some(old(self).pending()[0])
                && final(self).pending() == old(self).pending().drop_first(),
            final(self).spec_content_rect() == old(self).spec_content_rect(),
            final(self).spec_native_window() == old(self).spec_native_window(),
            final(self).spec_input_queue() == old(self).spec_input_queue(),
    {
        if self.events.len() == 0 {
            None
        } else {
            let e = self.events.remove(0);
            assert(self.events@ =~= old(self).events@.drop_first());
            Some(e)
        }
    }

    /// The window gained or lost the focus: a zero `has_focus` means it lost it.
    pub fn on_window_focus_changed(&mut self, has_focus: i32)
        ensures
            final(self).pending() == old(self).pending().push(
                if has_focus == 0 { Event::WindowLostFocus } else { Event::WindowHasFocus },
            ),
            final(self).spec_content_rect() == old(self).spec_content_rect(),
            final(self).spec_native_window() == old(self).spec_native_window(),
            final(self).spec_input_queue() == old(self).spec_input_queue(),
    {
        let event = if has_focus == 0 {
            Event::WindowLostFocus
        } else {
            Event::WindowHasFocus
        };
        self.wake(event);
    }

    /// A native window was created: it becomes the current one.
    pub fn on_window_created(&mut self, window: u64)
        ensures
            final(self).spec_native_window() == Some(window),
            final(self).pending() == old(self).pending().push(Event::WindowCreated),
            final(self).spec_content_rect() == old(self).spec_content_rect(),
            final(self).spec_input_queue() == old(self).spec_input_queue(),
    {
        self.native_window = Some(window);
        self.wake(Event::WindowCreated);
    }

    /// The current native window is about to be destroyed.
    pub fn on_window_destroyed(&mut self, window: u64)
        requires
            old(self).spec_native_window() == Some(window),
        ensures
            final(self).spec_native_window() is None,
            final(self).pending() == old(self).pending().push(Event::WindowDestroyed),
            final(self).spec_content_rect() == old(self).spec_content_rect(),
            final(self).spec_input_queue() == old(self).spec_input_queue(),
    {
        self.wake(Event::WindowDestroyed);
        self.native_window = None;
    }

    /// An input queue was created: it becomes the current one.
    pub fn on_input_queue_created(&mut self, queue: u64)
        ensures
            final(self).spec_input_queue() == Some(queue),
            final(self).pending() == old(self).pending().push(Event::InputQueueCreated),
            final(self).spec_content_rect() == old(self).spec_content_rect(),
            final(self).spec_native_window() == old(self).spec_native_window(),
    {
        self.input_queue = Some(queue);
        self.wake(Event::InputQueueCreated);
    }

    /// The current input queue is about to be destroyed.
    pub fn on_input_queue_destroyed(&mut self, queue: u64)
        requires
            old(self).spec_input_queue() == Some(queue),
        ensures
            final(self).spec_input_queue() is None,
            final(self).pending() == old(self).pending().push(Event::InputQueueDestroyed),
            final(self).spec_content_rect() == old(self).spec_content_rect(),
            final(self).spec_native_window() == old(self).spec_native_window(),
    {
        self.wake(Event::InputQueueDestroyed);
        self.input_queue = None;
    }

    /// The platform reported a new content rectangle; each signed coordinate is
    /// taken as an unsigned one of the same bits.
    pub fn on_content_rect_changed(&mut self, left: i32, top: i32, right: i32, bottom: i32)
        ensures
            final(self).spec_content_rect() == (Rect {
                left: left as u32,
                top: top as u32,
                right: right as u32,
                bottom: bottom as u32,
            }),
            final(self).pending() == old(self).pending().push(Event::ContentRectChanged),
            final(self).spec_native_window() == old(self).spec_native_window(),
            final(self).spec_input_queue() == old(self).spec_input_queue(),
    {
        self.content_rect = Rect {
            left: left as u32,
            top: top as u32,
            right: right as u32,
            bottom: bottom as u32,
        };
        self.wake(Event::ContentRectChanged);
    }
}

/// Events reach the application thread in the order they were sent: an event
/// sent while others are pending is polled after all of them, and one sent with
/// nothing pending is polled next.
pub proof fn events_are_polled_in_order(pending: Seq<Event>, event: Event)
    ensures
        pending.len() > 0 ==> pending.push(event)[0] == pending[0]
            && pending.push(event).drop_first() == pending.drop_first().push(event),
        pending.len() == 0 ==> pending.push(event)[0] == event
            && pending.push(event).drop_first() == Seq::<Event>::empty(),
{
    if pending.len() > 0 {
        assert(pending.push(event).drop_first() =~= pending.drop_first().push(event));
    } else {
        assert(pending.push(event).drop_first() =~= Seq::<Event>::empty());
    }
}

} // verus!
