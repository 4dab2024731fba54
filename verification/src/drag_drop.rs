use vstd::prelude::*;

verus! {

/// A drag and drop over a webview, as the application is told of it; positions
/// are in the webview's client coordinates.
#[derive(Debug)]
pub enum DragDropEvent {
    /// Files were dragged onto the webview.
    Enter { paths: Vec<String>, position: (i32, i32) },
    /// The files moved over the webview.
    Over { position: (i32, i32) },
    /// The files were dropped on the webview.
    Drop { paths: Vec<String>, position: (i32, i32) },
    /// The files left the webview, or the drag was cancelled.
    Leave,
}

/// The drop effect that refuses a drop.
pub const DROPEFFECT_NONE: u32 = 0;
/// The drop effect that copies the dropped files.
pub const DROPEFFECT_COPY: u32 = 1;

/// The drop target registered on a WebView2 window: whether the drag under way
/// entered with files, and the effect the cursor shows.
///
/// A drag that did not bring files is ignored: no event is reported for it,
/// not even when it leaves, and the cursor shows that it cannot be dropped.
pub struct DragDropTarget {
    enter_is_valid: bool,
    cursor_effect: u32,
}

/// What a drop target callback reports and answers.
pub struct DropReply {
    /// The event for the application, if any.
    pub event: Option<DragDropEvent>,
    /// The drop effect to answer with, if the callback sets one.
    pub effect: Option<u32>,
}

impl DragDropTarget {
    pub closed spec fn spec_enter_is_valid(&self) -> bool {
        self.enter_is_valid
    }

    pub closed spec fn spec_cursor_effect(&self) -> u32 {
        self.cursor_effect
    }

    /// A target no drag has entered.
    pub fn new() -> (t: Self)
        ensures
            !t.spec_enter_is_valid(),
            t.spec_cursor_effect() == DROPEFFECT_NONE,
    {
        DragDropTarget { enter_is_valid: false, cursor_effect: DROPEFFECT_NONE }
    }

    /// A drag entered the window; `files` are the dragged files, or `None` when
    /// the dragged data holds no files. Files make the drag valid, are reported,
    /// and are answered with the copy effect; anything else makes the drag
    /// invalid, is not reported, and is answered with no effect.
    pub fn drag_enter(&mut self, files: Option<Vec<String>>, position: (i32, i32)) -> (reply: DropReply)
        ensures
            files is None ==> {
                &&& !final(self).spec_enter_is_valid()
                &&& final(self).spec_cursor_effect() == DROPEFFECT_NONE
                &&& reply.event is None
                &&& reply.effect == Some(DROPEFFECT_NONE)
            },
            files matches Some(paths) ==> {
                &&& final(self).spec_enter_is_valid()
                &&& final(self).spec_cursor_effect() == DROPEFFECT_COPY
                &&& reply.effect == Some(DROPEFFECT_COPY)
                &&& reply.event matches Some(DragDropEvent::Enter { paths: p, position: q }) && p == paths && q == position
            },
    {
        match files {
            None => {
                self.enter_is_valid = false;
                self.cursor_effect = DROPEFFECT_NONE;
                DropReply { event: None, effect: Some(DROPEFFECT_NONE) }
            },
            Some(paths) => {
                self.enter_is_valid = true;
                self.cursor_effect = DROPEFFECT_COPY;
                DropReply { event: Some(DragDropEvent::Enter { paths, position }), effect: Some(DROPEFFECT_COPY) }
            },
        }
    }

    /// The drag moved: reported when the drag is valid; the effect shown stays.
    pub fn drag_over(&self, position: (i32, i32)) -> (reply: DropReply)
        ensures
            self.spec_enter_is_valid() ==> (reply.event matches Some(DragDropEvent::Over { position: q }) && q == position),
            !self.spec_enter_is_valid() ==> reply.event is None,
            reply.effect == Some(self.spec_cursor_effect()),
    {
        let event = if self.enter_is_valid {
            Some(DragDropEvent::Over { position })
        } else {
            None
        };
        DropReply { event, effect: Some(self.cursor_effect) }
    }

    /// The drag left the window: reported when the drag is valid.
    pub fn drag_leave(&self) -> (event: Option<DragDropEvent>)
        ensures
            self.spec_enter_is_valid() ==> event matches Some(DragDropEvent::Leave),
            !self.spec_enter_is_valid() ==> event is None,
    {
        if self.enter_is_valid {
            Some(DragDropEvent::Leave)
        } else {
            None
        }
    }

    /// The drag was dropped: reported when the drag is valid, with the dropped
    /// files (none when the data holds no files).
    pub fn drop(&self, files: Option<Vec<String>>, position: (i32, i32)) -> (event: Option<DragDropEvent>)
        ensures
            self.spec_enter_is_valid() ==> (event matches Some(DragDropEvent::Drop { paths: p, position: q }) && q == position
                && p@ == (match files {
                    Some(f) => f@,
                    None => Seq::<String>::empty(),
                })),
            !self.spec_enter_is_valid() ==> event is None,
    {
        if self.enter_is_valid {
            let paths = match files {
                Some(f) => f,
                None => Vec::new(),
            };
            Some(DragDropEvent::Drop { paths, position })
        } else {
            None
        }
    }
}

/// The windows a drop target is registered on, each at most once.
pub struct DropTargets {
    hwnds: Vec<isize>,
}

impl DropTargets {
    pub closed spec fn view(&self) -> Seq<isize> {
        self.hwnds@
    }

    /// No window appears twice.
    pub open spec fn wf(&self) -> bool {
        forall|i: int, j: int| 0 <= i < j < self.view().len() ==> self.view()[i] != self.view()[j]
    }

    /// No drop target registered yet.
    pub fn new() -> (t: Self)
        ensures
            t.wf(),
            t.view().len() == 0,
    {
        DropTargets { hwnds: Vec::new() }
    }

    /// Whether a drop target is registered on some window.
    pub fn is_inited(&self) -> (b: bool)
        ensures
            b == (self.view().len() > 0),
    {
        self.hwnds.len() > 0
    }

    /// Whether a drop target is registered on this window.
    pub fn contains(&self, hwnd: isize) -> (b: bool)
        ensures
            b == self.view().contains(hwnd),
    {
        let mut i: usize = 0;
        while i < self.hwnds.len()
            invariant
                i <= self.hwnds@.len(),
                forall|j: int| 0 <= j < i ==> self.hwnds@[j] != hwnd,
            decreases self.hwnds.len() - i,
        {
            if self.hwnds[i] == hwnd {
                return true;
            }
            i = i + 1;
        }
        false
    }

    /// Registers a drop target on a window, unless one already is: `register`
    /// makes the platform registration and tells whether it succeeded; only a
    /// successful one is recorded. Tells whether the window has a drop target.
    pub fn inject_in_hwnd<F: FnOnce(isize) -> bool>(&mut self, hwnd: isize, register: F) -> (ok: bool)
        requires
            old(self).wf(),
            call_requires(register, (hwnd,)),
        ensures
            final(self).wf(),
            old(self).view().contains(hwnd) ==> ok && final(self).view() == old(self).view(),
            !old(self).view().contains(hwnd) ==> exists|registered: bool| {
                &&& call_ensures(register, (hwnd,), registered)
                &&& ok == registered
                &&& final(self).view() == if registered { old(self).view().push(hwnd) } else { old(self).view() }
            },
    {
        if self.contains(hwnd) {
            return true;
        }
        let registered = register(hwnd);
        if registered {
            self.hwnds.push(hwnd);
            assert(self.view() == old(self).view().push(hwnd));
        }
        registered
    }

    /// Forgets every registration and gives back the windows to revoke them on,
    /// in the order they were registered.
    pub fn drain(&mut self) -> (hwnds: Vec<isize>)
        ensures
            hwnds@ == old(self).view(),
            final(self).view().len() == 0,
            final(self).wf(),
    {
        let mut drained: Vec<isize> = Vec::new();
        std::mem::swap(&mut drained, &mut self.hwnds);
        drained
    }
}

/// The `NSDragOperation` that copies.
pub const NS_DRAG_OPERATION_NONE: u64 = 0;
pub const NS_DRAG_OPERATION_COPY: u64 = 1;

/// The operation answered while a drag moves over a macOS webview: copy when the
/// application took the event; otherwise what the system answered, except that
/// its "none" (given anywhere on the page) becomes copy too, so that only a
/// special target such as a file input changes the operation.
pub fn dragging_updated_operation(handled: bool, os_operation: u64) -> (op: u64)
    ensures
        handled ==> op == NS_DRAG_OPERATION_COPY,
        !handled && os_operation == NS_DRAG_OPERATION_NONE ==> op == NS_DRAG_OPERATION_COPY,
        !handled && os_operation != NS_DRAG_OPERATION_NONE ==> op == os_operation,
{
    if handled {
        NS_DRAG_OPERATION_COPY
    } else if os_operation == NS_DRAG_OPERATION_NONE {
        NS_DRAG_OPERATION_COPY
    } else {
        os_operation
    }
}

/// A file drop over a GTK webview, as the application is told of it.
#[derive(Debug, Clone)]
pub enum FileDropEvent {
    /// The files have been dragged onto the window, but not dropped yet.
    Hovered(Vec<String>),
    /// The files have been dropped onto the window.
    Dropped(Vec<String>),
    /// The file drop was aborted.
    Cancelled,
}

/// `uri` without a leading `file://`.
pub open spec fn strip_file_scheme_spec(uri: Seq<char>) -> Seq<char> {
    if uri.len() >= 7 && uri.subrange(0, 7) == "file://"@ {
        uri.subrange(7, uri.len() as int)
    } else {
        uri
    }
}

/// The path of a dragged URI: the URI without a leading `file://`.
pub fn strip_file_scheme(uri: &str) -> (path: String)
    ensures
        path@ == strip_file_scheme_spec(uri@),
{
    proof { reveal_strlit("file://"); }
    if crate::text::starts_with(uri, "file://") {
        let n = uri.unicode_len();
        String::from_str(uri.substring_char(7, n))
    } else {
        String::from_str(uri)
    }
}

/// The paths of dragged URIs, in order.
pub fn uris_to_paths(uris: &Vec<String>) -> (paths: Vec<String>)
    ensures
        paths@.len() == uris@.len(),
        forall|i: int| 0 <= i < uris@.len() ==> (#[trigger] paths@[i])@ == strip_file_scheme_spec(uris@[i]@),
{
    let mut paths: Vec<String> = Vec::new();
    let mut i: usize = 0;
    while i < uris.len()
        invariant
            i <= uris@.len(),
            paths@.len() == i,
            forall|j: int| 0 <= j < i ==> (#[trigger] paths@[j])@ == strip_file_scheme_spec(uris@[j]@),
        decreases uris.len() - i,
    {
        paths.push(strip_file_scheme(uris[i].as_str()));
        i = i + 1;
    }
    paths
}

/// The strings of a list, by their characters.
pub open spec fn texts(v: Seq<String>) -> Seq<Seq<char>> {
    v.map_values(|s: String| s@)
}

/// The paths of dragged URIs, by their characters.
pub open spec fn paths_of(uris: Seq<String>) -> Seq<Seq<char>> {
    uris.map_values(|u: String| strip_file_scheme_spec(u@))
}

/// The files of the drag under way over a GTK webview, between the data being
/// received and the drop.
pub struct GtkFileDrop {
    pending: Option<Vec<String>>,
}

impl GtkFileDrop {
    pub closed spec fn spec_pending(&self) -> Option<Seq<Seq<char>>> {
        match self.pending {
            Some(p) => Some(texts(p@)),
            None => None,
        }
    }

    /// No drag under way.
    pub fn new() -> (d: Self)
        ensures
            d.spec_pending() is None,
    {
        GtkFileDrop { pending: None }
    }

    /// The drag data arrived. The signal comes twice; only the one with `info`
    /// 2 carries the URIs: their paths are kept and reported as hovered.
    pub fn data_received(&mut self, info: u32, uris: &Vec<String>) -> (event: Option<FileDropEvent>)
        ensures
            info != 2 ==> event is None && final(self).spec_pending() == old(self).spec_pending(),
            info == 2 ==> final(self).spec_pending() == Some(paths_of(uris@))
                && (event matches Some(FileDropEvent::Hovered(h)) && texts(h@) == paths_of(uris@)),
    {
        if info == 2 {
            let paths = uris_to_paths(uris);
            let reported = uris_to_paths(uris);
            assert(texts(paths@) =~= paths_of(uris@));
            assert(texts(reported@) =~= paths_of(uris@));
            self.pending = Some(paths);
            Some(FileDropEvent::Hovered(reported))
        } else {
            None
        }
    }

    /// The files were dropped: the kept paths are reported as dropped and
    /// forgotten; with none kept nothing is reported.
    pub fn drag_drop(&mut self) -> (event: Option<FileDropEvent>)
        ensures
            final(self).spec_pending() is None,
            old(self).spec_pending() is None ==> event is None,
            old(self).spec_pending() matches Some(p) ==> (event matches Some(FileDropEvent::Dropped(d)) && texts(d@) == p),
    {
        let mut taken: Option<Vec<String>> = None;
        std::mem::swap(&mut taken, &mut self.pending);
        match taken {
            Some(paths) => Some(FileDropEvent::Dropped(paths)),
            None => None,
        }
    }

    /// The drag left the webview: a zero time means the user cancelled it; any
    /// other leave is followed by the drop.
    pub fn drag_leave(&self, time: u32) -> (event: Option<FileDropEvent>)
        ensures
            time == 0 ==> event matches Some(FileDropEvent::Cancelled),
            time != 0 ==> event is None,
    {
        if time == 0 {
            Some(FileDropEvent::Cancelled)
        } else {
            None
        }
    }

    /// The drag failed: it is reported as cancelled.
    pub fn drag_failed(&self) -> (event: FileDropEvent)
        ensures
            event matches FileDropEvent::Cancelled,
    {
        FileDropEvent::Cancelled
    }
}

/// The reference count of a COM object implemented by the library: it starts at
/// one, and the object is destroyed when the last reference is released.
pub struct RefCount {
    count: usize,
}

impl RefCount {
    pub closed spec fn view(&self) -> nat {
        self.count as nat
    }

    /// One reference, held by the creator.
    pub fn new() -> (r: Self)
        ensures
            r.view() == 1,
    {
        RefCount { count: 1 }
    }

    /// Takes a reference; gives back the new count.
    pub fn add_ref(&mut self) -> (count: usize)
        requires
            old(self).view() < usize::MAX,
        ensures
            final(self).view() == old(self).view() + 1,
            count == final(self).view(),
    {
        self.count = self.count + 1;
        self.count
    }

    /// Releases a reference; gives back the new count and whether the object
    /// is to be destroyed, which it is when no reference is left.
    pub fn release(&mut self) -> (r: (usize, bool))
        requires
            old(self).view() > 0,
        ensures
            final(self).view() == old(self).view() - 1,
            r.0 == final(self).view(),
            r.1 == (final(self).view() == 0),
    {
        self.count = self.count - 1;
        (self.count, self.count == 0)
    }
}

/// The drop target of the webviews that predate WebView2's own drag and drop: it
/// reports every hover and every drop, and a leave only after a hover with files.
pub struct LegacyDropTarget {
    hovered_is_valid: bool,
    cursor_effect: u32,
}

impl LegacyDropTarget {
    pub closed spec fn spec_hovered_is_valid(&self) -> bool {
        self.hovered_is_valid
    }

    pub closed spec fn spec_cursor_effect(&self) -> u32 {
        self.cursor_effect
    }

    /// Nothing hovered yet.
    pub fn new() -> (t: Self)
        ensures
            !t.spec_hovered_is_valid(),
            t.spec_cursor_effect() == DROPEFFECT_NONE,
    {
        LegacyDropTarget { hovered_is_valid: false, cursor_effect: DROPEFFECT_NONE }
    }

    /// A drag entered: `files` are the dragged files, or `None` when the data
    /// holds none. The hover is reported with the files found (none for other
    /// data), and the copy effect is shown only for files.
    pub fn drag_enter(&mut self, files: Option<Vec<String>>) -> (r: (FileDropEvent, u32))
        ensures
            final(self).spec_hovered_is_valid() == files is Some,
            final(self).spec_cursor_effect() == (if files is Some { DROPEFFECT_COPY } else { DROPEFFECT_NONE }),
            r.1 == final(self).spec_cursor_effect(),
            r.0 matches FileDropEvent::Hovered(p) && p@ == (match files {
                Some(f) => f@,
                None => Seq::<String>::empty(),
            }),
    {
        let valid = files.is_some();
        self.hovered_is_valid = valid;
        self.cursor_effect = if valid { DROPEFFECT_COPY } else { DROPEFFECT_NONE };
        let paths = match files {
            Some(f) => f,
            None => Vec::new(),
        };
        (FileDropEvent::Hovered(paths), self.cursor_effect)
    }

    /// The drag moved: the effect shown stays.
    pub fn drag_over(&self) -> (effect: u32)
        ensures
            effect == self.spec_cursor_effect(),
    {
        self.cursor_effect
    }

    /// The drag left: reported as cancelled only after a hover with files.
    pub fn drag_leave(&self) -> (event: Option<FileDropEvent>)
        ensures
            self.spec_hovered_is_valid() ==> event matches Some(FileDropEvent::Cancelled),
            !self.spec_hovered_is_valid() ==> event is None,
    {
        if self.hovered_is_valid {
            Some(FileDropEvent::Cancelled)
        } else {
            None
        }
    }

    /// The files were dropped: reported with the files found, none for other data.
    pub fn drop(&self, files: Option<Vec<String>>) -> (event: FileDropEvent)
        ensures
            event matches FileDropEvent::Dropped(p) && p@ == (match files {
                Some(f) => f@,
                None => Seq::<String>::empty(),
            }),
    {
        let paths = match files {
            Some(f) => f,
            None => Vec::new(),
        };
        FileDropEvent::Dropped(paths)
    }
}

/// A file drop over a webview, as the application is told of it, with the
/// cursor's position in the window's client coordinates.
#[derive(Debug)]
pub enum PositionedFileDrop {
    /// The files have been dragged onto the window, but not dropped yet.
    Hovered { paths: Vec<String>, position: (i32, i32) },
    /// The files have been dropped onto the window.
    Dropped { paths: Vec<String>, position: (i32, i32) },
    /// The file drop was aborted.
    Cancelled,
}

/// A drop on a webview whose drags are handed on to the engine by the
/// window: the application's listener is told of the drop, with the dropped
/// files (none when the data holds no files) and the cursor's position; unless
/// it answers `true`, which blocks the default behaviour, the drop is then
/// handed to the engine, which needs the dragged data for it. Tells whether it
/// is handed on.
pub fn composition_drop<L: Fn(PositionedFileDrop) -> bool>(
    listener: &L,
    files: Option<Vec<String>>,
    position: (i32, i32),
    has_data: bool,
) -> (forward: bool)
    requires
        forall|e: PositionedFileDrop| call_requires(*listener, (e,)),
    ensures
        exists|paths: Vec<String>, handled: bool| {
            &&& paths@ == (match files {
                Some(f) => f@,
                None => Seq::<String>::empty(),
            })
            &&& call_ensures(*listener, (PositionedFileDrop::Dropped { paths, position },), handled)
            &&& forward == (!handled && has_data)
        },
{
    let paths = match files {
        Some(f) => f,
        None => Vec::new(),
    };
    let ghost reported = paths;
    let handled = listener(PositionedFileDrop::Dropped { paths, position });
    assert(reported@ == (match files {
        Some(f) => f@,
        None => Seq::<String>::empty(),
    }));
    !handled && has_data
}

} // verus!
