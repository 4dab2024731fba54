use vstd::prelude::*;

verus! {

// Window messages.
pub const WM_DESTROY: u32 = 0x0002;
pub const WM_MOVE: u32 = 0x0003;
pub const WM_SIZE: u32 = 0x0005;
pub const WM_SETFOCUS: u32 = 0x0007;
pub const WM_SETCURSOR: u32 = 0x0020;
pub const WM_MOUSEMOVE: u32 = 0x0200;
pub const WM_LBUTTONDOWN: u32 = 0x0201;
pub const WM_LBUTTONUP: u32 = 0x0202;
pub const WM_LBUTTONDBLCLK: u32 = 0x0203;
pub const WM_RBUTTONDOWN: u32 = 0x0204;
pub const WM_RBUTTONUP: u32 = 0x0205;
pub const WM_RBUTTONDBLCLK: u32 = 0x0206;
pub const WM_MBUTTONDOWN: u32 = 0x0207;
pub const WM_MBUTTONUP: u32 = 0x0208;
pub const WM_MBUTTONDBLCLK: u32 = 0x0209;
pub const WM_MOUSEWHEEL: u32 = 0x020A;
pub const WM_XBUTTONDOWN: u32 = 0x020B;
pub const WM_XBUTTONUP: u32 = 0x020C;
pub const WM_XBUTTONDBLCLK: u32 = 0x020D;
pub const WM_MOUSEHWHEEL: u32 = 0x020E;
pub const WM_MOVING: u32 = 0x0216;
pub const WM_ENTERSIZEMOVE: u32 = 0x0231;
pub const WM_POINTERUPDATE: u32 = 0x0245;
pub const WM_POINTERDOWN: u32 = 0x0246;
pub const WM_POINTERUP: u32 = 0x0247;
pub const WM_MOUSELEAVE: u32 = 0x02A3;
pub const WM_USER: u32 = 0x0400;

/// The `WM_SIZE` parameter of a window being minimized.
pub const SIZE_MINIMIZED: usize = 1;

/// The hit-test code of the client area.
pub const HTCLIENT: u32 = 1;

/// The subclass of a webview's parent window that keeps the webview sized,
/// focused and placed with it.
pub const PARENT_SUBCLASS_ID: u32 = 0x0464;
/// Asks the parent subclass to let go of its controller.
pub const PARENT_DESTROY_MESSAGE: u32 = 0x0465;
/// The subclass of a window hosting a webview by composition.
pub const COMPOSITION_SUBCLASS_ID: u32 = 0x0467;
/// Asks the composition subclass to let go of its host state.
pub const COMPOSITION_DESTROY_MESSAGE: u32 = 0x0468;

/// The low word of a message parameter.
pub open spec fn low_word(v: usize) -> u32 {
    (v & 0xFFFF) as u32
}

/// The high word of a message parameter.
pub open spec fn high_word(v: usize) -> u32 {
    ((v >> 16usize) & 0xFFFF) as u32
}

/// Packs two 16-bit coordinates into a message parameter: `x` in the low word
/// and `y` in the high word.
pub open spec fn make_lparam_spec(x: i16, y: i16) -> u32 {
    (x as u16) as u32 | (((y as u16) as u32) << 16u32)
}

/// Packs two 16-bit coordinates into a message parameter.
#[allow(non_snake_case)]
pub fn MAKELPARAM(x: i16, y: i16) -> (l: isize)
    ensures
        l == make_lparam_spec(x, y) as isize,
{
    (((x as u16) as u32) | (((y as u16) as u32) << 16u32)) as isize
}

/// The signed x coordinate in the low word of a message parameter.
pub open spec fn get_x_lparam_spec(lparam: isize) -> i32 {
    ((lparam & 0xFFFF) as u16) as i16 as i32
}

/// The signed y coordinate in the high word of a message parameter.
pub open spec fn get_y_lparam_spec(lparam: isize) -> i32 {
    (((lparam >> 16isize) & 0xFFFF) as u16) as i16 as i32
}

/// The signed x coordinate in the low word of a message parameter.
pub fn get_x_lparam(lparam: isize) -> (x: i32)
    ensures
        x == get_x_lparam_spec(lparam),
{
    ((lparam & 0xFFFF) as u16) as i16 as i32
}

/// The signed y coordinate in the high word of a message parameter.
pub fn get_y_lparam(lparam: isize) -> (y: i32)
    ensures
        y == get_y_lparam_spec(lparam),
{
    (((lparam >> 16isize) & 0xFFFF) as u16) as i16 as i32
}

/// Packing two coordinates into a message parameter and reading them back gives
/// the same coordinates.
pub proof fn lparam_round_trip(x: i16, y: i16)
    ensures
        get_x_lparam_spec(make_lparam_spec(x, y) as isize) == x as i32,
        get_y_lparam_spec(make_lparam_spec(x, y) as isize) == y as i32,
{
    assert(((((((x as u16) as u32 | (((y as u16) as u32) << 16u32)) as isize) & 0xFFFF) as u16) as i16 as i32) == x as i32) by (bit_vector);
    assert((((((((x as u16) as u32 | (((y as u16) as u32) << 16u32)) as isize) >> 16isize) & 0xFFFF) as u16) as i16 as i32) == y as i32) by (bit_vector);
}

/// What the subclass of a webview's parent window does with a message before
/// handing it on to the next handler.
#[derive(Debug, Clone, Copy, PartialEq, Eq, Structural)]
pub enum ParentAction {
    /// Nothing.
    Nothing,
    /// Fit the webview to the parent's client area.
    Resize,
    /// Give the webview the focus.
    MoveFocus,
    /// Tell the webview its window moved.
    NotifyPositionChanged,
    /// Let go of the controller and clear the subclass's reference to it.
    ReleaseController,
}

/// What the parent subclass does with a message. Without a controller (its
/// reference cleared) it does nothing; the message is always handed on.
pub open spec fn parent_action_spec(msg: u32, wparam: usize, has_controller: bool) -> ParentAction {
    if !has_controller {
        ParentAction::Nothing
    } else if msg == WM_SIZE {
        if wparam != SIZE_MINIMIZED { ParentAction::Resize } else { ParentAction::Nothing }
    } else if msg == WM_SETFOCUS || msg == WM_ENTERSIZEMOVE {
        ParentAction::MoveFocus
    } else if msg == WM_MOVE || msg == WM_MOVING {
        ParentAction::NotifyPositionChanged
    } else if msg == WM_DESTROY || msg == PARENT_DESTROY_MESSAGE {
        ParentAction::ReleaseController
    } else {
        ParentAction::Nothing
    }
}

/// A parent subclass whose controller reference was cleared acts on no message:
/// every message, the controller messages included, only goes on to the next
/// handler.
pub proof fn cleared_parent_only_delegates(msg: u32, wparam: usize)
    ensures
        parent_action_spec(msg, wparam, false) == ParentAction::Nothing,
{
}

/// What the parent subclass does with a message.
pub fn parent_subclass_action(msg: u32, wparam: usize, has_controller: bool) -> (a: ParentAction)
    ensures
        a == parent_action_spec(msg, wparam, has_controller),
{
    if !has_controller {
        return ParentAction::Nothing;
    }
    if msg == WM_SIZE {
        if wparam != SIZE_MINIMIZED { ParentAction::Resize } else { ParentAction::Nothing }
    } else if msg == WM_SETFOCUS || msg == WM_ENTERSIZEMOVE {
        ParentAction::MoveFocus
    } else if msg == WM_MOVE || msg == WM_MOVING {
        ParentAction::NotifyPositionChanged
    } else if msg == WM_DESTROY || msg == PARENT_DESTROY_MESSAGE {
        ParentAction::ReleaseController
    } else {
        ParentAction::Nothing
    }
}

/// The bounds a webview gets in a client area: its origin at the corner and its
/// size that of the area.
pub fn bounds_from_client_rect(left: i32, top: i32, right: i32, bottom: i32) -> (bounds: (i32, i32, i32, i32))
    requires
        i32::MIN <= right - left <= i32::MAX,
        i32::MIN <= bottom - top <= i32::MAX,
    ensures
        bounds == (0i32, 0i32, (right - left) as i32, (bottom - top) as i32),
{
    (0, 0, right - left, bottom - top)
}

/// Whether a message is a mouse message that a composition host forwards to its
/// webview.
pub open spec fn is_forwarded_mouse_message(msg: u32) -> bool {
    msg == WM_MOUSEMOVE || msg == WM_MOUSELEAVE || msg == WM_MOUSEWHEEL || msg == WM_MOUSEHWHEEL
        || msg == WM_LBUTTONDOWN || msg == WM_LBUTTONUP || msg == WM_LBUTTONDBLCLK
        || msg == WM_RBUTTONDOWN || msg == WM_RBUTTONUP || msg == WM_RBUTTONDBLCLK
        || msg == WM_MBUTTONDOWN || msg == WM_MBUTTONUP || msg == WM_MBUTTONDBLCLK
        || msg == WM_XBUTTONDOWN || msg == WM_XBUTTONUP || msg == WM_XBUTTONDBLCLK
}

/// What the subclass of a composition host window does with a message.
#[derive(Debug, Clone, Copy, PartialEq, Eq, Structural)]
pub enum HostAction {
    /// Nothing; the message is handed on.
    Nothing,
    /// Fit the webview to the client area; the message is handed on.
    Resize,
    /// Give the webview the focus; the message is handed on.
    MoveFocus,
    /// Tell the webview its window moved; the message is handed on.
    NotifyPositionChanged,
    /// Show the webview's cursor and answer 1; the message is not handed on.
    SetCursor,
    /// Forward the mouse message to the webview; the message is handed on.
    ForwardMouse,
    /// Forward the touch or pen message to the webview; the message is handed on.
    ForwardPointer,
    /// Let go of the host state and clear the subclass's reference to it.
    ReleaseHost,
}

/// What the composition host subclass does with a message. Without host state
/// it does nothing. The cursor is the webview's only inside the client area.
pub open spec fn host_action_spec(msg: u32, wparam: usize, lparam: usize, has_host: bool) -> HostAction {
    if !has_host {
        HostAction::Nothing
    } else if msg == WM_SIZE {
        if wparam != SIZE_MINIMIZED { HostAction::Resize } else { HostAction::Nothing }
    } else if msg == WM_SETFOCUS || msg == WM_ENTERSIZEMOVE {
        HostAction::MoveFocus
    } else if msg == WM_MOVE || msg == WM_MOVING {
        HostAction::NotifyPositionChanged
    } else if msg == WM_SETCURSOR {
        if low_word(lparam) == HTCLIENT { HostAction::SetCursor } else { HostAction::Nothing }
    } else if is_forwarded_mouse_message(msg) {
        HostAction::ForwardMouse
    } else if msg == WM_POINTERDOWN || msg == WM_POINTERUPDATE || msg == WM_POINTERUP {
        HostAction::ForwardPointer
    } else if msg == WM_DESTROY || msg == COMPOSITION_DESTROY_MESSAGE {
        HostAction::ReleaseHost
    } else {
        HostAction::Nothing
    }
}

fn is_forwarded_mouse(msg: u32) -> (b: bool)
    ensures
        b == is_forwarded_mouse_message(msg),
{
    msg == WM_MOUSEMOVE || msg == WM_MOUSELEAVE || msg == WM_MOUSEWHEEL || msg == WM_MOUSEHWHEEL
        || msg == WM_LBUTTONDOWN || msg == WM_LBUTTONUP || msg == WM_LBUTTONDBLCLK
        || msg == WM_RBUTTONDOWN || msg == WM_RBUTTONUP || msg == WM_RBUTTONDBLCLK
        || msg == WM_MBUTTONDOWN || msg == WM_MBUTTONUP || msg == WM_MBUTTONDBLCLK
        || msg == WM_XBUTTONDOWN || msg == WM_XBUTTONUP || msg == WM_XBUTTONDBLCLK
}

/// What the composition host subclass does with a message.
pub fn host_subclass_action(msg: u32, wparam: usize, lparam: usize, has_host: bool) -> (a: HostAction)
    ensures
        a == host_action_spec(msg, wparam, lparam, has_host),
{
    if !has_host {
        return HostAction::Nothing;
    }
    if msg == WM_SIZE {
        if wparam != SIZE_MINIMIZED { HostAction::Resize } else { HostAction::Nothing }
    } else if msg == WM_SETFOCUS || msg == WM_ENTERSIZEMOVE {
        HostAction::MoveFocus
    } else if msg == WM_MOVE || msg == WM_MOVING {
        HostAction::NotifyPositionChanged
    } else if msg == WM_SETCURSOR {
        if (lparam & 0xFFFF) as u32 == HTCLIENT { HostAction::SetCursor } else { HostAction::Nothing }
    } else if is_forwarded_mouse(msg) {
        HostAction::ForwardMouse
    } else if msg == WM_POINTERDOWN || msg == WM_POINTERUPDATE || msg == WM_POINTERUP {
        HostAction::ForwardPointer
    } else if msg == WM_DESTROY || msg == COMPOSITION_DESTROY_MESSAGE {
        HostAction::ReleaseHost
    } else {
        HostAction::Nothing
    }
}

/// What to do with the mouse capture around a forwarded mouse message.
#[derive(Debug, Clone, Copy, PartialEq, Eq, Structural)]
pub enum Capture {
    Keep,
    /// Capture the mouse and give the webview the keyboard focus: a button went down.
    SetAndFocus,
    /// Release the capture: a button went up.
    Release,
}

/// How a mouse message is handed to the webview.
#[derive(Debug, Clone, Copy, PartialEq, Eq, Structural)]
pub struct MouseForward {
    /// The event kind, which is the message itself.
    pub kind: u32,
    pub x: i32,
    pub y: i32,
    /// The point is in screen coordinates and must be made client-relative.
    pub screen_point: bool,
    pub mouse_data: u32,
    pub virtual_keys: u32,
    /// Mouse-leave tracking ends.
    pub stop_tracking: bool,
    /// Mouse-leave tracking must be requested.
    pub start_tracking: bool,
    pub capture: Capture,
}

/// How a mouse message is handed to the webview: the point from the message
/// parameter, the modifier keys from the low word of `wparam`; wheel messages
/// carry the signed delta in the high word and a screen point, X-button messages
/// the button in the high word; leaving the window ends tracking and clears the
/// point and keys, and a move without tracking asks for it.
pub open spec fn mouse_forward_spec(msg: u32, wparam: usize, lparam: isize, tracking: bool) -> MouseForward {
    let wheel = msg == WM_MOUSEWHEEL || msg == WM_MOUSEHWHEEL;
    let xbutton = msg == WM_XBUTTONDOWN || msg == WM_XBUTTONUP || msg == WM_XBUTTONDBLCLK;
    let leave = msg == WM_MOUSELEAVE;
    MouseForward {
        kind: msg,
        x: if leave { 0 } else { get_x_lparam_spec(lparam) },
        y: if leave { 0 } else { get_y_lparam_spec(lparam) },
        screen_point: wheel,
        mouse_data: if wheel {
            ((high_word(wparam) as u16) as i16 as i32) as u32
        } else if xbutton {
            high_word(wparam)
        } else {
            0
        },
        virtual_keys: if leave { 0 } else { low_word(wparam) },
        stop_tracking: leave,
        start_tracking: msg == WM_MOUSEMOVE && !tracking,
        capture: if msg == WM_LBUTTONDOWN || msg == WM_RBUTTONDOWN || msg == WM_MBUTTONDOWN || msg == WM_XBUTTONDOWN {
            Capture::SetAndFocus
        } else if msg == WM_LBUTTONUP || msg == WM_RBUTTONUP || msg == WM_MBUTTONUP || msg == WM_XBUTTONUP {
            Capture::Release
        } else {
            Capture::Keep
        },
    }
}

/// How a mouse message is handed to the webview; `tracking` tells whether
/// mouse-leave tracking is under way.
pub fn forward_mouse_message(msg: u32, wparam: usize, lparam: isize, tracking: bool) -> (f: MouseForward)
    ensures
        f == mouse_forward_spec(msg, wparam, lparam, tracking),
{
    let wheel = msg == WM_MOUSEWHEEL || msg == WM_MOUSEHWHEEL;
    let xbutton = msg == WM_XBUTTONDOWN || msg == WM_XBUTTONUP || msg == WM_XBUTTONDBLCLK;
    let leave = msg == WM_MOUSELEAVE;
    let high: u32 = ((wparam >> 16usize) & 0xFFFF) as u32;
    let low: u32 = (wparam & 0xFFFF) as u32;
    let mouse_data: u32 = if wheel {
        ((high as u16) as i16 as i32) as u32
    } else if xbutton {
        high
    } else {
        0
    };
    let capture = if msg == WM_LBUTTONDOWN || msg == WM_RBUTTONDOWN || msg == WM_MBUTTONDOWN || msg == WM_XBUTTONDOWN {
        Capture::SetAndFocus
    } else if msg == WM_LBUTTONUP || msg == WM_RBUTTONUP || msg == WM_MBUTTONUP || msg == WM_XBUTTONUP {
        Capture::Release
    } else {
        Capture::Keep
    };
    MouseForward {
        kind: msg,
        x: if leave { 0 } else { get_x_lparam(lparam) },
        y: if leave { 0 } else { get_y_lparam(lparam) },
        screen_point: wheel,
        mouse_data,
        virtual_keys: if leave { 0 } else { low },
        stop_tracking: leave,
        start_tracking: msg == WM_MOUSEMOVE && !tracking,
        capture,
    }
}

/// Whether a pointer message is forwarded: only touch and pen pointers, since
/// the mouse is forwarded by its own messages.
pub fn forwards_pointer(is_touch: bool, is_pen: bool) -> (b: bool)
    ensures
        b == (is_touch || is_pen),
{
    is_touch || is_pen
}

/// The one name the IPC dispatch object answers to, in UTF-16: `postMessage`.
pub open spec fn post_message_name() -> Seq<u16> {
    seq![112u16, 111u16, 115u16, 116u16, 77u16, 101u16, 115u16, 115u16, 97u16, 103u16, 101u16]
}

/// Whether the IPC dispatch object knows the names it is asked for: exactly
/// one name, `postMessage`.
pub fn knows_dispatch_names(name_count: u32, first_name: &[u16]) -> (b: bool)
    ensures
        b == (name_count == 1 && first_name@ == post_message_name()),
{
    let expected: [u16; 11] = [112, 111, 115, 116, 77, 101, 115, 115, 97, 103, 101];
    assert(expected@ =~= post_message_name());
    if name_count != 1 || first_name.len() != 11 {
        return false;
    }
    let mut i: usize = 0;
    while i < 11
        invariant
            first_name@.len() == 11,
            expected@ == post_message_name(),
            i <= 11,
            forall|j: int| 0 <= j < i ==> first_name@[j] == expected@[j],
        decreases 11 - i,
    {
        if first_name[i] != expected[i] {
            assert(first_name@[i as int] != post_message_name()[i as int]);
            return false;
        }
        i = i + 1;
    }
    assert(first_name@ =~= post_message_name());
    true
}

/// A parent subclass that holds its controller acts on the controller
/// messages: the focus (7) and the start of a move or resize (0x231) give the
/// webview the focus, a move (3) or a moving window (0x216) tells it its
/// position changed, a size change (5) other than a minimizing one (wparam 1)
/// fits it to the window, and the window's destruction (2) lets go of the
/// controller.
pub proof fn parent_with_controller_acts(msg: u32, wparam: usize)
    ensures
        (msg == 0x0007 || msg == 0x0231) ==> parent_action_spec(msg, wparam, true) == ParentAction::MoveFocus,
        (msg == 0x0003 || msg == 0x0216) ==> parent_action_spec(msg, wparam, true) == ParentAction::NotifyPositionChanged,
        (msg == 0x0005 && wparam != 1) ==> parent_action_spec(msg, wparam, true) == ParentAction::Resize,
        (msg == 0x0005 && wparam == 1) ==> parent_action_spec(msg, wparam, true) == ParentAction::Nothing,
        msg == 0x0002 ==> parent_action_spec(msg, wparam, true) == ParentAction::ReleaseController,
{
}
/// A composition host subclass with its host state acts on the messages it
/// handles: the focus (7) and the start of a move or resize (0x231) give the
/// webview the focus, a move (3) or a moving window (0x216) tells it its
/// position changed, a size change (5) other than a minimizing one (wparam 1)
/// fits it, a cursor query (0x20) in the client area (hit-test code 1 in the
/// low 16 bits of lparam) shows the webview's cursor and one elsewhere does
/// nothing, every mouse message from 0x200 to 0x20E and the mouse leaving
/// (0x2A3) are forwarded, the pointer messages 0x245 to 0x247 are forwarded as
/// pointer input, and the window's destruction (2) lets go of the host state.
/// Without host state nothing is done.
pub proof fn host_with_state_acts(msg: u32, wparam: usize, lparam: usize)
    ensures
        host_action_spec(msg, wparam, lparam, false) == HostAction::Nothing,
        (msg == 0x0007 || msg == 0x0231) ==> host_action_spec(msg, wparam, lparam, true) == HostAction::MoveFocus,
        (msg == 0x0003 || msg == 0x0216) ==> host_action_spec(msg, wparam, lparam, true) == HostAction::NotifyPositionChanged,
        (msg == 0x0005 && wparam != 1) ==> host_action_spec(msg, wparam, lparam, true) == HostAction::Resize,
        (msg == 0x0005 && wparam == 1) ==> host_action_spec(msg, wparam, lparam, true) == HostAction::Nothing,
        (msg == 0x0020 && lparam % 0x10000 == 1) ==> host_action_spec(msg, wparam, lparam, true) == HostAction::SetCursor,
        (msg == 0x0020 && lparam % 0x10000 != 1) ==> host_action_spec(msg, wparam, lparam, true) == HostAction::Nothing,
        ((0x0200 <= msg && msg <= 0x020E) || msg == 0x02A3) ==> host_action_spec(msg, wparam, lparam, true) == HostAction::ForwardMouse,
        (0x0245 <= msg && msg <= 0x0247) ==> host_action_spec(msg, wparam, lparam, true) == HostAction::ForwardPointer,
        msg == 0x0002 ==> host_action_spec(msg, wparam, lparam, true) == HostAction::ReleaseHost,
{
    assert((lparam & 0xFFFFusize) as u32 == (lparam % 0x10000usize) as u32) by (bit_vector);
}

/// How a mouse message is handed on: a button going down (0x201, 0x204, 0x207,
/// 0x20B) captures the mouse and focuses the webview, one going up (0x202,
/// 0x205, 0x208, 0x20C) releases the capture, and any other message keeps it;
/// only the wheels (0x20A, 0x20E) carry a screen point; leaving (0x2A3) ends
/// tracking with no point and no keys; a move (0x200) starts tracking when none
/// is under way; and any other message's point is the signed low and high
/// words of lparam.
pub proof fn mouse_messages_are_forwarded_as_they_mean(msg: u32, wparam: usize, x: i16, y: i16, tracking: bool)
    ensures
        ({
            let f = mouse_forward_spec(msg, wparam, make_lparam_spec(x, y) as isize, tracking);
            &&& f.kind == msg
            &&& (msg == 0x0201 || msg == 0x0204 || msg == 0x0207 || msg == 0x020B) ==> f.capture == Capture::SetAndFocus
            &&& (msg == 0x0202 || msg == 0x0205 || msg == 0x0208 || msg == 0x020C) ==> f.capture == Capture::Release
            &&& !(msg == 0x0201 || msg == 0x0204 || msg == 0x0207 || msg == 0x020B || msg == 0x0202 || msg == 0x0205
                || msg == 0x0208 || msg == 0x020C) ==> f.capture == Capture::Keep
            &&& f.screen_point == (msg == 0x020A || msg == 0x020E)
            &&& f.stop_tracking == (msg == 0x02A3)
            &&& msg == 0x02A3 ==> f.x == 0 && f.y == 0 && f.virtual_keys == 0
            &&& msg != 0x02A3 ==> f.x == x as i32 && f.y == y as i32
            &&& f.start_tracking == (msg == 0x0200 && !tracking)
        }),
{
    lparam_round_trip(x, y);
}
} // verus!
