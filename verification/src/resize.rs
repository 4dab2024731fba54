use vstd::prelude::*;

verus! {

// Hit-test codes of a window's regions.
pub const HTNOWHERE: isize = 0;
pub const HTCLIENT: isize = 1;
pub const HTLEFT: isize = 10;
pub const HTRIGHT: isize = 11;
pub const HTTOP: isize = 12;
pub const HTTOPLEFT: isize = 13;
pub const HTTOPRIGHT: isize = 14;
pub const HTBOTTOM: isize = 15;
pub const HTBOTTOMLEFT: isize = 16;
pub const HTBOTTOMRIGHT: isize = 17;

/// The DPI at which one pixel is one logical unit.
pub const BASE_DPI: u32 = 96;

/// The width of the band along the edges of a borderless window that resizes
/// it, in logical units.
pub const BORDERLESS_RESIZE_INSET: i32 = 5;

/// A window's rectangle in screen coordinates.
#[derive(Clone, Copy, Debug, PartialEq, Eq, Structural)]
pub struct WindowRect {
    pub left: i32,
    pub top: i32,
    pub right: i32,
    pub bottom: i32,
}

/// The resize band in pixels at a DPI: five logical units scaled by the DPI and
/// rounded down.
pub open spec fn inset_spec(dpi: u32) -> int {
    (5 * dpi as int) / 96
}

/// The resize band in pixels at a DPI.
pub fn borderless_resize_inset(dpi: u32) -> (inset: i32)
    ensures
        inset == inset_spec(dpi),
{
    let scaled: u64 = (BORDERLESS_RESIZE_INSET as u64) * (dpi as u64) / (BASE_DPI as u64);
    assert(scaled <= 5 * 4294967295u64 / 96);
    scaled as i32
}

/// The edges of the window that a point lies on: left, right, top, bottom.
pub open spec fn edges_spec(rect: WindowRect, inset: int, cx: int, cy: int) -> (bool, bool, bool, bool) {
    (cx < rect.left + inset, cx >= rect.right - inset, cy < rect.top + inset, cy >= rect.bottom - inset)
}

/// The hit-test code of the edges a point lies on: the client area when it is on
/// none, a side or a corner when it is on one or two adjacent ones, and nowhere
/// when it is on two opposite ones (a window narrower than two bands).
pub open spec fn hit_code_spec(edges: (bool, bool, bool, bool)) -> isize {
    let (l, r, t, b) = edges;
    if !l && !r && !t && !b {
        HTCLIENT
    } else if l && !r && !t && !b {
        HTLEFT
    } else if !l && r && !t && !b {
        HTRIGHT
    } else if !l && !r && t && !b {
        HTTOP
    } else if !l && !r && !t && b {
        HTBOTTOM
    } else if l && !r && t && !b {
        HTTOPLEFT
    } else if !l && r && t && !b {
        HTTOPRIGHT
    } else if l && !r && !t && b {
        HTBOTTOMLEFT
    } else if !l && r && !t && b {
        HTBOTTOMRIGHT
    } else {
        HTNOWHERE
    }
}

/// The region of a borderless window under the point `(cx, cy)`, for resizing
/// it by dragging its edges; `rect` is the window's rectangle, or `None` when it
/// could not be had.
pub fn hit_test(rect: Option<WindowRect>, dpi: u32, cx: i32, cy: i32) -> (code: isize)
    ensures
        match rect {
            Some(r) => code == hit_code_spec(edges_spec(r, inset_spec(dpi), cx as int, cy as int)),
            None => code == HTNOWHERE,
        },
{
    match rect {
        Some(r) => {
            let inset = borderless_resize_inset(dpi) as i64;
            let left: isize = if (cx as i64) < (r.left as i64) + inset { 0b0001 } else { 0 };
            let right: isize = if (cx as i64) >= (r.right as i64) - inset { 0b0010 } else { 0 };
            let top: isize = if (cy as i64) < (r.top as i64) + inset { 0b0100 } else { 0 };
            let bottom: isize = if (cy as i64) >= (r.bottom as i64) - inset { 0b1000 } else { 0 };
            let result: isize = left + right + top + bottom;
            match result {
                0b0000 => HTCLIENT,
                0b0001 => HTLEFT,
                0b0010 => HTRIGHT,
                0b0100 => HTTOP,
                0b1000 => HTBOTTOM,
                0b0101 => HTTOPLEFT,
                0b0110 => HTTOPRIGHT,
                0b1001 => HTBOTTOMLEFT,
                0b1010 => HTBOTTOMRIGHT,
                _ => HTNOWHERE,
            }
        },
        None => HTNOWHERE,
    }
}

/// Where the DPI of a window comes from, by what the system offers: the
/// per-window query, the per-monitor query, or the device context.
pub enum DpiSource {
    /// The per-window query answered, with 0 for an invalid window.
    Window(u32),
    /// The per-monitor query: `None` when the window has no monitor or the query
    /// failed.
    Monitor(Option<u32>),
    /// Neither query exists: whether the process is DPI aware, and the device
    /// context's horizontal DPI.
    DeviceContext { dpi_aware: bool, device_dpi: u32 },
}

/// The DPI of a window, by where it came from; the base DPI stands in wherever
/// the system gave none, and for a process that is not DPI aware (the system
/// scales it).
pub open spec fn hwnd_dpi_spec(source: DpiSource) -> u32 {
    match source {
        DpiSource::Window(d) => if d == 0 { BASE_DPI } else { d },
        DpiSource::Monitor(m) => match m {
            Some(d) => d,
            None => BASE_DPI,
        },
        DpiSource::DeviceContext { dpi_aware, device_dpi } => if dpi_aware { device_dpi } else { BASE_DPI },
    }
}

/// The DPI of a window, by where it came from.
pub fn hwnd_dpi(source: DpiSource) -> (dpi: u32)
    ensures
        dpi == hwnd_dpi_spec(source),
{
    match source {
        DpiSource::Window(d) => if d == 0 { BASE_DPI } else { d },
        DpiSource::Monitor(m) => match m {
            Some(d) => d,
            None => BASE_DPI,
        },
        DpiSource::DeviceContext { dpi_aware, device_dpi } => if dpi_aware { device_dpi } else { BASE_DPI },
    }
}

/// A point deep inside a window that is wider and taller than two resize bands
/// is in its client area, and a point left of the left band and inside the
/// vertical span of the window is on its left edge.
pub proof fn inner_points_are_client(r: WindowRect, dpi: u32, cx: int, cy: int)
    requires
        r.left + inset_spec(dpi) <= cx < r.right - inset_spec(dpi),
        r.top + inset_spec(dpi) <= cy < r.bottom - inset_spec(dpi),
    ensures
        hit_code_spec(edges_spec(r, inset_spec(dpi), cx, cy)) == HTCLIENT,
{
}

/// An edge or corner of a window, as GTK names it; `Unknown` is the inside.
#[derive(Debug, Clone, Copy, PartialEq, Eq, Structural)]
pub enum WindowEdge {
    NorthWest,
    North,
    NorthEast,
    West,
    East,
    SouthWest,
    South,
    SouthEast,
    Unknown,
}

/// The name of the cursor shown over an edge of an undecorated window: the
/// resize arrow of that edge, or the default cursor inside.
pub open spec fn edge_cursor_spec(edge: WindowEdge) -> Seq<char> {
    match edge {
        WindowEdge::North => "n-resize"@,
        WindowEdge::South => "s-resize"@,
        WindowEdge::East => "e-resize"@,
        WindowEdge::West => "w-resize"@,
        WindowEdge::NorthWest => "nw-resize"@,
        WindowEdge::NorthEast => "ne-resize"@,
        WindowEdge::SouthEast => "se-resize"@,
        WindowEdge::SouthWest => "sw-resize"@,
        WindowEdge::Unknown => "default"@,
    }
}

/// The name of the cursor shown over an edge of an undecorated window.
pub fn edge_cursor_name(edge: WindowEdge) -> (name: &'static str)
    ensures
        name@ == edge_cursor_spec(edge),
{
    match edge {
        WindowEdge::North => "n-resize",
        WindowEdge::South => "s-resize",
        WindowEdge::East => "e-resize",
        WindowEdge::West => "w-resize",
        WindowEdge::NorthWest => "nw-resize",
        WindowEdge::NorthEast => "ne-resize",
        WindowEdge::SouthEast => "se-resize",
        WindowEdge::SouthWest => "sw-resize",
        WindowEdge::Unknown => "default",
    }
}

/// Whether a press starts resizing an undecorated window by its edge: only a
/// press of the first button (or a touch, for which `button` is 1 too, on a
/// window that is not maximized) on an edge of a resizable window without
/// decorations; presses inside reach the page.
pub fn begins_resize_drag(decorated: bool, resizable: bool, maximized: bool, touch: bool, button: u32, edge: WindowEdge) -> (b: bool)
    ensures
        b == (!decorated && resizable && (touch ==> !maximized) && button == 1 && edge != WindowEdge::Unknown),
{
    !decorated && resizable && (!touch || !maximized) && button == 1 && edge != WindowEdge::Unknown
}

/// Each edge and corner band of a window resizes it from that edge or corner:
/// a point in one band only (left, right, top or bottom, away from the other
/// bands) gets that side's code, 10, 11, 12 or 15, a point in two adjacent
/// bands gets that corner's code, 13 top-left, 14 top-right, 16 bottom-left or
/// 17 bottom-right, and a point in two opposite bands (a window narrower or
/// lower than two bands) gets 0, nowhere.
pub proof fn edges_and_corners_get_their_codes(r: WindowRect, dpi: u32, cx: int, cy: int)
    ensures
        ({
            let i = inset_spec(dpi);
            let code = hit_code_spec(edges_spec(r, i, cx, cy));
            let in_left = cx < r.left + i;
            let in_right = cx >= r.right - i;
            let in_top = cy < r.top + i;
            let in_bottom = cy >= r.bottom - i;
            &&& (in_left && !in_right && !in_top && !in_bottom) ==> code == 10
            &&& (!in_left && in_right && !in_top && !in_bottom) ==> code == 11
            &&& (!in_left && !in_right && in_top && !in_bottom) ==> code == 12
            &&& (!in_left && !in_right && !in_top && in_bottom) ==> code == 15
            &&& (in_left && !in_right && in_top && !in_bottom) ==> code == 13
            &&& (!in_left && in_right && in_top && !in_bottom) ==> code == 14
            &&& (in_left && !in_right && !in_top && in_bottom) ==> code == 16
            &&& (!in_left && in_right && !in_top && in_bottom) ==> code == 17
            &&& ((in_left && in_right) || (in_top && in_bottom)) ==> code == 0
            &&& (!in_left && !in_right && !in_top && !in_bottom) ==> code == 1
        }),
{
}

/// The resize band is five logical units at the DPI, rounded down: five pixels
/// at 96 DPI, ten at 192, and in general the largest whole number of pixels
/// not above 5 * dpi / 96.
pub proof fn resize_band_is_five_logical_units(dpi: u32)
    ensures
        inset_spec(dpi) * 96 <= 5 * dpi,
        5 * dpi < (inset_spec(dpi) + 1) * 96,
        inset_spec(96) == 5,
        inset_spec(192) == 10,
{
    assert(inset_spec(dpi) * 96 <= 5 * dpi && 5 * dpi < (inset_spec(dpi) + 1) * 96) by (nonlinear_arith)
        requires
            inset_spec(dpi) == (5 * dpi as int) / 96,
            dpi >= 0,
    ;
}
} // verus!
