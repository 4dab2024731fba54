use vstd::prelude::*;
use crate::text::{decimal, push_decimal, push_signed_decimal, signed_decimal};

verus! {

/// Whether mouse button number `button` is down in `buttons`, the platform's
/// bitmask of pressed mouse buttons, in which bit `n` is set while button `n` is
/// down.
pub open spec fn button_down(buttons: u64, button: u64) -> bool {
    button < 64 && (buttons >> button) & 1u64 == 1u64
}

/// Whether mouse button number `button` is down in the bitmask `buttons`.
pub fn has_button(buttons: u64, button: u64) -> (b: bool)
    ensures
        b == button_down(buttons, button),
{
    button < 64 && (buttons >> button) & 1u64 == 1u64
}

/// The DOM `buttons` value of a set of pressed mouse buttons: left 1, right 2,
/// middle 4, back 8 and forward 16, added up.
pub open spec fn pressed_buttons_spec(left: bool, right: bool, middle: bool, back: bool, forward: bool) -> nat {
    (if left { 1nat } else { 0nat }) + (if right { 2nat } else { 0nat }) + (if middle { 4nat } else { 0nat })
        + (if back { 8nat } else { 0nat }) + (if forward { 16nat } else { 0nat })
}

/// The DOM `buttons` value of a set of pressed mouse buttons.
pub fn pressed_buttons(left: bool, right: bool, middle: bool, back: bool, forward: bool) -> (buttons: u32)
    ensures
        buttons == pressed_buttons_spec(left, right, middle, back, forward),
{
    let mut buttons: u32 = 0;
    if left {
        buttons += 1;
    }
    if right {
        buttons += 2;
    }
    if middle {
        buttons += 4;
    }
    if back {
        buttons += 8;
    }
    if forward {
        buttons += 16;
    }
    buttons
}

/// The DOM `buttons` value from the platform's bitmask of pressed mouse buttons,
/// whose buttons 0 to 4 are the left, right, middle, back and forward buttons.
pub fn pressed_buttons_from_mask(mask: u64) -> (buttons: u32)
    ensures
        buttons == pressed_buttons_spec(
            button_down(mask, 0),
            button_down(mask, 1),
            button_down(mask, 2),
            button_down(mask, 3),
            button_down(mask, 4),
        ),
{
    pressed_buttons(
        has_button(mask, 0),
        has_button(mask, 1),
        has_button(mask, 2),
        has_button(mask, 3),
        has_button(mask, 4),
    )
}

/// The DOM `button` value of the back (3) or forward (4) button.
pub open spec fn js_button(back_button: bool) -> u32 {
    if back_button { 3 } else { 4 }
}

/// What a press or release of an extra mouse button becomes: the back or the
/// forward button, told by `true` for back, or nothing for any other button.
/// Buttons are numbered as the platform numbers them: `back` and `forward` are
/// its numbers for the two.
pub fn navigation_button(button: u64, back: u64, forward: u64) -> (r: Option<bool>)
    requires
        back != forward,
    ensures
        button == back ==> r == Some(true),
        button == forward ==> r == Some(false),
        button != back && button != forward ==> r is None,
{
    if button == back {
        Some(true)
    } else if button == forward {
        Some(false)
    } else {
        None
    }
}

/// A press or release of the back or forward mouse button, as the web content
/// is told of it.
#[derive(Clone, Copy, Debug)]
pub struct MouseEventInfo {
    /// A press rather than a release.
    pub down: bool,
    /// The back button rather than the forward button.
    pub back_button: bool,
    pub x: i64,
    pub y: i64,
    /// The DOM `buttons` value of the buttons held down.
    pub buttons: u32,
    /// The click count.
    pub detail: i64,
    pub ctrl_key: bool,
    pub meta_key: bool,
    pub shift_key: bool,
    pub alt_key: bool,
}

/// `true` or `false`.
pub open spec fn bool_text(b: bool) -> Seq<char> {
    if b { "true"@ } else { "false"@ }
}

/// `mousedown` for a press, `mouseup` for a release.
pub open spec fn event_name_text(down: bool) -> Seq<char> {
    if down { "mousedown"@ } else { "mouseup"@ }
}

fn bool_str(b: bool) -> (s: &'static str)
    ensures
        s@ == bool_text(b),
{
    if b { "true" } else { "false" }
}

fn event_name_str(down: bool) -> (s: &'static str)
    ensures
        s@ == event_name_text(down),
{
    if down { "mousedown" } else { "mouseup" }
}

/// The script that dispatches the mouse event to the element under the pointer
/// and, for a release that the page did not cancel, goes back or forward in the
/// history.
pub open spec fn js_mouse_event_spec(ev: MouseEventInfo) -> Seq<char> {
    js_event_opening(ev) + js_event_rest(ev)
}

/// The script up to the `buttons` value: the element under the pointer, and
/// the event's name and button.
pub open spec fn js_event_opening(ev: MouseEventInfo) -> Seq<char> {
    "(() => {\n        const el = document.elementFromPoint("@
        + signed_decimal(ev.x as int)
        + ","@
        + signed_decimal(ev.y as int)
        + ");\n        const ev = new MouseEvent('"@
        + event_name_text(ev.down)
        + "', {\n          view: window,\n          button: "@
        + decimal(js_button(ev.back_button) as nat)
        + ",\n          buttons: "@
}

/// The rest of the script: the event's other fields, its dispatch and the
/// history branch.
pub open spec fn js_event_rest(ev: MouseEventInfo) -> Seq<char> {
        decimal(ev.buttons as nat)
        + ",\n          x: "@
        + signed_decimal(ev.x as int)
        + ",\n          y: "@
        + signed_decimal(ev.y as int)
        + ",\n          bubbles: true,\n          detail: "@
        + signed_decimal(ev.detail as int)
        + ",\n          cancelBubble: false,\n          cancelable: true,\n          clientX: "@
        + signed_decimal(ev.x as int)
        + ",\n          clientY: "@
        + signed_decimal(ev.y as int)
        + ",\n          composed: true,\n          layerX: "@
        + signed_decimal(ev.x as int)
        + ",\n          layerY: "@
        + signed_decimal(ev.y as int)
        + ",\n          pageX: "@
        + signed_decimal(ev.x as int)
        + ",\n          pageY: "@
        + signed_decimal(ev.y as int)
        + ",\n          screenX: window.screenX + "@
        + signed_decimal(ev.x as int)
        + ",\n          screenY: window.screenY + "@
        + signed_decimal(ev.y as int)
        + ",\n          ctrlKey: "@
        + bool_text(ev.ctrl_key)
        + ",\n          metaKey: "@
        + bool_text(ev.meta_key)
        + ",\n          shiftKey: "@
        + bool_text(ev.shift_key)
        + ",\n          altKey: "@
        + bool_text(ev.alt_key)
        + ",\n        });\n        el.dispatchEvent(ev)\n        if (!ev.defaultPrevented && \""@
        + event_name_text(ev.down)
        + "\" === \"mouseup\") {\n          if (ev.button === 3) {\n            window.history.back();\n          }\n          if (ev.button === 4) {\n            window.history.forward();\n          }\n        }\n      })()"@
}

/// The opening of the script, up to the `buttons` value.
fn event_opening(ev: &MouseEventInfo) -> (js: String)
    ensures
        js@ == js_event_opening(*ev),
{
    let button: u32 = if ev.back_button { 3 } else { 4 };
    let mut js = String::new();
    let ghost mut acc: Seq<char> = Seq::empty();
    assert(js@ =~= acc);
    js.append("(() => {\n        const el = document.elementFromPoint(");
    proof { acc = acc + "(() => {\n        const el = document.elementFromPoint("@; }
    assert(js@ =~= acc);
    push_signed_decimal(&mut js, ev.x);
    proof { acc = acc + signed_decimal(ev.x as int); }
    assert(js@ =~= acc);
    js.append(",");
    proof { acc = acc + ","@; }
    assert(js@ =~= acc);
    push_signed_decimal(&mut js, ev.y);
    proof { acc = acc + signed_decimal(ev.y as int); }
    assert(js@ =~= acc);
    js.append(");\n        const ev = new MouseEvent('");
    proof { acc = acc + ");\n        const ev = new MouseEvent('"@; }
    assert(js@ =~= acc);
    js.append(event_name_str(ev.down));
    proof { acc = acc + event_name_text(ev.down); }
    assert(js@ =~= acc);
    js.append("', {\n          view: window,\n          button: ");
    proof { acc = acc + "', {\n          view: window,\n          button: "@; }
    assert(js@ =~= acc);
    push_decimal(&mut js, button as u64);
    proof { acc = acc + decimal(js_button(ev.back_button) as nat); }
    assert(js@ =~= acc);
    js.append(",\n          buttons: ");
    proof { acc = acc + ",\n          buttons: "@; }
    assert(js@ =~= acc);
    assert(acc =~= js_event_opening(*ev));
    js
}

/// The rest of the script, from the `buttons` value on.
#[verifier::rlimit(50)]
fn event_rest(ev: &MouseEventInfo) -> (js: String)
    ensures
        js@ == js_event_rest(*ev),
{
    let mut js = String::new();
    let ghost mut acc: Seq<char> = Seq::empty();
    assert(js@ =~= acc);
    push_decimal(&mut js, ev.buttons as u64);
    proof { acc = decimal(ev.buttons as nat); }
    assert(js@ =~= acc);
    js.append(",\n          x: ");
    proof { acc = acc + ",\n          x: "@; }
    assert(js@ =~= acc);
    push_signed_decimal(&mut js, ev.x);
    proof { acc = acc + signed_decimal(ev.x as int); }
    assert(js@ =~= acc);
    js.append(",\n          y: ");
    proof { acc = acc + ",\n          y: "@; }
    assert(js@ =~= acc);
    push_signed_decimal(&mut js, ev.y);
    proof { acc = acc + signed_decimal(ev.y as int); }
    assert(js@ =~= acc);
    js.append(",\n          bubbles: true,\n          detail: ");
    proof { acc = acc + ",\n          bubbles: true,\n          detail: "@; }
    assert(js@ =~= acc);
    push_signed_decimal(&mut js, ev.detail);
    proof { acc = acc + signed_decimal(ev.detail as int); }
    assert(js@ =~= acc);
    js.append(",\n          cancelBubble: false,\n          cancelable: true,\n          clientX: ");
    proof { acc = acc + ",\n          cancelBubble: false,\n          cancelable: true,\n          clientX: "@; }
    assert(js@ =~= acc);
    push_signed_decimal(&mut js, ev.x);
    proof { acc = acc + signed_decimal(ev.x as int); }
    assert(js@ =~= acc);
    js.append(",\n          clientY: ");
    proof { acc = acc + ",\n          clientY: "@; }
    assert(js@ =~= acc);
    push_signed_decimal(&mut js, ev.y);
    proof { acc = acc + signed_decimal(ev.y as int); }
    assert(js@ =~= acc);
    js.append(",\n          composed: true,\n          layerX: ");
    proof { acc = acc + ",\n          composed: true,\n          layerX: "@; }
    assert(js@ =~= acc);
    push_signed_decimal(&mut js, ev.x);
    proof { acc = acc + signed_decimal(ev.x as int); }
    assert(js@ =~= acc);
    js.append(",\n          layerY: ");
    proof { acc = acc + ",\n          layerY: "@; }
    assert(js@ =~= acc);
    push_signed_decimal(&mut js, ev.y);
    proof { acc = acc + signed_decimal(ev.y as int); }
    assert(js@ =~= acc);
    js.append(",\n          pageX: ");
    proof { acc = acc + ",\n          pageX: "@; }
    assert(js@ =~= acc);
    push_signed_decimal(&mut js, ev.x);
    proof { acc = acc + signed_decimal(ev.x as int); }
    assert(js@ =~= acc);
    js.append(",\n          pageY: ");
    proof { acc = acc + ",\n          pageY: "@; }
    assert(js@ =~= acc);
    push_signed_decimal(&mut js, ev.y);
    proof { acc = acc + signed_decimal(ev.y as int); }
    assert(js@ =~= acc);
    js.append(",\n          screenX: window.screenX + ");
    proof { acc = acc + ",\n          screenX: window.screenX + "@; }
    assert(js@ =~= acc);
    push_signed_decimal(&mut js, ev.x);
    proof { acc = acc + signed_decimal(ev.x as int); }
    assert(js@ =~= acc);
    js.append(",\n          screenY: window.screenY + ");
    proof { acc = acc + ",\n          screenY: window.screenY + "@; }
    assert(js@ =~= acc);
    push_signed_decimal(&mut js, ev.y);
    proof { acc = acc + signed_decimal(ev.y as int); }
    assert(js@ =~= acc);
    js.append(",\n          ctrlKey: ");
    proof { acc = acc + ",\n          ctrlKey: "@; }
    assert(js@ =~= acc);
    js.append(bool_str(ev.ctrl_key));
    proof { acc = acc + bool_text(ev.ctrl_key); }
    assert(js@ =~= acc);
    js.append(",\n          metaKey: ");
    proof { acc = acc + ",\n          metaKey: "@; }
    assert(js@ =~= acc);
    js.append(bool_str(ev.meta_key));
    proof { acc = acc + bool_text(ev.meta_key); }
    assert(js@ =~= acc);
    js.append(",\n          shiftKey: ");
    proof { acc = acc + ",\n          shiftKey: "@; }
    assert(js@ =~= acc);
    js.append(bool_str(ev.shift_key));
    proof { acc = acc + bool_text(ev.shift_key); }
    assert(js@ =~= acc);
    js.append(",\n          altKey: ");
    proof { acc = acc + ",\n          altKey: "@; }
    assert(js@ =~= acc);
    js.append(bool_str(ev.alt_key));
    proof { acc = acc + bool_text(ev.alt_key); }
    assert(js@ =~= acc);
    js.append(",\n        });\n        el.dispatchEvent(ev)\n        if (!ev.defaultPrevented && \"");
    proof { acc = acc + ",\n        });\n        el.dispatchEvent(ev)\n        if (!ev.defaultPrevented && \""@; }
    assert(js@ =~= acc);
    js.append(event_name_str(ev.down));
    proof { acc = acc + event_name_text(ev.down); }
    assert(js@ =~= acc);
    js.append("\" === \"mouseup\") {\n          if (ev.button === 3) {\n            window.history.back();\n          }\n          if (ev.button === 4) {\n            window.history.forward();\n          }\n        }\n      })()");
    proof { acc = acc + "\" === \"mouseup\") {\n          if (ev.button === 3) {\n            window.history.back();\n          }\n          if (ev.button === 4) {\n            window.history.forward();\n          }\n        }\n      })()"@; }
    assert(js@ =~= acc);
    assert(acc =~= js_event_rest(*ev));
    js
}

/// The script that replays a back or forward button event in the web content.
pub fn create_js_mouse_event(ev: &MouseEventInfo) -> (js: String)
    ensures
        js@ == js_mouse_event_spec(*ev),
{
    let mut js = event_opening(ev);
    let rest = event_rest(ev);
    js.append(rest.as_str());
    js
}

/// Whether `needle` occurs in `text`.
pub open spec fn contains_text(text: Seq<char>, needle: Seq<char>) -> bool {
    exists|i: int| 0 <= i && i + needle.len() <= text.len() && #[trigger] text.subrange(i, i + needle.len()) == needle
}

/// The script dispatches the DOM code of the button that was used, the code
/// its own history branch tests for: 3 for the back button, whose release goes
/// back in the history, and 4 for the forward button, whose release goes
/// forward.
#[verifier::rlimit(100)]
#[verifier::spinoff_prover]
pub proof fn script_dispatches_the_buttons_dom_code(ev: MouseEventInfo)
    ensures
        ev.back_button ==> contains_text(js_mouse_event_spec(ev), "view: window,\n          button: 3,\n"@),
        !ev.back_button ==> contains_text(js_mouse_event_spec(ev), "view: window,\n          button: 4,\n"@),
        contains_text(js_mouse_event_spec(ev), "if (ev.button === 3) {\n            window.history.back();"@),
        contains_text(js_mouse_event_spec(ev), "if (ev.button === 4) {\n            window.history.forward();"@),
{
    let s = js_mouse_event_spec(ev);
    let o = js_event_opening(ev);
    let q = "(() => {\n        const el = document.elementFromPoint("@
        + signed_decimal(ev.x as int)
        + ","@
        + signed_decimal(ev.y as int)
        + ");\n        const ev = new MouseEvent('"@
        + event_name_text(ev.down);
    let d = decimal(js_button(ev.back_button) as nat);
    let t = "\" === \"mouseup\") {\n          if (ev.button === 3) {\n            window.history.back();\n          }\n          if (ev.button === 4) {\n            window.history.forward();\n          }\n        }\n      })()"@;
    reveal_strlit("', {\n          view: window,\n          button: ");
    reveal_strlit(",\n          buttons: ");
    reveal_strlit("\" === \"mouseup\") {\n          if (ev.button === 3) {\n            window.history.back();\n          }\n          if (ev.button === 4) {\n            window.history.forward();\n          }\n        }\n      })()");
    reveal_strlit("view: window,\n          button: 3,\n");
    reveal_strlit("view: window,\n          button: 4,\n");
    reveal_strlit("if (ev.button === 3) {\n            window.history.back();");
    reveal_strlit("if (ev.button === 4) {\n            window.history.forward();");
    assert(d.len() == 1);
    let i: int = q.len() as int + 15;
    assert(s.subrange(i, i + 35) =~= o.subrange(i, i + 35));
    if ev.back_button {
        assert(d =~= seq!['3']);
        assert(o.subrange(i, i + 35) =~= "view: window,\n          button: 3,\n"@);
    } else {
        assert(d =~= seq!['4']);
        assert(o.subrange(i, i + 35) =~= "view: window,\n          button: 4,\n"@);
    }
    let r = js_event_rest(ev);
    let e: int = s.len() - t.len();
    assert(r.subrange(r.len() - t.len(), r.len() as int) =~= t);
    assert(s.subrange(e, s.len() as int) =~= t);
    assert(s.subrange(e + 29, e + 29 + 57) =~= "if (ev.button === 3) {\n            window.history.back();"@);
    assert(s.subrange(e + 109, e + 109 + 60) =~= "if (ev.button === 4) {\n            window.history.forward();"@);
}
/// Bit `n` of the pressed-buttons mask tells whether button `n` is down:
/// setting it makes the button down, clearing it makes it up, and buttons past
/// bit 63 are never down.
pub proof fn button_bits(buttons: u64, n: u64)
    ensures
        n < 64 ==> button_down(buttons | (1u64 << n), n),
        n < 64 ==> !button_down(buttons & !(1u64 << n), n),
        n < 64 ==> (button_down(buttons, n) <==> buttons & (1u64 << n) != 0),
        n >= 64 ==> !button_down(buttons, n),
{
    if n < 64 {
        assert(((buttons | (1u64 << n)) >> n) & 1u64 == 1u64) by (bit_vector)
            requires
                n < 64,
        ;
        assert(((buttons & !(1u64 << n)) >> n) & 1u64 == 0u64) by (bit_vector)
            requires
                n < 64,
        ;
        assert((((buttons >> n) & 1u64) == 1u64) <==> (buttons & (1u64 << n) != 0)) by (bit_vector)
            requires
                n < 64,
        ;
    }
}

/// The DOM `buttons` value gives each pressed button its own bit, the MouseEvent
/// encoding: left 1, right 2, middle 4, back 8, forward 16.
pub proof fn pressed_buttons_bits(left: bool, right: bool, middle: bool, back: bool, forward: bool)
    ensures
        pressed_buttons_spec(left, false, false, false, false) == (if left { 1nat } else { 0nat }),
        pressed_buttons_spec(false, right, false, false, false) == (if right { 2nat } else { 0nat }),
        pressed_buttons_spec(false, false, middle, false, false) == (if middle { 4nat } else { 0nat }),
        pressed_buttons_spec(false, false, false, back, false) == (if back { 8nat } else { 0nat }),
        pressed_buttons_spec(false, false, false, false, forward) == (if forward { 16nat } else { 0nat }),
        pressed_buttons_spec(left, right, middle, back, forward)
            == pressed_buttons_spec(left, false, false, false, false) + pressed_buttons_spec(false, right, false, false, false)
            + pressed_buttons_spec(false, false, middle, false, false) + pressed_buttons_spec(false, false, false, back, false)
            + pressed_buttons_spec(false, false, false, false, forward),
{
}
} // verus!
