use vstd::prelude::*;

pub use crate::objc_type::WKDisplayCapturePermissionDecision;

verus! {

/// Whether a display capture decision handler is installed: only when one is
/// given, and only from macOS 13 on, where the system asks for it.
pub fn installs_display_capture_handler(os_major: u64, has_handler: bool) -> (b: bool)
    ensures
        b == (os_major >= 13 && has_handler),
{
    os_major >= 13 && has_handler
}

} // verus!
