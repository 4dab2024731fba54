use vstd::prelude::*;

verus! {

/// The kind of media a page asks to capture.
#[derive(Clone, Copy, Debug, PartialEq, Eq, Structural)]
pub enum WKMediaCaptureType {
    Camera,
    Microphone,
    CameraAndMicrophone,
}

/// The answer given to a media capture permission request.
#[derive(Clone, Copy, Debug, PartialEq, Eq, Structural)]
pub enum WKPermissionDecision {
    Prompt,
    Grant,
    Deny,
}

/// The answer given to a display capture permission request.
#[derive(Clone, Copy, Debug, PartialEq, Eq, Structural)]
pub enum WKDisplayCapturePermissionDecision {
    Deny,
    ScreenPrompt,
    WindowPrompt,
}

/// The raw value of a media capture type, as the platform encodes it.
pub open spec fn media_capture_type_code(t: WKMediaCaptureType) -> isize {
    match t {
        WKMediaCaptureType::Camera => 0,
        WKMediaCaptureType::Microphone => 1,
        WKMediaCaptureType::CameraAndMicrophone => 2,
    }
}

/// The raw value of a permission decision, as the platform encodes it.
pub open spec fn permission_decision_code(d: WKPermissionDecision) -> isize {
    match d {
        WKPermissionDecision::Prompt => 0,
        WKPermissionDecision::Grant => 1,
        WKPermissionDecision::Deny => 2,
    }
}

/// The raw value of a display capture decision, as the platform encodes it.
pub open spec fn display_capture_decision_code(d: WKDisplayCapturePermissionDecision) -> isize {
    match d {
        WKDisplayCapturePermissionDecision::Deny => 0,
        WKDisplayCapturePermissionDecision::ScreenPrompt => 1,
        WKDisplayCapturePermissionDecision::WindowPrompt => 2,
    }
}

impl WKMediaCaptureType {
    /// Decodes a raw value; only 0, 1 and 2 are media capture types.
    pub fn from_isize(value: isize) -> (t: WKMediaCaptureType)
        requires
            0 <= value <= 2,
        ensures
            media_capture_type_code(t) == value,
    {
        if value == 0 {
            WKMediaCaptureType::Camera
        } else if value == 1 {
            WKMediaCaptureType::Microphone
        } else {
            WKMediaCaptureType::CameraAndMicrophone
        }
    }

    /// The raw value of this media capture type.
    pub fn to_isize(self) -> (value: isize)
        ensures
            value == media_capture_type_code(self),
    {
        match self {
            WKMediaCaptureType::Camera => 0,
            WKMediaCaptureType::Microphone => 1,
            WKMediaCaptureType::CameraAndMicrophone => 2,
        }
    }
}

impl WKPermissionDecision {
    /// Decodes a raw value; only 0, 1 and 2 are permission decisions.
    pub fn from_isize(value: isize) -> (d: WKPermissionDecision)
        requires
            0 <= value <= 2,
        ensures
            permission_decision_code(d) == value,
    {
        if value == 0 {
            WKPermissionDecision::Prompt
        } else if value == 1 {
            WKPermissionDecision::Grant
        } else {
            WKPermissionDecision::Deny
        }
    }

    /// The raw value of this permission decision.
    pub fn to_isize(self) -> (value: isize)
        ensures
            value == permission_decision_code(self),
    {
        match self {
            WKPermissionDecision::Prompt => 0,
            WKPermissionDecision::Grant => 1,
            WKPermissionDecision::Deny => 2,
        }
    }
}

impl WKDisplayCapturePermissionDecision {
    /// Decodes a raw value; only 0, 1 and 2 are display capture decisions.
    pub fn from_isize(value: isize) -> (d: WKDisplayCapturePermissionDecision)
        requires
            0 <= value <= 2,
        ensures
            display_capture_decision_code(d) == value,
    {
        if value == 0 {
            WKDisplayCapturePermissionDecision::Deny
        } else if value == 1 {
            WKDisplayCapturePermissionDecision::ScreenPrompt
        } else {
            WKDisplayCapturePermissionDecision::WindowPrompt
        }
    }

    /// The raw value of this display capture decision.
    pub fn to_isize(self) -> (value: isize)
        ensures
            value == display_capture_decision_code(self),
    {
        match self {
            WKDisplayCapturePermissionDecision::Deny => 0,
            WKDisplayCapturePermissionDecision::ScreenPrompt => 1,
            WKDisplayCapturePermissionDecision::WindowPrompt => 2,
        }
    }
}

/// Encoding a media capture type and decoding it again gives it back, and each
/// type has its own code.
pub proof fn media_capture_type_round_trip(t: WKMediaCaptureType, u: WKMediaCaptureType)
    ensures
        0 <= media_capture_type_code(t) <= 2,
        media_capture_type_code(t) == media_capture_type_code(u) ==> t == u,
{
}

/// Encoding a permission decision and decoding it again gives it back, and each
/// decision has its own code.
pub proof fn permission_decision_round_trip(d: WKPermissionDecision, e: WKPermissionDecision)
    ensures
        0 <= permission_decision_code(d) <= 2,
        permission_decision_code(d) == permission_decision_code(e) ==> d == e,
{
}

/// Encoding a display capture decision and decoding it again gives it back, and
/// each decision has its own code.
pub proof fn display_capture_decision_round_trip(
    d: WKDisplayCapturePermissionDecision,
    e: WKDisplayCapturePermissionDecision,
)
    ensures
        0 <= display_capture_decision_code(d) <= 2,
        display_capture_decision_code(d) == display_capture_decision_code(e) ==> d == e,
{
}

/// The raw values the platform uses: camera 0, microphone 1, both 2; prompt 0,
/// grant 1, deny 2; and for display capture deny 0, screen prompt 1, window
/// prompt 2.
pub proof fn platform_codes(t: WKMediaCaptureType, d: WKPermissionDecision, e: WKDisplayCapturePermissionDecision)
    ensures
        t == WKMediaCaptureType::Camera ==> media_capture_type_code(t) == 0,
        t == WKMediaCaptureType::Microphone ==> media_capture_type_code(t) == 1,
        t == WKMediaCaptureType::CameraAndMicrophone ==> media_capture_type_code(t) == 2,
        d == WKPermissionDecision::Prompt ==> permission_decision_code(d) == 0,
        d == WKPermissionDecision::Grant ==> permission_decision_code(d) == 1,
        d == WKPermissionDecision::Deny ==> permission_decision_code(d) == 2,
        e == WKDisplayCapturePermissionDecision::Deny ==> display_capture_decision_code(e) == 0,
        e == WKDisplayCapturePermissionDecision::ScreenPrompt ==> display_capture_decision_code(e) == 1,
        e == WKDisplayCapturePermissionDecision::WindowPrompt ==> display_capture_decision_code(e) == 2,
{
}
} // verus!
