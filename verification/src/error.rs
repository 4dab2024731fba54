use vstd::prelude::*;

verus! {

/// Errors reported by the library.
#[derive(Debug, Clone, PartialEq, Eq)]
pub enum Error {
    /// A custom protocol with this name was already registered.
    DuplicateCustomProtocol(String),
    /// The webview or the custom protocol task that a response was meant for is gone.
    CustomProtocolTaskInvalid,
    /// A text given as a URL is not one.
    UrlParse,
}

} // verus!
