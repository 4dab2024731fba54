use vstd::prelude::*;
use crate::error::Error;
use crate::webview::PageLoadEvent;

verus! {

/// A stage of a page load in WebKitGTK.
#[derive(Debug, Clone, Copy, PartialEq, Eq, Structural)]
pub enum LoadEvent {
    Started,
    Redirected,
    Committed,
    Finished,
}

/// What the page load handler is told of a load stage: the load started once
/// its navigation is committed, and finished when it finished; the other stages
/// are not reported.
pub fn page_load_event(event: LoadEvent) -> (e: Option<PageLoadEvent>)
    ensures
        event == LoadEvent::Committed ==> e == Some(PageLoadEvent::Started),
        event == LoadEvent::Finished ==> e == Some(PageLoadEvent::Finished),
        event == LoadEvent::Started || event == LoadEvent::Redirected ==> e is None,
{
    match event {
        LoadEvent::Committed => Some(PageLoadEvent::Started),
        LoadEvent::Finished => Some(PageLoadEvent::Finished),
        _ => None,
    }
}

/// The kind of a policy decision WebKitGTK asks for.
#[derive(Debug, Clone, Copy, PartialEq, Eq, Structural)]
pub enum PolicyDecisionType {
    NavigationAction,
    NewWindowAction,
    Response,
}

/// Which handler answers a policy decision.
#[derive(Debug, Clone, Copy, PartialEq, Eq, Structural)]
pub enum PolicyHandler {
    Navigation,
    NewWindow,
}

/// The handler that answers a policy decision, if the application gave it: the
/// navigation handler for navigations, the new window handler for new windows,
/// and none for responses.
pub fn policy_handler(policy: PolicyDecisionType, has_navigation_handler: bool, has_new_window_handler: bool) -> (h: Option<PolicyHandler>)
    ensures
        policy == PolicyDecisionType::NavigationAction ==> h == (if has_navigation_handler { Some(PolicyHandler::Navigation) } else { None }),
        policy == PolicyDecisionType::NewWindowAction ==> h == (if has_new_window_handler { Some(PolicyHandler::NewWindow) } else { None }),
        policy == PolicyDecisionType::Response ==> h is None,
{
    match policy {
        PolicyDecisionType::NavigationAction => if has_navigation_handler { Some(PolicyHandler::Navigation) } else { None },
        PolicyDecisionType::NewWindowAction => if has_new_window_handler { Some(PolicyHandler::NewWindow) } else { None },
        PolicyDecisionType::Response => None,
    }
}

/// What registering a webview's custom protocol on its context comes to: a
/// protocol already registered on the context is not an error for the webview,
/// since its handler is still submitted; any other error is.
pub fn webview_protocol_registration(r: Result<(), Error>) -> (out: Result<(), Error>)
    ensures
        (r matches Err(Error::DuplicateCustomProtocol(_))) ==> out is Ok,
        !(r matches Err(Error::DuplicateCustomProtocol(_))) ==> out == r,
{
    match r {
        Err(Error::DuplicateCustomProtocol(_)) => Ok(()),
        other => other,
    }
}

} // verus!
