//! The notification bridge.
//!
//! The operation forwards a title and a body to the host's native
//! notification service and returns as soon as the host accepts the request.
//! This layer validates nothing: any title and any body, empty ones
//! included, reach the host exactly as given. A refusal by the host becomes
//! a host error carrying the host's own message.

use vstd::prelude::*;

use crate::error::{unit_result_view, BridgeError, ErrorView};

verus! {

/// A notification request as handed to the host: a title and a body,
/// free-form, with no identity or lifecycle beyond the one call.
pub struct NotificationRequest {
    pub title: String,
    pub body: String,
}

/// The mathematical image of a [`NotificationRequest`].
pub struct NotificationRequestView {
    pub title: Seq<char>,
    pub body: Seq<char>,
}

impl View for NotificationRequest {
    type V = NotificationRequestView;

    open spec fn view(&self) -> NotificationRequestView {
        NotificationRequestView { title: self.title@, body: self.body@ }
    }
}

/// Builds the request the host is handed. No field is required and none is
/// inspected: every title and body is accepted and kept unchanged.
pub fn notification_request(title: String, body: String) -> (r: NotificationRequest)
    ensures
        r@ == (NotificationRequestView { title: title@, body: body@ }),
{
    NotificationRequest { title, body }
}

/// The image of the operation's answer.
pub open spec fn notify_result_view(r: Result<(), BridgeError>) -> Result<(), ErrorView> {
    match r {
        Ok(u) => Ok(u),
        Err(e) => Err(e@),
    }
}

/// The operation's answer from the host's acceptance result: success exactly
/// when the host accepted, a host error with the host's message otherwise —
/// never the cancellation error, which only a dialog can produce.
pub open spec fn notify_finish_spec(host_result: Result<(), Seq<char>>) -> Result<(), ErrorView> {
    match host_result {
        Ok(u) => Ok(u),
        Err(m) => Err(ErrorView::Host(m)),
    }
}

/// Turns the host notification service's result into the operation's answer.
pub fn notify_finish(host_result: Result<(), String>) -> (r: Result<(), BridgeError>)
    ensures
        notify_result_view(r) == notify_finish_spec(unit_result_view(host_result)),
{
    match host_result {
        Ok(_) => Ok(()),
        Err(m) => Err(BridgeError::Host(m)),
    }
}

} // verus!
