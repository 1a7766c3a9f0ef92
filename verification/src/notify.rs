//! Messages the update flow owes to the external notification sink.

use vstd::prelude::*;

verus! {

/// The user-visible message kinds of the update flow, one per sink key.
#[derive(Clone, Copy, Debug, PartialEq, Eq)]
pub enum NotificationKind {
    /// Sink key `update_retry_with_clash`: the direct fetch failed and the
    /// fallback attempt is starting; the payload is the profile uid.
    RetryWithClash,
    /// Sink key `update_with_clash_proxy`: the fallback fetch succeeded;
    /// the payload is the profile's display name.
    WithClashProxy,
    /// Sink key `update_failed_even_with_clash`: both attempts failed; the
    /// payload is the second error's text.
    FailedEvenWithClash,
    /// Sink key `update_failed`: the core reload failed; the payload is
    /// the error text.
    UpdateFailed,
}

/// One message for the external notification sink.
#[derive(Clone, Debug)]
pub struct Notification {
    pub kind: NotificationKind,
    pub payload: String,
}

/// Mathematical model of a `Notification`.
pub ghost struct NotificationView {
    pub kind: NotificationKind,
    pub payload: Seq<char>,
}

impl View for Notification {
    type V = NotificationView;

    open spec fn view(&self) -> NotificationView {
        NotificationView { kind: self.kind, payload: self.payload@ }
    }
}

} // verus!
