//! The fallback-aware two-attempt fetch protocol.
//!
//! Fetching a remote profile may fail because the environment has no
//! direct network route. The controller here first asks for the fetch
//! exactly as merged, and on failure asks for one more fetch routed
//! through the tool's own proxy core. On fallback success it restores the
//! caller's original routing intent onto the returned item, so the one
//! fallback leaves the persisted intent for future refreshes untouched.
//! The caller performs each requested fetch and hands the outcome back as
//! an event; no third attempt is ever requested.

use vstd::prelude::*;
use vstd::pervasive::unreached;
use crate::notify::{Notification, NotificationKind, NotificationView};
use crate::options::ProfileOption;
use crate::profile::{opt_view, ItemView, ProfileItem};

verus! {

/// What one call of the external fetch primitive produced.
pub enum FetchEvent {
    Fetched(ProfileItem),
    FetchFailed(String),
}

/// Mathematical model of a `FetchEvent`.
pub ghost enum EventView {
    Fetched(ItemView),
    FetchFailed(Seq<char>),
}

impl View for FetchEvent {
    type V = EventView;

    open spec fn view(&self) -> EventView {
        match self {
            FetchEvent::Fetched(item) => EventView::Fetched(item@),
            FetchEvent::FetchFailed(m) => EventView::FetchFailed(m@),
        }
    }
}

/// One fetch the caller is asked to perform.
pub struct FetchRequest {
    pub url: String,
    pub option: Option<ProfileOption>,
}

/// Mathematical model of a `FetchRequest`.
pub ghost struct RequestView {
    pub url: Seq<char>,
    pub option: Option<ProfileOption>,
}

impl View for FetchRequest {
    type V = RequestView;

    open spec fn view(&self) -> RequestView {
        RequestView { url: self.url@, option: self.option }
    }
}

/// Where the two-attempt protocol stands.
pub enum FetchPhase {
    /// Waiting on the direct attempt: the merged options as given.
    FirstAttempt,
    /// Waiting on the fallback attempt: routing forced through the tool's
    /// own proxy.
    SecondAttempt,
    /// An attempt succeeded.
    Done { item: ProfileItem, used_fallback: bool },
    /// Both attempts failed; `message` is the second error's text.
    Failed { message: String },
}

/// Mathematical model of a `FetchPhase`.
pub ghost enum PhaseView {
    FirstAttempt,
    SecondAttempt,
    Done { item: ItemView, used_fallback: bool },
    Failed { message: Seq<char> },
}

impl View for FetchPhase {
    type V = PhaseView;

    open spec fn view(&self) -> PhaseView {
        match self {
            FetchPhase::FirstAttempt => PhaseView::FirstAttempt,
            FetchPhase::SecondAttempt => PhaseView::SecondAttempt,
            FetchPhase::Done { item, used_fallback } => PhaseView::Done {
                item: item@,
                used_fallback: *used_fallback,
            },
            FetchPhase::Failed { message } => PhaseView::Failed { message: message@ },
        }
    }
}

/// The fallback attempt's options: the merged options (empty when absent)
/// with routing forced through the tool's own proxy.
pub open spec fn spec_fallback_option(merged: Option<ProfileOption>) -> ProfileOption {
    let base = match merged {
        Option::Some(o) => o,
        Option::None => ProfileOption::spec_empty(),
    };
    ProfileOption { with_proxy: Option::Some(false), self_proxy: Option::Some(true), ..base }
}

/// The upstream-proxy routing the caller originally asked for.
pub open spec fn original_with_proxy(merged: Option<ProfileOption>) -> Option<bool> {
    match merged {
        Option::Some(o) => o.with_proxy,
        Option::None => Option::None,
    }
}

/// The self-proxy routing the caller originally asked for.
pub open spec fn original_self_proxy(merged: Option<ProfileOption>) -> Option<bool> {
    match merged {
        Option::Some(o) => o.self_proxy,
        Option::None => Option::None,
    }
}

/// The fetched item with the caller's original routing intent written
/// back over the forced fallback routing, so that the persisted intent
/// for future refreshes is unaffected by the one fallback. An item
/// fetched without an option set gets a fresh one carrying the intent;
/// only when there is no intent to carry does the option set stay
/// absent.
pub open spec fn restore_routing(
    item: ItemView,
    with_proxy: Option<bool>,
    self_proxy: Option<bool>,
) -> ItemView {
    match item.option {
        Option::Some(o) => ItemView {
            option: Option::Some(ProfileOption { with_proxy, self_proxy, ..o }),
            ..item
        },
        Option::None => if with_proxy is Some || self_proxy is Some {
            ItemView {
                option: Option::Some(
                    ProfileOption { with_proxy, self_proxy, ..ProfileOption::spec_empty() },
                ),
                ..item
            }
        } else {
            item
        },
    }
}

/// The name shown in the fallback-success notification: the item's name,
/// or the uid when the item carries none.
pub open spec fn display_name(item: ItemView, uid: Seq<char>) -> Seq<char> {
    match item.name {
        Option::Some(n) => n,
        Option::None => uid,
    }
}

/// Drives the two-attempt fetch protocol for one profile.
pub struct FallbackController {
    uid: String,
    url: String,
    merged: Option<ProfileOption>,
    phase: FetchPhase,
}

/// Mathematical model of a `FallbackController`.
pub ghost struct ControllerView {
    pub uid: Seq<char>,
    pub url: Seq<char>,
    pub merged: Option<ProfileOption>,
    pub phase: PhaseView,
}

impl View for FallbackController {
    type V = ControllerView;

    closed spec fn view(&self) -> ControllerView {
        ControllerView { uid: self.uid@, url: self.url@, merged: self.merged, phase: self.phase@ }
    }
}

/// The fetch that the controller is waiting on, by phase.
pub open spec fn spec_request(c: ControllerView) -> Option<RequestView> {
    match c.phase {
        PhaseView::FirstAttempt => Option::Some(RequestView { url: c.url, option: c.merged }),
        PhaseView::SecondAttempt => Option::Some(
            RequestView { url: c.url, option: Option::Some(spec_fallback_option(c.merged)) },
        ),
        _ => Option::None,
    }
}

/// The protocol's transition relation: the controller after an attempt's
/// outcome, and the notification the transition emits.
pub open spec fn spec_step(c: ControllerView, ev: EventView) -> (ControllerView, Option<
    NotificationView,
>)
    recommends
        c.phase is FirstAttempt || c.phase is SecondAttempt,
{
    match c.phase {
        PhaseView::FirstAttempt => match ev {
            EventView::Fetched(item) => (
                ControllerView { phase: PhaseView::Done { item, used_fallback: false }, ..c },
                Option::None,
            ),
            EventView::FetchFailed(_) => (
                ControllerView { phase: PhaseView::SecondAttempt, ..c },
                Option::Some(
                    NotificationView { kind: NotificationKind::RetryWithClash, payload: c.uid },
                ),
            ),
        },
        PhaseView::SecondAttempt => match ev {
            EventView::Fetched(item) => (
                ControllerView {
                    phase: PhaseView::Done {
                        item: restore_routing(
                            item,
                            original_with_proxy(c.merged),
                            original_self_proxy(c.merged),
                        ),
                        used_fallback: true,
                    },
                    ..c
                },
                Option::Some(
                    NotificationView {
                        kind: NotificationKind::WithClashProxy,
                        payload: display_name(item, c.uid),
                    },
                ),
            ),
            EventView::FetchFailed(m) => (
                ControllerView { phase: PhaseView::Failed { message: m }, ..c },
                Option::Some(
                    NotificationView { kind: NotificationKind::FailedEvenWithClash, payload: m },
                ),
            ),
        },
        _ => (c, Option::None),
    }
}

/// Build the fallback attempt's options from the merged options.
pub fn fallback_option(merged: &Option<ProfileOption>) -> (r: ProfileOption)
    ensures
        r == spec_fallback_option(*merged),
{
    let mut base = match merged {
        Option::Some(o) => *o,
        Option::None => ProfileOption::default(),
    };
    base.with_proxy = Option::Some(false);
    base.self_proxy = Option::Some(true);
    base
}

/// Write the caller's original routing intent back onto a fetched item.
fn restore_routing_exec(item: ProfileItem, merged: &Option<ProfileOption>) -> (r: ProfileItem)
    ensures
        r@ == restore_routing(item@, original_with_proxy(*merged), original_self_proxy(*merged)),
{
    let with_proxy = match merged {
        Option::Some(mo) => mo.with_proxy,
        Option::None => Option::None,
    };
    let self_proxy = match merged {
        Option::Some(mo) => mo.self_proxy,
        Option::None => Option::None,
    };
    let mut item = item;
    match item.option {
        Option::Some(o) => {
            item.option = Option::Some(ProfileOption { with_proxy, self_proxy, ..o });
        },
        Option::None => {
            if with_proxy.is_some() || self_proxy.is_some() {
                item.option = Option::Some(
                    ProfileOption {
                        with_proxy,
                        self_proxy,
                        update_interval: Option::None,
                        accept_invalid_certs: Option::None,
                    },
                );
            }
        },
    }
    item
}

/// The protocol's successful result.
#[derive(Clone, Debug)]
pub struct FetchSuccess {
    pub item: ProfileItem,
    pub used_fallback: bool,
}

impl FallbackController {
    /// Start the protocol for `uid`: the first attempt fetches `url` with
    /// the merged options exactly as given.
    pub fn begin(uid: String, url: String, merged: Option<ProfileOption>) -> (c:
        FallbackController)
        ensures
            c@ == (ControllerView {
                uid: uid@,
                url: url@,
                merged,
                phase: PhaseView::FirstAttempt,
            }),
    {
        FallbackController { uid, url, merged, phase: FetchPhase::FirstAttempt }
    }

    /// Whether an attempt is still pending.
    pub fn is_pending(&self) -> (r: bool)
        ensures
            r == (self@.phase is FirstAttempt || self@.phase is SecondAttempt),
    {
        match &self.phase {
            FetchPhase::FirstAttempt | FetchPhase::SecondAttempt => true,
            _ => false,
        }
    }

    /// The fetch the caller must perform next, when an attempt is pending.
    pub fn current_request(&self) -> (r: Option<FetchRequest>)
        ensures
            opt_view(r) == spec_request(self@),
    {
        match &self.phase {
            FetchPhase::FirstAttempt => Option::Some(
                FetchRequest { url: self.url.clone(), option: self.merged },
            ),
            FetchPhase::SecondAttempt => Option::Some(
                FetchRequest {
                    url: self.url.clone(),
                    option: Option::Some(fallback_option(&self.merged)),
                },
            ),
            _ => Option::None,
        }
    }

    /// Advance on the outcome of the pending attempt. The returned
    /// notification, if any, is owed to the external sink.
    pub fn step(&mut self, ev: FetchEvent) -> (n: Option<Notification>)
        requires
            old(self)@.phase is FirstAttempt || old(self)@.phase is SecondAttempt,
        ensures
            final(self)@ == spec_step(old(self)@, ev@).0,
            opt_view(n) == spec_step(old(self)@, ev@).1,
    {
        match &self.phase {
            FetchPhase::FirstAttempt => match ev {
                FetchEvent::Fetched(item) => {
                    self.phase = FetchPhase::Done { item, used_fallback: false };
                    Option::None
                },
                FetchEvent::FetchFailed(_) => {
                    self.phase = FetchPhase::SecondAttempt;
                    Option::Some(
                        Notification {
                            kind: NotificationKind::RetryWithClash,
                            payload: self.uid.clone(),
                        },
                    )
                },
            },
            FetchPhase::SecondAttempt => match ev {
                FetchEvent::Fetched(item) => {
                    let name = match &item.name {
                        Option::Some(nm) => nm.clone(),
                        Option::None => self.uid.clone(),
                    };
                    let restored = restore_routing_exec(item, &self.merged);
                    self.phase = FetchPhase::Done { item: restored, used_fallback: true };
                    Option::Some(
                        Notification { kind: NotificationKind::WithClashProxy, payload: name },
                    )
                },
                FetchEvent::FetchFailed(m) => {
                    let msg = m.clone();
                    self.phase = FetchPhase::Failed { message: m };
                    Option::Some(
                        Notification { kind: NotificationKind::FailedEvenWithClash, payload: msg },
                    )
                },
            },
            FetchPhase::Done { .. } | FetchPhase::Failed { .. } => unreached(),
        }
    }

    /// Surrender the terminal state: the fetched item and whether the
    /// fallback path produced it, or the second attempt's error text.
    pub fn into_outcome(self) -> (r: Result<FetchSuccess, String>)
        requires
            self@.phase is Done || self@.phase is Failed,
        ensures
            self@.phase matches PhaseView::Done { item, used_fallback } ==> r matches Ok(s)
                && s.item@ == item && s.used_fallback == used_fallback,
            self@.phase matches PhaseView::Failed { message } ==> r matches Err(m) && m@
                == message,
    {
        match self.phase {
            FetchPhase::Done { item, used_fallback } => Result::Ok(
                FetchSuccess { item, used_fallback },
            ),
            FetchPhase::Failed { message } => Result::Err(message),
            FetchPhase::FirstAttempt | FetchPhase::SecondAttempt => unreached(),
        }
    }
}

/// Law: when the direct attempt fails, the fallback fetch is asked for
/// with routing forced through the tool's own proxy; when that attempt
/// then succeeds, the protocol finishes with `used_fallback` set and the
/// finished item's routing fields equal to the caller's original merged
/// values, not the forced fallback values — an absent option set
/// standing for both values absent.
pub proof fn lemma_fallback_restores_intent(c: ControllerView, err: Seq<char>, item: ItemView)
    requires
        c.phase is FirstAttempt,
    ensures
        ({
            let retrying = spec_step(c, EventView::FetchFailed(err)).0;
            &&& spec_request(retrying) matches Some(req)
            &&& req.option matches Some(forced)
            &&& forced.with_proxy == Option::Some(false)
            &&& forced.self_proxy == Option::Some(true)
        }),
        ({
            let done = spec_step(spec_step(c, EventView::FetchFailed(err)).0, EventView::Fetched(item)).0;
            &&& done.phase matches PhaseView::Done { item: out, used_fallback: fb }
            &&& fb == true
            &&& match out.option {
                Option::Some(o) => o.with_proxy == original_with_proxy(c.merged)
                    && o.self_proxy == original_self_proxy(c.merged),
                Option::None => original_with_proxy(c.merged) is None && original_self_proxy(
                    c.merged,
                ) is None,
            }
        }),
{
}

/// Law: the protocol never asks for a third fetch. One settling outcome,
/// or a failure followed by any second outcome, leaves no request
/// pending.
pub proof fn lemma_at_most_two_attempts(c: ControllerView, e1: EventView, e2: EventView)
    requires
        c.phase is FirstAttempt,
    ensures
        ({
            let once = spec_step(c, e1).0;
            &&& once.phase is Done || once.phase is SecondAttempt
            &&& once.phase is Done ==> spec_request(once) is None
            &&& once.phase is SecondAttempt ==> spec_request(spec_step(once, e2).0) is None
        }),
{
}

/// Law: when both attempts fail, the protocol fails with the second
/// attempt's error, not the first's, and the emitted notification carries
/// that second error's text.
pub proof fn lemma_second_error_surfaces(
    c: ControllerView,
    first_err: Seq<char>,
    second_err: Seq<char>,
)
    requires
        c.phase is FirstAttempt,
    ensures
        ({
            let step2 = spec_step(
                spec_step(c, EventView::FetchFailed(first_err)).0,
                EventView::FetchFailed(second_err),
            );
            &&& step2.0.phase == (PhaseView::Failed { message: second_err })
            &&& step2.1 == Option::Some(
                NotificationView {
                    kind: NotificationKind::FailedEvenWithClash,
                    payload: second_err,
                },
            )
        }),
{
}

} // verus!
