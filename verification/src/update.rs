//! Top-level orchestration of one profile update request.
//!
//! `plan_update` resolves a request against the store: skip the fetch,
//! reject the request, finish without fetching, or run the two-attempt
//! fetch protocol of `crate::fallback`. `finish_update` settles a remote
//! update once that protocol has ended. `core_apply_outcome` decides what
//! follows an attempted core reload.

use vstd::prelude::*;
use crate::fallback::FetchSuccess;
use crate::notify::{Notification, NotificationKind, NotificationView};
use crate::options::{spec_merge, ProfileOption};
use crate::profile::{
    is_current_profile, opt_view, updated_with, CollectionView, ProfileCollection, ProfileKind,
};

verus! {

/// Why an update fails. A core-reload failure is absent on purpose: it is
/// reported and swallowed, never surfaced, so that it cannot undo an
/// already-persisted profile.
#[derive(Clone, Debug)]
pub enum UpdateError {
    /// The uid names no stored profile.
    NotFound,
    /// The profile is remote but carries no subscription URL.
    MissingUrl,
    /// The fetch primitive failed on the given attempt; the two-attempt
    /// protocol surfaces the second attempt's error.
    FetchFailed { attempt: u64, message: String },
}

/// Mathematical model of an `UpdateError`.
pub ghost enum ErrorView {
    NotFound,
    MissingUrl,
    FetchFailed { attempt: u64, message: Seq<char> },
}

impl View for UpdateError {
    type V = ErrorView;

    open spec fn view(&self) -> ErrorView {
        match self {
            UpdateError::NotFound => ErrorView::NotFound,
            UpdateError::MissingUrl => ErrorView::MissingUrl,
            UpdateError::FetchFailed { attempt, message } => ErrorView::FetchFailed {
                attempt: *attempt,
                message: message@,
            },
        }
    }
}

/// What one update request must do, resolved against the store.
#[derive(Clone, Debug)]
pub enum UpdatePlan {
    /// The request fails now, before any fetch.
    Rejected { error: UpdateError },
    /// The fetch was skipped on request: reload the core when asked to,
    /// nothing else.
    SkipFetch { apply_core: bool },
    /// The profile is not remote, so there is nothing to fetch; reload
    /// the core when refresh was asked.
    LocalProfile { apply_core: bool },
    /// The profile is remote: run the two-attempt fetch protocol on this
    /// URL with these merged options.
    FetchRemote { url: String, merged: Option<ProfileOption> },
}

/// Mathematical model of an `UpdatePlan`.
pub ghost enum PlanView {
    Rejected { error: ErrorView },
    SkipFetch { apply_core: bool },
    LocalProfile { apply_core: bool },
    FetchRemote { url: Seq<char>, merged: Option<ProfileOption> },
}

impl View for UpdatePlan {
    type V = PlanView;

    open spec fn view(&self) -> PlanView {
        match self {
            UpdatePlan::Rejected { error } => PlanView::Rejected { error: error@ },
            UpdatePlan::SkipFetch { apply_core } => PlanView::SkipFetch {
                apply_core: *apply_core,
            },
            UpdatePlan::LocalProfile { apply_core } => PlanView::LocalProfile {
                apply_core: *apply_core,
            },
            UpdatePlan::FetchRemote { url, merged } => PlanView::FetchRemote {
                url: url@,
                merged: *merged,
            },
        }
    }
}

/// The plan for `update(uid, patch, auto_refresh, skip_fetch)`:
/// - skip the fetch when asked, reloading only an active profile and only
///   when refresh was asked;
/// - reject an unknown uid with `NotFound`;
/// - finish a non-remote profile without fetching, reloading when refresh
///   was asked;
/// - reject a remote profile without a URL with `MissingUrl`;
/// - otherwise fetch the profile's URL with the stored options merged
///   with the caller's overrides.
pub open spec fn spec_plan(
    c: CollectionView,
    uid: Seq<char>,
    patch: Option<ProfileOption>,
    auto_refresh: bool,
    skip_fetch: bool,
) -> PlanView {
    if skip_fetch {
        PlanView::SkipFetch { apply_core: c.is_current(uid) && auto_refresh }
    } else if !c.contains_uid(uid) {
        PlanView::Rejected { error: ErrorView::NotFound }
    } else {
        let item = c.item_at(uid);
        if item.kind != ProfileKind::Remote {
            PlanView::LocalProfile { apply_core: auto_refresh }
        } else {
            match item.url {
                Option::None => PlanView::Rejected { error: ErrorView::MissingUrl },
                Option::Some(u) => PlanView::FetchRemote {
                    url: u,
                    merged: spec_merge(item.option, patch),
                },
            }
        }
    }
}

/// Resolve one update request against the store. Reads the store and
/// plans; it performs no fetch and writes nothing.
pub fn plan_update(
    profiles: &ProfileCollection,
    uid: &String,
    patch: Option<ProfileOption>,
    auto_refresh: bool,
    skip_fetch: bool,
) -> (p: UpdatePlan)
    requires
        profiles@.wf(),
    ensures
        p@ == spec_plan(profiles@, uid@, patch, auto_refresh, skip_fetch),
{
    if skip_fetch {
        let apply_core = is_current_profile(profiles, uid) && auto_refresh;
        return UpdatePlan::SkipFetch { apply_core };
    }
    match profiles.get_item(uid) {
        Option::None => UpdatePlan::Rejected { error: UpdateError::NotFound },
        Option::Some(item) => match item.kind {
            ProfileKind::Local => UpdatePlan::LocalProfile { apply_core: auto_refresh },
            ProfileKind::Remote => match &item.url {
                Option::None => UpdatePlan::Rejected { error: UpdateError::MissingUrl },
                Option::Some(u) => UpdatePlan::FetchRemote {
                    url: u.clone(),
                    merged: ProfileOption::merge(item.option, patch),
                },
            },
        },
    }
}

/// Settle a remote update once the two-attempt protocol has ended: on
/// success persist the fetched item under `uid` and report whether the
/// core must reload; on failure surface the second attempt's error and
/// leave the store untouched.
pub fn finish_update(
    profiles: &mut ProfileCollection,
    uid: &String,
    outcome: Result<FetchSuccess, String>,
    auto_refresh: bool,
) -> (r: Result<bool, UpdateError>)
    requires
        old(profiles)@.wf(),
    ensures
        final(profiles)@.wf(),
        outcome matches Err(m) ==> ({
            &&& final(profiles)@ == old(profiles)@
            &&& r matches Err(e)
            &&& e@ == (ErrorView::FetchFailed { attempt: 2, message: m@ })
        }),
        outcome matches Ok(s) ==> ({
            &&& updated_with(old(profiles)@, final(profiles)@, uid@, s.item@)
            &&& r matches Ok(apply)
            &&& apply == (old(profiles)@.is_current(uid@) && auto_refresh)
        }),
{
    match outcome {
        Result::Ok(s) => {
            profiles.update_item(uid, s.item);
            let cur = is_current_profile(profiles, uid);
            Result::Ok(cur && auto_refresh)
        },
        Result::Err(m) => Result::Err(UpdateError::FetchFailed { attempt: 2, message: m }),
    }
}

/// What the caller must do after attempting the core reload.
pub struct CoreApplyOutcome {
    /// On success: signal the external UI layer to refresh.
    pub refresh_ui: bool,
    /// On failure: the user-visible message owed to the sink.
    pub notification: Option<Notification>,
}

/// Decide what follows a core reload attempt. A failed reload is terminal
/// but non-fatal: it is reported, never propagated, so it cannot undo an
/// already-persisted profile; a successful reload asks the UI to refresh.
pub fn core_apply_outcome(result: Result<(), String>) -> (o: CoreApplyOutcome)
    ensures
        result is Ok ==> o.refresh_ui && o.notification is None,
        result matches Err(m) ==> !o.refresh_ui && opt_view(o.notification) == Option::Some(
            NotificationView { kind: NotificationKind::UpdateFailed, payload: m@ },
        ),
{
    match result {
        Result::Ok(_) => CoreApplyOutcome { refresh_ui: true, notification: Option::None },
        Result::Err(m) => CoreApplyOutcome {
            refresh_ui: false,
            notification: Option::Some(
                Notification { kind: NotificationKind::UpdateFailed, payload: m },
            ),
        },
    }
}

/// Law: a skip-fetch update with refresh asked plans no fetch — only a
/// `FetchRemote` plan ever carries one — and asks for the core reload
/// exactly when the uid is the active one.
pub proof fn lemma_skip_fetch_reloads_iff_current(
    c: CollectionView,
    uid: Seq<char>,
    patch: Option<ProfileOption>,
)
    ensures
        spec_plan(c, uid, patch, true, true) == (PlanView::SkipFetch {
            apply_core: c.is_current(uid),
        }),
{
}

/// Law: a remote profile without a URL is rejected with `MissingUrl`: the
/// plan carries no fetch, and planning reads the store without writing
/// it.
pub proof fn lemma_missing_url_rejected(
    c: CollectionView,
    uid: Seq<char>,
    patch: Option<ProfileOption>,
    auto_refresh: bool,
)
    requires
        c.contains_uid(uid),
        c.item_at(uid).kind == ProfileKind::Remote,
        c.item_at(uid).url is None,
    ensures
        spec_plan(c, uid, patch, auto_refresh, false) == (PlanView::Rejected {
            error: ErrorView::MissingUrl,
        }),
{
}

/// Law: a non-remote profile plans no fetch, and with refresh asked the
/// core reload follows.
pub proof fn lemma_local_profile_reloads(
    c: CollectionView,
    uid: Seq<char>,
    patch: Option<ProfileOption>,
)
    requires
        c.contains_uid(uid),
        c.item_at(uid).kind != ProfileKind::Remote,
    ensures
        spec_plan(c, uid, patch, true, false) == (PlanView::LocalProfile { apply_core: true }),
{
}

} // verus!
