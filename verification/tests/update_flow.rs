use profile_update::fallback::{FallbackController, FetchEvent};
use profile_update::notify::NotificationKind;
use profile_update::options::ProfileOption;
use profile_update::profile::{ProfileCollection, ProfileItem, ProfileKind};
use profile_update::update::{finish_update, plan_update, UpdateError, UpdatePlan};

fn opt(with_proxy: Option<bool>, self_proxy: Option<bool>) -> ProfileOption {
    ProfileOption {
        with_proxy,
        self_proxy,
        update_interval: None,
        accept_invalid_certs: None,
    }
}

fn remote_item(uid: &str, url: &str, option: Option<ProfileOption>) -> ProfileItem {
    ProfileItem {
        uid: uid.to_owned(),
        kind: ProfileKind::Remote,
        url: Some(url.to_owned()),
        name: None,
        option,
    }
}

#[test]
fn direct_success_needs_no_fallback() {
    let mut ctrl = FallbackController::begin(
        "a".to_owned(),
        "http://x".to_owned(),
        Some(opt(Some(true), None)),
    );
    let req = ctrl.current_request().unwrap();
    assert_eq!(req.url, "http://x");
    assert_eq!(req.option, Some(opt(Some(true), None)));
    let fetched = remote_item("a", "http://x", Some(opt(None, None)));
    let note = ctrl.step(FetchEvent::Fetched(fetched.clone()));
    assert!(note.is_none());
    assert!(!ctrl.is_pending());
    assert!(ctrl.current_request().is_none());
    let success = ctrl.into_outcome().unwrap();
    assert!(!success.used_fallback);
    assert_eq!(success.item, fetched);
}

#[test]
fn fallback_request_forces_self_proxy() {
    let merged = ProfileOption {
        with_proxy: Some(true),
        self_proxy: None,
        update_interval: Some(30),
        accept_invalid_certs: None,
    };
    let mut ctrl =
        FallbackController::begin("a".to_owned(), "http://x".to_owned(), Some(merged));
    let note = ctrl.step(FetchEvent::FetchFailed("no route".to_owned())).unwrap();
    assert_eq!(note.kind, NotificationKind::RetryWithClash);
    assert_eq!(note.payload, "a");
    let req = ctrl.current_request().unwrap();
    assert_eq!(req.url, "http://x");
    let forced = req.option.unwrap();
    assert_eq!(forced.with_proxy, Some(false));
    assert_eq!(forced.self_proxy, Some(true));
    // The other fetch-affecting fields ride along unchanged.
    assert_eq!(forced.update_interval, Some(30));
}

#[test]
fn fallback_success_restores_original_routing() {
    let mut ctrl = FallbackController::begin(
        "a".to_owned(),
        "http://x".to_owned(),
        Some(opt(Some(true), None)),
    );
    ctrl.step(FetchEvent::FetchFailed("no route".to_owned()));
    let fetched = remote_item("a", "http://x", Some(opt(Some(false), Some(true))));
    let note = ctrl.step(FetchEvent::Fetched(fetched)).unwrap();
    assert_eq!(note.kind, NotificationKind::WithClashProxy);
    assert_eq!(note.payload, "a");
    let success = ctrl.into_outcome().unwrap();
    assert!(success.used_fallback);
    let restored = success.item.option.unwrap();
    assert_eq!(restored.with_proxy, Some(true));
    assert_eq!(restored.self_proxy, None);
}

#[test]
fn fallback_restore_creates_missing_option_set() {
    // The fallback fetch returns an item without an option set; the
    // caller's routing intent must still be carried on the persisted
    // item for the next refresh.
    let mut ctrl = FallbackController::begin(
        "a".to_owned(),
        "http://x".to_owned(),
        Some(opt(Some(true), None)),
    );
    ctrl.step(FetchEvent::FetchFailed("no route".to_owned()));
    let fetched = ProfileItem {
        uid: "a".to_owned(),
        kind: ProfileKind::Remote,
        url: Some("http://x".to_owned()),
        name: None,
        option: None,
    };
    ctrl.step(FetchEvent::Fetched(fetched));
    let success = ctrl.into_outcome().unwrap();
    assert!(success.used_fallback);
    let restored = success.item.option.unwrap();
    assert_eq!(restored.with_proxy, Some(true));
    assert_eq!(restored.self_proxy, None);
    assert_eq!(restored.update_interval, None);
    assert_eq!(restored.accept_invalid_certs, None);
}

#[test]
fn fallback_restore_without_intent_keeps_option_absent() {
    let mut ctrl =
        FallbackController::begin("a".to_owned(), "http://x".to_owned(), None);
    ctrl.step(FetchEvent::FetchFailed("no route".to_owned()));
    let fetched = ProfileItem {
        uid: "a".to_owned(),
        kind: ProfileKind::Remote,
        url: Some("http://x".to_owned()),
        name: None,
        option: None,
    };
    ctrl.step(FetchEvent::Fetched(fetched));
    let success = ctrl.into_outcome().unwrap();
    assert!(success.used_fallback);
    assert_eq!(success.item.option, None);
}

#[test]
fn fallback_success_notification_prefers_item_name() {
    let mut ctrl =
        FallbackController::begin("a".to_owned(), "http://x".to_owned(), None);
    ctrl.step(FetchEvent::FetchFailed("no route".to_owned()));
    let mut fetched = remote_item("a", "http://x", None);
    fetched.name = Some("My Subscription".to_owned());
    let note = ctrl.step(FetchEvent::Fetched(fetched)).unwrap();
    assert_eq!(note.kind, NotificationKind::WithClashProxy);
    assert_eq!(note.payload, "My Subscription");
}

#[test]
fn fallback_failure_surfaces_second_error() {
    let mut ctrl =
        FallbackController::begin("a".to_owned(), "http://x".to_owned(), None);
    ctrl.step(FetchEvent::FetchFailed("first error".to_owned()));
    let note = ctrl.step(FetchEvent::FetchFailed("second error".to_owned())).unwrap();
    assert_eq!(note.kind, NotificationKind::FailedEvenWithClash);
    assert_eq!(note.payload, "second error");
    // No third attempt is ever requested.
    assert!(!ctrl.is_pending());
    assert!(ctrl.current_request().is_none());
    let err = ctrl.into_outcome().unwrap_err();
    assert_eq!(err, "second error");
}

#[test]
fn skip_fetch_reloads_only_active_profile() {
    let mut profiles = ProfileCollection::new();
    profiles.update_item(&"a".to_owned(), remote_item("a", "http://x", None));
    profiles.update_item(&"b".to_owned(), remote_item("b", "http://y", None));
    profiles.set_current(&"a".to_owned());
    let active = plan_update(&profiles, &"a".to_owned(), None, true, true);
    assert!(matches!(active, UpdatePlan::SkipFetch { apply_core: true }));
    let inactive = plan_update(&profiles, &"b".to_owned(), None, true, true);
    assert!(matches!(inactive, UpdatePlan::SkipFetch { apply_core: false }));
    let no_refresh = plan_update(&profiles, &"a".to_owned(), None, false, true);
    assert!(matches!(no_refresh, UpdatePlan::SkipFetch { apply_core: false }));
}

#[test]
fn unknown_uid_is_rejected() {
    let profiles = ProfileCollection::new();
    let plan = plan_update(&profiles, &"ghost".to_owned(), None, true, false);
    assert!(matches!(
        plan,
        UpdatePlan::Rejected { error: UpdateError::NotFound }
    ));
}

#[test]
fn remote_without_url_is_rejected_before_any_fetch() {
    let mut profiles = ProfileCollection::new();
    let mut broken = remote_item("a", "http://x", None);
    broken.url = None;
    profiles.update_item(&"a".to_owned(), broken.clone());
    let plan = plan_update(&profiles, &"a".to_owned(), None, true, false);
    assert!(matches!(
        plan,
        UpdatePlan::Rejected { error: UpdateError::MissingUrl }
    ));
    // Planning only reads: the stored entry is untouched.
    assert_eq!(profiles.get_item(&"a".to_owned()), Some(&broken));
}

#[test]
fn local_profile_skips_fetch_and_reloads_on_refresh() {
    let mut profiles = ProfileCollection::new();
    let local = ProfileItem {
        uid: "a".to_owned(),
        kind: ProfileKind::Local,
        url: None,
        name: None,
        option: None,
    };
    profiles.update_item(&"a".to_owned(), local);
    let plan = plan_update(&profiles, &"a".to_owned(), None, true, false);
    assert!(matches!(plan, UpdatePlan::LocalProfile { apply_core: true }));
    let quiet = plan_update(&profiles, &"a".to_owned(), None, false, false);
    assert!(matches!(quiet, UpdatePlan::LocalProfile { apply_core: false }));
}

#[test]
fn remote_plan_merges_stored_and_override_options() {
    let mut profiles = ProfileCollection::new();
    profiles.update_item(
        &"a".to_owned(),
        remote_item("a", "http://x", Some(opt(Some(true), None))),
    );
    let plan = plan_update(
        &profiles,
        &"a".to_owned(),
        Some(opt(None, Some(true))),
        true,
        false,
    );
    match plan {
        UpdatePlan::FetchRemote { url, merged } => {
            assert_eq!(url, "http://x");
            assert_eq!(merged, Some(opt(Some(true), Some(true))));
        }
        other => panic!("expected a fetch plan, got {other:?}"),
    }
}

#[test]
fn finish_update_persists_and_reports_reload() {
    let mut profiles = ProfileCollection::new();
    profiles.update_item(&"a".to_owned(), remote_item("a", "http://x", None));
    profiles.set_current(&"a".to_owned());
    let mut ctrl =
        FallbackController::begin("a".to_owned(), "http://x".to_owned(), None);
    ctrl.step(FetchEvent::Fetched(remote_item("a", "http://x", Some(opt(None, None)))));
    let reload = finish_update(&mut profiles, &"a".to_owned(), ctrl.into_outcome(), true);
    assert_eq!(reload.unwrap(), true);
    let got = profiles.get_item(&"a".to_owned()).unwrap();
    assert_eq!(got.option, Some(opt(None, None)));
}

#[test]
fn finish_update_failure_leaves_store_untouched() {
    let mut profiles = ProfileCollection::new();
    let before = remote_item("a", "http://x", Some(opt(Some(true), None)));
    profiles.update_item(&"a".to_owned(), before.clone());
    let err = finish_update(
        &mut profiles,
        &"a".to_owned(),
        Err("second error".to_owned()),
        true,
    )
    .unwrap_err();
    match err {
        UpdateError::FetchFailed { attempt, message } => {
            assert_eq!(attempt, 2);
            assert_eq!(message, "second error");
        }
        other => panic!("expected a fetch failure, got {other:?}"),
    }
    assert_eq!(profiles.get_item(&"a".to_owned()), Some(&before));
}

#[test]
fn fallback_scenario_restores_intent_and_reloads() {
    // Store: {uid "a", remote, url http://x, option {with_proxy: true}},
    // active profile "a". The direct fetch fails, the fallback one
    // returns an item with an empty (but present) option set.
    let mut profiles = ProfileCollection::new();
    profiles.update_item(
        &"a".to_owned(),
        remote_item("a", "http://x", Some(opt(Some(true), None))),
    );
    profiles.set_current(&"a".to_owned());

    let plan = plan_update(&profiles, &"a".to_owned(), None, true, false);
    let (url, merged) = match plan {
        UpdatePlan::FetchRemote { url, merged } => (url, merged),
        other => panic!("expected a fetch plan, got {other:?}"),
    };
    assert_eq!(merged, Some(opt(Some(true), None)));

    let mut ctrl = FallbackController::begin("a".to_owned(), url, merged);
    let retry = ctrl.step(FetchEvent::FetchFailed("network unreachable".to_owned())).unwrap();
    assert_eq!(retry.kind, NotificationKind::RetryWithClash);

    let fetched = remote_item("a", "http://x", Some(opt(None, None)));
    let note = ctrl.step(FetchEvent::Fetched(fetched)).unwrap();
    assert_eq!(note.kind, NotificationKind::WithClashProxy);

    let reload = finish_update(&mut profiles, &"a".to_owned(), ctrl.into_outcome(), true);
    // The profile is the active one and refresh was asked: reload.
    assert_eq!(reload.unwrap(), true);

    let stored = profiles.get_item(&"a".to_owned()).unwrap();
    assert_eq!(stored.option, Some(opt(Some(true), None)));
}
