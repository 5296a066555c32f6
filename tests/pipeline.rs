use ui_sync::{
    poll_outcome, startup_sync, LoadError, Notification, PollAction, PresentationPolicy,
    ResourceKind, Snapshot, StateCache, Update, POLL_INTERVAL_MS,
};

fn snap(text: &str) -> Snapshot {
    Snapshot::new(text.as_bytes().to_vec())
}

fn update(kind: ResourceKind, text: &str) -> Update {
    Update::new(kind, snap(text))
}

fn texts(notes: &[Notification]) -> Vec<(ResourceKind, String)> {
    notes
        .iter()
        .map(|n| (n.kind, String::from_utf8(n.snapshot.as_bytes().to_vec()).unwrap()))
        .collect()
}

fn load_error(message: &str) -> LoadError {
    LoadError { message: message.to_string() }
}

#[test]
fn running_status_three_times_notifies_once() {
    let mut cache = StateCache::new();
    let running = r#"{"status":"running"}"#;
    let notes = cache.reconcile_batch(vec![
        update(ResourceKind::Workspaces, running),
        update(ResourceKind::Workspaces, running),
        update(ResourceKind::Workspaces, running),
    ]);
    assert_eq!(texts(&notes), vec![(ResourceKind::Workspaces, running.to_string())]);
    assert_eq!(cache.get(ResourceKind::Workspaces), Some(snap(running)));
    assert_eq!(cache.get(ResourceKind::Providers), None);
}

#[test]
fn counts_notify_in_order_without_the_repeat() {
    let mut cache = StateCache::new();
    let notes = cache.reconcile_batch(vec![
        update(ResourceKind::Providers, r#"{"count":1}"#),
        update(ResourceKind::Providers, r#"{"count":2}"#),
        update(ResourceKind::Providers, r#"{"count":2}"#),
        update(ResourceKind::Providers, r#"{"count":3}"#),
    ]);
    assert_eq!(
        texts(&notes),
        vec![
            (ResourceKind::Providers, r#"{"count":1}"#.to_string()),
            (ResourceKind::Providers, r#"{"count":2}"#.to_string()),
            (ResourceKind::Providers, r#"{"count":3}"#.to_string()),
        ]
    );
    assert_eq!(cache.get(ResourceKind::Providers), Some(snap(r#"{"count":3}"#)));
}

#[test]
fn failed_load_then_success_is_still_processed() {
    let mut cache = StateCache::seeded(snap("prov-0"), snap("ws-0"));
    let first = poll_outcome(ResourceKind::Providers, Err(load_error("devpod not found")));
    assert!(matches!(first, PollAction::Retry));
    let second = poll_outcome(ResourceKind::Providers, Ok(snap("prov-1")));
    let sent = match second {
        PollAction::Send(u) => u,
        PollAction::Retry => panic!("a successful load is forwarded"),
    };
    assert_eq!(sent.kind(), ResourceKind::Providers);
    let note = cache.reconcile(sent).expect("a different snapshot is notified");
    assert_eq!(note.kind, ResourceKind::Providers);
    assert_eq!(note.snapshot, snap("prov-1"));
    assert_eq!(cache.get(ResourceKind::Providers), Some(snap("prov-1")));
}

#[test]
fn successful_load_equal_to_cache_is_not_notified() {
    let mut cache = StateCache::seeded(snap("prov-0"), snap("ws-0"));
    let action = poll_outcome(ResourceKind::Workspaces, Ok(snap("ws-0")));
    let sent = match action {
        PollAction::Send(u) => u,
        PollAction::Retry => panic!("a successful load is forwarded"),
    };
    assert!(cache.reconcile(sent).is_none());
    assert_eq!(cache.get(ResourceKind::Workspaces), Some(snap("ws-0")));
}

#[test]
fn startup_sync_presents_both_initial_loads() {
    let presentation = startup_sync(Ok(snap("providers-1")), Ok(snap("workspaces-1"))).unwrap();
    assert_eq!(presentation.providers, snap("providers-1"));
    assert_eq!(presentation.workspaces, snap("workspaces-1"));
    let mut cache = presentation.seed_cache();
    assert_eq!(cache.get(ResourceKind::Providers), Some(snap("providers-1")));
    assert_eq!(cache.get(ResourceKind::Workspaces), Some(snap("workspaces-1")));
    let notes = cache.reconcile_batch(vec![
        update(ResourceKind::Providers, "providers-1"),
        update(ResourceKind::Workspaces, "workspaces-1"),
    ]);
    assert!(notes.is_empty());
}

#[test]
fn startup_sync_fails_on_providers_first() {
    let err = startup_sync(Err(load_error("p")), Err(load_error("w"))).unwrap_err();
    assert_eq!(err.kind, ResourceKind::Providers);
    assert_eq!(err.cause, load_error("p"));
    let err = startup_sync(Err(load_error("p")), Ok(snap("w"))).unwrap_err();
    assert_eq!(err.kind, ResourceKind::Providers);
}

#[test]
fn startup_sync_fails_on_workspaces() {
    let err = startup_sync(Ok(snap("p")), Err(load_error("w"))).unwrap_err();
    assert_eq!(err.kind, ResourceKind::Workspaces);
    assert_eq!(err.cause, load_error("w"));
}

#[test]
fn interleaved_kinds_converge_to_last_per_kind() {
    let mut cache = StateCache::new();
    let notes = cache.reconcile_batch(vec![
        update(ResourceKind::Providers, "prov-1"),
        update(ResourceKind::Workspaces, "ws-1"),
        update(ResourceKind::Workspaces, "ws-1"),
        update(ResourceKind::Providers, "prov-1"),
        update(ResourceKind::Providers, "prov-2"),
        update(ResourceKind::Workspaces, "ws-2"),
        update(ResourceKind::Providers, "prov-2"),
    ]);
    assert_eq!(
        texts(&notes),
        vec![
            (ResourceKind::Providers, "prov-1".to_string()),
            (ResourceKind::Workspaces, "ws-1".to_string()),
            (ResourceKind::Providers, "prov-2".to_string()),
            (ResourceKind::Workspaces, "ws-2".to_string()),
        ]
    );
    assert_eq!(cache.get(ResourceKind::Providers), Some(snap("prov-2")));
    assert_eq!(cache.get(ResourceKind::Workspaces), Some(snap("ws-2")));

    let mut other = StateCache::new();
    let notes = other.reconcile_batch(vec![
        update(ResourceKind::Workspaces, "ws-1"),
        update(ResourceKind::Workspaces, "ws-1"),
        update(ResourceKind::Workspaces, "ws-2"),
        update(ResourceKind::Providers, "prov-1"),
        update(ResourceKind::Providers, "prov-1"),
        update(ResourceKind::Providers, "prov-2"),
        update(ResourceKind::Providers, "prov-2"),
    ]);
    assert_eq!(notes.len(), 4);
    assert_eq!(other.get(ResourceKind::Providers), Some(snap("prov-2")));
    assert_eq!(other.get(ResourceKind::Workspaces), Some(snap("ws-2")));
}

#[test]
fn equal_pair_on_unset_slot_notifies_once() {
    let mut cache = StateCache::new();
    assert!(cache.reconcile(update(ResourceKind::Providers, "x")).is_some());
    assert!(cache.reconcile(update(ResourceKind::Providers, "x")).is_none());
}

#[test]
fn equal_pair_matching_cache_notifies_nothing() {
    let mut cache = StateCache::seeded(snap("x"), snap("y"));
    let notes = cache.reconcile_batch(vec![
        update(ResourceKind::Providers, "x"),
        update(ResourceKind::Providers, "x"),
    ]);
    assert!(notes.is_empty());
}

#[test]
fn cache_holds_last_after_changes_and_repeats() {
    let mut cache = StateCache::new();
    for text in ["a", "b", "b", "a", "c", "c"] {
        cache.reconcile(update(ResourceKind::Workspaces, text));
    }
    assert_eq!(cache.get(ResourceKind::Workspaces), Some(snap("c")));
    assert_eq!(cache.get(ResourceKind::Providers), None);
}

#[test]
fn empty_snapshot_is_a_change_only_once() {
    let mut cache = StateCache::new();
    assert!(cache.reconcile(update(ResourceKind::Providers, "")).is_some());
    assert!(cache.reconcile(update(ResourceKind::Providers, "")).is_none());
    assert!(cache.reconcile(update(ResourceKind::Providers, "a")).is_some());
}

#[test]
fn snapshot_equality_is_by_content() {
    assert!(snap("abc").same_as(&snap("abc")));
    assert!(!snap("abc").same_as(&snap("abd")));
    assert!(!snap("abc").same_as(&snap("ab")));
    assert_eq!(snap("abc").duplicate(), snap("abc"));
    assert_eq!(snap("abc").len(), 3);
    assert_eq!(snap("abc").as_bytes(), b"abc");
}

#[test]
fn update_carries_kind_and_snapshot() {
    let u = update(ResourceKind::Workspaces, "w");
    assert_eq!(u.kind(), ResourceKind::Workspaces);
    assert_eq!(u.snapshot(), &snap("w"));
    assert!(matches!(u, Update::Workspaces(_)));
    assert_eq!(u.into_snapshot(), snap("w"));
    assert!(matches!(update(ResourceKind::Providers, "p"), Update::Providers(_)));
}

#[test]
fn event_names() {
    assert_eq!(ResourceKind::Providers.event_name(), "providers");
    assert_eq!(ResourceKind::Workspaces.event_name(), "workspaces");
}

#[test]
fn poll_interval_is_one_second() {
    assert_eq!(POLL_INTERVAL_MS, 1000);
}

#[test]
fn presentation_policy_decides_rebuild() {
    let note = Some(Notification { kind: ResourceKind::Providers, snapshot: snap("p") });
    assert!(!PresentationPolicy::AtStartup.rebuild_after(&note));
    assert!(PresentationPolicy::OnEveryChange.rebuild_after(&note));
    assert!(!PresentationPolicy::OnEveryChange.rebuild_after(&None));
}
