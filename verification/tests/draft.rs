use synclan::draft::Draft;
use synclan::synclan::ISynclan;

#[test]
fn test_draft_box() {
    // 1. Create Draft<Box<ISynclan>>
    let verge = Box::new(ISynclan {
        enable_auto_launch: Some(true),
        enable_encryption: Some(false),
        ..ISynclan::default()
    });
    let mut draft = Draft::from(verge);

    // 2. Read formal data (data_mut)
    {
        let data = draft.data_mut();
        assert_eq!(data.enable_auto_launch, Some(true));
        assert_eq!(data.enable_encryption, Some(false));
    }

    // 3. Get the draft for the first time (draft_mut will automatically clone a copy)
    {
        let draft_view = draft.draft_mut();
        assert_eq!(draft_view.enable_auto_launch, Some(true));
        assert_eq!(draft_view.enable_encryption, Some(false));
    }

    // 4. Modify the draft
    {
        let d = draft.draft_mut();
        d.enable_auto_launch = Some(false);
        d.enable_encryption = Some(true);
    }

    // Official data remains unchanged
    assert_eq!(draft.data_mut().enable_auto_launch, Some(true));
    assert_eq!(draft.data_mut().enable_encryption, Some(false));

    // The draft has changed
    {
        let latest = draft.latest_ref();
        assert_eq!(latest.enable_auto_launch, Some(false));
        assert_eq!(latest.enable_encryption, Some(true));
    }

    // 5. Submit Draft
    assert!(draft.apply().is_some()); // The first submission should return
    assert!(draft.apply().is_none()); // The second submission returns None

    // Official data has been updated
    {
        let data = draft.data_mut();
        assert_eq!(data.enable_auto_launch, Some(false));
        assert_eq!(data.enable_encryption, Some(true));
    }

    // 6. Create and modify the next draft
    {
        let d = draft.draft_mut();
        d.enable_auto_launch = Some(true);
    }
    assert_eq!(draft.draft_mut().enable_auto_launch, Some(true));

    // 7. Discard Draft
    assert!(draft.discard().is_some()); // The first discard returns Some
    assert!(draft.discard().is_none()); // Discard again and return None

    // 8. The draft has been discarded, the new draft_mut() will re-clone
    assert_eq!(draft.draft_mut().enable_auto_launch, Some(false));
}

fn document(auto_launch: bool) -> ISynclan {
    ISynclan { enable_auto_launch: Some(auto_launch), ..ISynclan::default() }
}

#[test]
fn discard_after_edits_leaves_committed_alone() {
    let mut store = Draft::from(document(true));
    store.draft_mut().enable_auto_launch = Some(false);
    store.draft_mut().theme = Some("dark".to_string());
    store.draft_mut().http_server_port = Some(8080);
    let dropped = store.discard().expect("a draft was pending");
    assert_eq!(dropped.theme.as_deref(), Some("dark"));
    assert_eq!(dropped.http_server_port, Some(8080));
    assert_eq!(store.data_ref().enable_auto_launch, Some(true));
    assert_eq!(store.data_ref().theme, None);
    assert_eq!(store.data_ref().http_server_port, None);
    // the next draft starts from the committed value again
    let fresh = store.draft_mut();
    assert_eq!(fresh.enable_auto_launch, Some(true));
    assert_eq!(fresh.theme, None);
    assert_eq!(fresh.http_server_port, None);
}

#[test]
fn apply_commits_the_draft_and_returns_the_old_value() {
    let mut store = Draft::from(document(true));
    store.draft_mut().enable_auto_launch = Some(false);
    let previous = store.apply().expect("a draft was pending");
    assert_eq!(previous.enable_auto_launch, Some(true));
    assert_eq!(store.data_ref().enable_auto_launch, Some(false));
    assert_eq!(store.latest_ref().enable_auto_launch, Some(false));
    assert!(store.apply().is_none());
    assert_eq!(store.data_ref().enable_auto_launch, Some(false));
}

#[test]
fn apply_without_a_draft_changes_nothing() {
    let mut store = Draft::from(document(true));
    assert!(store.apply().is_none());
    assert!(store.discard().is_none());
    assert_eq!(store.data_ref().enable_auto_launch, Some(true));
    assert_eq!(store.latest_ref().enable_auto_launch, Some(true));
}

#[test]
fn latest_prefers_the_draft() {
    let mut store = Draft::from(document(true));
    assert_eq!(store.latest_ref().enable_auto_launch, Some(true));
    store.draft_mut().enable_auto_launch = Some(false);
    assert_eq!(store.latest_ref().enable_auto_launch, Some(false));
    assert_eq!(store.data_ref().enable_auto_launch, Some(true));
}

#[test]
fn data_mut_writes_the_committed_value_only() {
    let mut store = Draft::from(document(true));
    store.draft_mut().theme = Some("dark".to_string());
    store.data_mut().locale = Some("de".to_string());
    assert_eq!(store.data_ref().locale.as_deref(), Some("de"));
    assert_eq!(store.data_ref().theme, None);
    assert_eq!(store.latest_ref().locale, None);
    assert_eq!(store.latest_ref().theme.as_deref(), Some("dark"));
}
