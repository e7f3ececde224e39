use imposterbot::config::NotificationConfig;
use imposterbot::config::NotificationType;
use imposterbot::media::MediaRef;
use imposterbot::media::MediaSource;
use imposterbot::media::UploadHandle;
use imposterbot::orchestrate::ConfigureError;
use imposterbot::orchestrate::configure;
use imposterbot::render::RenderContext;
use imposterbot::request::PartialUpdateRequest;
use imposterbot::request::ResolvedRequest;
use imposterbot::resolve::ResolveSession;
use imposterbot::store::NotificationStore;
use imposterbot::tristate::TriState;

fn untouched() -> ResolvedRequest {
    ResolvedRequest {
        content: TriState::Unset,
        description: TriState::Unset,
        author: TriState::Unset,
        footer: TriState::Unset,
        thumbnail: TriState::Unset,
        author_icon: TriState::Unset,
        footer_icon: TriState::Unset,
    }
}

fn ctx() -> RenderContext {
    RenderContext {
        join: true,
        name: "Ann".to_string(),
        mention: Some("@Ann".to_string()),
        avatar_url: None,
        member_count: None,
        online_member_count: None,
    }
}

fn record(guild_id: u64, join: bool, content: &str) -> NotificationConfig {
    let mut r = NotificationConfig::default_for(guild_id, join);
    r.content = content.to_string();
    r
}

#[test]
fn find_on_empty_store_is_none() {
    let store = NotificationStore::new();
    assert!(store.find_by_key(1, true).is_none());
}

#[test]
fn upsert_then_find_returns_the_record() {
    let mut store = NotificationStore::new();
    store.upsert(record(1, true, "hello"));
    let found = store.find_by_key(1, true).expect("record should be stored");
    assert_eq!(found.content, "hello");
    assert!(store.find_by_key(1, false).is_none());
    assert!(store.find_by_key(2, true).is_none());
}

#[test]
fn upsert_replaces_under_the_same_key() {
    let mut store = NotificationStore::new();
    store.upsert(record(1, true, "first"));
    store.upsert(record(1, true, "second"));
    let found = store.find_by_key(1, true).expect("record should be stored");
    assert_eq!(found.content, "second");
    assert_eq!(store.records.len(), 1);
}

#[test]
fn upsert_is_idempotent_under_retry() {
    let mut store = NotificationStore::new();
    store.upsert(record(1, true, "same"));
    store.upsert(record(1, true, "same"));
    assert_eq!(store.records.len(), 1);
    assert_eq!(store.find_by_key(1, true).unwrap().content, "same");
}

#[test]
fn join_and_leave_are_separate_records() {
    let mut store = NotificationStore::new();
    store.upsert(record(1, true, "welcome"));
    store.upsert(record(1, false, "goodbye"));
    assert_eq!(store.find_by_key(1, true).unwrap().content, "welcome");
    assert_eq!(store.find_by_key(1, false).unwrap().content, "goodbye");
    assert_eq!(store.records.len(), 2);
}

#[test]
fn delete_removes_only_its_key() {
    let mut store = NotificationStore::new();
    store.upsert(record(1, true, "welcome"));
    store.upsert(record(1, false, "goodbye"));
    store.delete_by_key(1, true);
    assert!(store.find_by_key(1, true).is_none());
    assert_eq!(store.find_by_key(1, false).unwrap().content, "goodbye");
}

#[test]
fn delete_on_absent_key_changes_nothing() {
    let mut store = NotificationStore::new();
    store.upsert(record(1, true, "welcome"));
    store.delete_by_key(9, false);
    assert_eq!(store.records.len(), 1);
}

#[test]
fn notification_type_maps_to_join_flag() {
    assert!(NotificationType::Join.as_join_flag());
    assert!(!NotificationType::Leave.as_join_flag());
}

#[test]
fn configure_then_clear_leaves_empty_description() {
    // Full configure-then-clear: set Join's description, then clear it;
    // the stored description ends empty.
    let mut store = NotificationStore::new();
    let available: Vec<String> = Vec::new();

    let mut first = untouched();
    first.description = TriState::SetTo("Welcome {name}!".to_string());
    let outcome = configure(&mut store, 5, true, first, &ctx(), &available);
    assert_eq!(outcome.record.description, "Welcome {name}!");
    assert_eq!(store.find_by_key(5, true).unwrap().description, "Welcome {name}!");
    let embed = outcome.preview.embed.expect("preview embed should be present");
    assert_eq!(embed.description, Some("Welcome Ann!".to_string()));

    let mut second = untouched();
    second.description = TriState::Clear;
    let outcome = configure(&mut store, 5, true, second, &ctx(), &available);
    assert!(outcome.orphans.is_empty());
    assert_eq!(store.find_by_key(5, true).unwrap().description, "");
}

#[test]
fn configure_reports_orphans_for_deletion() {
    let mut store = NotificationStore::new();
    let available: Vec<String> = Vec::new();
    let mut first = untouched();
    first.thumbnail = TriState::SetTo(MediaRef::LocalFile("old.png".to_string()));
    configure(&mut store, 5, true, first, &ctx(), &available);
    let mut second = untouched();
    second.thumbnail = TriState::SetTo(MediaRef::LocalFile("new.png".to_string()));
    let outcome = configure(&mut store, 5, true, second, &ctx(), &available);
    assert_eq!(outcome.orphans, vec!["old.png".to_string()]);
}

#[test]
fn upload_replaces_url_through_a_session() {
    // Upload replaces URL: the existing thumbnail is a plain address; a
    // request carrying an upload resolves to a local file, and no orphan
    // is recorded.
    let mut store = NotificationStore::new();
    let available: Vec<String> = Vec::new();
    let mut first = untouched();
    first.thumbnail = TriState::SetTo(MediaRef::Url("http://x/img.png".to_string()));
    configure(&mut store, 5, true, first, &ctx(), &available);

    let request = PartialUpdateRequest::new().thumbnail(
        Some(UploadHandle {
            filename: "photo.png".to_string(),
            url: "http://cdn/photo".to_string(),
        }),
        None,
    );
    let mut session = ResolveSession::begin(request);
    let pending = session.next_upload().expect("one upload should be pending");
    assert_eq!(pending.url, "http://cdn/photo");
    session.note_success("stored.png".to_string());
    assert!(session.next_upload().is_none());
    let resolved = session.finish();
    assert_eq!(
        resolved.thumbnail,
        TriState::SetTo(MediaRef::LocalFile("stored.png".to_string()))
    );

    let outcome = configure(&mut store, 5, true, resolved, &ctx(), &available);
    assert!(outcome.orphans.is_empty());
    assert_eq!(
        store.find_by_key(5, true).unwrap().thumbnail,
        Some(MediaRef::LocalFile("stored.png".to_string()))
    );
}

#[test]
fn failed_fetch_rolls_back_earlier_files() {
    // Rollback atomicity: the second of two uploads fails; the rollback
    // list holds the first field's stored file and the partial file, and
    // the session can no longer produce a resolved request.
    let request = PartialUpdateRequest::new()
        .thumbnail(
            Some(UploadHandle { filename: "a.png".to_string(), url: "http://cdn/a".to_string() }),
            None,
        )
        .footer_icon(
            Some(UploadHandle { filename: "b.png".to_string(), url: "http://cdn/b".to_string() }),
            None,
        );
    let mut session = ResolveSession::begin(request);
    let first = session.next_upload().expect("first upload pending");
    assert_eq!(first.url, "http://cdn/a");
    session.note_success("a-stored.png".to_string());
    let second = session.next_upload().expect("second upload pending");
    assert_eq!(second.url, "http://cdn/b");
    let rollback = session.note_failure(Some("b-partial.png".to_string()));
    assert_eq!(rollback, vec!["a-stored.png".to_string(), "b-partial.png".to_string()]);
    assert!(session.next_upload().is_none());
    assert!(session.failed);
}

#[test]
fn failure_without_partial_file_rolls_back_successes_only() {
    let request = PartialUpdateRequest::new().thumbnail(
        Some(UploadHandle { filename: "a.png".to_string(), url: "http://cdn/a".to_string() }),
        None,
    );
    let mut session = ResolveSession::begin(request);
    let rollback = session.note_failure(None);
    assert!(rollback.is_empty());
    assert!(session.failed);
}

#[test]
fn builder_media_entry_prefers_upload_over_url() {
    let request = PartialUpdateRequest::new().thumbnail(
        Some(UploadHandle { filename: "f.png".to_string(), url: "http://cdn/f".to_string() }),
        Some("http://x/ignored.png".to_string()),
    );
    assert_eq!(
        request.thumbnail,
        TriState::SetTo(MediaSource::Upload(UploadHandle {
            filename: "f.png".to_string(),
            url: "http://cdn/f".to_string(),
        }))
    );
}

#[test]
fn builder_absent_parameters_mean_clear() {
    let request = PartialUpdateRequest::new().thumbnail(None, None).content(None);
    assert_eq!(request.thumbnail, TriState::Clear);
    assert_eq!(request.content, TriState::Clear);
    assert_eq!(request.description, TriState::Unset);
}

#[test]
fn configure_error_messages_are_distinct() {
    let messages = [
        ConfigureError::MediaUnavailable.message(),
        ConfigureError::FileSystemError.message(),
        ConfigureError::StoreFailure.message(),
        ConfigureError::PreviewFailure.message(),
    ];
    for (i, a) in messages.iter().enumerate() {
        assert!(!a.is_empty());
        for b in messages.iter().skip(i + 1) {
            assert_ne!(a, b);
        }
    }
}
