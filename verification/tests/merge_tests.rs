use imposterbot::config::NotificationConfig;
use imposterbot::media::MediaRef;
use imposterbot::merge::merge;
use imposterbot::request::ResolvedRequest;
use imposterbot::text::escape_newlines;
use imposterbot::tristate::TriState;

fn untouched() -> ResolvedRequest {
    ResolvedRequest {
        content: TriState::Unset,
        description: TriState::Unset,
        author: TriState::Unset,
        footer: TriState::Unset,
        thumbnail: TriState::Unset,
        author_icon: TriState::Unset,
        footer_icon: TriState::Unset,
    }
}

fn sample_record() -> NotificationConfig {
    NotificationConfig {
        guild_id: 7,
        join: true,
        content: "hi {mention}".to_string(),
        description: "desc".to_string(),
        author: "auth".to_string(),
        footer: "foot".to_string(),
        thumbnail: Some(MediaRef::LocalFile("thumb.png".to_string())),
        author_icon: Some(MediaRef::Url("http://x/icon.png".to_string())),
        footer_icon: None,
    }
}

#[test]
fn clear_on_default_field_yields_no_diff_and_no_orphan() {
    let existing = NotificationConfig::default_for(1, true);
    let mut request = untouched();
    request.description = TriState::Clear;
    request.thumbnail = TriState::Clear;
    let (updated, orphans) = merge(&existing, request);
    assert_eq!(updated, NotificationConfig::default_for(1, true));
    assert!(orphans.is_empty());
}

#[test]
fn unset_preserves_every_field() {
    let existing = sample_record();
    let (updated, orphans) = merge(&existing, untouched());
    assert_eq!(updated, sample_record());
    assert!(orphans.is_empty());
}

#[test]
fn clear_orphans_prior_local_file() {
    let existing = sample_record();
    let mut request = untouched();
    request.thumbnail = TriState::Clear;
    let (updated, orphans) = merge(&existing, request);
    assert_eq!(updated.thumbnail, None);
    assert_eq!(orphans, vec!["thumb.png".to_string()]);
}

#[test]
fn replacing_local_file_with_other_file_orphans_it_once() {
    let existing = sample_record();
    let mut request = untouched();
    request.thumbnail = TriState::SetTo(MediaRef::LocalFile("new.png".to_string()));
    let (updated, orphans) = merge(&existing, request);
    assert_eq!(updated.thumbnail, Some(MediaRef::LocalFile("new.png".to_string())));
    assert_eq!(orphans, vec!["thumb.png".to_string()]);
}

#[test]
fn setting_same_local_file_orphans_nothing() {
    let existing = sample_record();
    let mut request = untouched();
    request.thumbnail = TriState::SetTo(MediaRef::LocalFile("thumb.png".to_string()));
    let (updated, orphans) = merge(&existing, request);
    assert_eq!(updated.thumbnail, Some(MediaRef::LocalFile("thumb.png".to_string())));
    assert!(orphans.is_empty());
}

#[test]
fn replacing_url_records_no_orphan() {
    // Upload replaces URL: the prior value was not a local file, so there
    // is nothing to orphan.
    let existing = sample_record();
    let mut request = untouched();
    request.author_icon = TriState::SetTo(MediaRef::LocalFile("fresh.png".to_string()));
    let (updated, orphans) = merge(&existing, request);
    assert_eq!(updated.author_icon, Some(MediaRef::LocalFile("fresh.png".to_string())));
    assert!(orphans.is_empty());
}

#[test]
fn clearing_url_field_records_no_orphan() {
    let existing = sample_record();
    let mut request = untouched();
    request.author_icon = TriState::Clear;
    let (updated, orphans) = merge(&existing, request);
    assert_eq!(updated.author_icon, None);
    assert!(orphans.is_empty());
}

#[test]
fn orphans_come_in_field_order() {
    let mut existing = sample_record();
    existing.footer_icon = Some(MediaRef::LocalFile("footer.png".to_string()));
    let mut request = untouched();
    request.thumbnail = TriState::Clear;
    request.footer_icon = TriState::Clear;
    let (_, orphans) = merge(&existing, request);
    assert_eq!(orphans, vec!["thumb.png".to_string(), "footer.png".to_string()]);
}

#[test]
fn escaped_newline_is_decoded_on_set() {
    let existing = NotificationConfig::default_for(3, false);
    let mut request = untouched();
    request.content = TriState::SetTo("line1\\nline2".to_string());
    let (updated, orphans) = merge(&existing, request);
    assert_eq!(updated.content, "line1\nline2");
    assert!(orphans.is_empty());
}

#[test]
fn escape_newlines_exact_values() {
    assert_eq!(escape_newlines("line1\\nline2"), "line1\nline2");
    assert_eq!(escape_newlines("no escapes"), "no escapes");
    assert_eq!(escape_newlines("\\n"), "\n");
    assert_eq!(escape_newlines(""), "");
    assert_eq!(escape_newlines("trailing\\"), "trailing\\");
}

#[test]
fn merge_keeps_the_record_key() {
    let existing = sample_record();
    let mut request = untouched();
    request.content = TriState::Clear;
    let (updated, _) = merge(&existing, request);
    assert_eq!(updated.guild_id, 7);
    assert!(updated.join);
}
