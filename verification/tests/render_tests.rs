use imposterbot::config::NotificationConfig;
use imposterbot::media::MediaRef;
use imposterbot::render::MemberNotificationFile;
use imposterbot::render::MemberNotificationMessageDetails;
use imposterbot::render::RenderContext;
use imposterbot::render::substitutions;
use imposterbot::template::SubstPair;
use imposterbot::template::substitute;

fn join_ctx() -> RenderContext {
    RenderContext {
        join: true,
        name: "Ann".to_string(),
        mention: Some("@Ann".to_string()),
        avatar_url: Some("http://cdn/ann.png".to_string()),
        member_count: Some(42),
        online_member_count: Some(7),
    }
}

#[test]
fn substitute_replaces_bound_keys() {
    let pairs = vec![SubstPair { key: "name".to_string(), value: "Bob".to_string() }];
    assert_eq!(substitute("Hello {name}!", &pairs), "Hello Bob!");
}

#[test]
fn substitute_leaves_unknown_keys_verbatim() {
    let pairs = vec![SubstPair { key: "name".to_string(), value: "Bob".to_string() }];
    assert_eq!(substitute("Hello {rank} {name}!", &pairs), "Hello {rank} Bob!");
}

#[test]
fn substitute_leaves_unclosed_brace_verbatim() {
    let pairs = vec![SubstPair { key: "name".to_string(), value: "Bob".to_string() }];
    assert_eq!(substitute("Hello {name", &pairs), "Hello {name");
    assert_eq!(substitute("} alone", &pairs), "} alone");
}

#[test]
fn substitute_empty_text_is_empty() {
    let pairs: Vec<SubstPair> = Vec::new();
    assert_eq!(substitute("", &pairs), "");
}

#[test]
fn substitutions_carry_the_full_join_vocabulary() {
    let pairs = substitutions(&join_ctx());
    let as_tuples: Vec<(String, String)> =
        pairs.iter().map(|p| (p.key.clone(), p.value.clone())).collect();
    assert_eq!(
        as_tuples,
        vec![
            ("name".to_string(), "Ann".to_string()),
            ("mention".to_string(), "@Ann".to_string()),
            ("user_avatar".to_string(), "http://cdn/ann.png".to_string()),
            ("member_count".to_string(), "42".to_string()),
            ("online_member_count".to_string(), "7".to_string()),
        ]
    );
}

#[test]
fn substitutions_omit_mention_for_leave_events() {
    let mut ctx = join_ctx();
    ctx.join = false;
    let pairs = substitutions(&ctx);
    assert!(pairs.iter().all(|p| p.key != "mention"));
    assert!(pairs.iter().any(|p| p.key == "name"));
}

#[test]
fn substitutions_omit_unavailable_counts() {
    let mut ctx = join_ctx();
    ctx.member_count = None;
    ctx.online_member_count = None;
    ctx.avatar_url = None;
    let pairs = substitutions(&ctx);
    assert_eq!(pairs.len(), 2);
}

#[test]
fn round_trip_rendering_leaves_no_tokens() {
    // A record with no media fields, rendered with every referenced
    // placeholder bound: no placeholder token survives in the output.
    let record = NotificationConfig {
        guild_id: 1,
        join: true,
        content: "Welcome {mention}!".to_string(),
        description: "{name} joined; now {member_count} members".to_string(),
        author: "Greetings".to_string(),
        footer: "online: {online_member_count}".to_string(),
        thumbnail: None,
        author_icon: None,
        footer_icon: None,
    };
    let rendered = record.to_format().for_context(&join_ctx());
    assert_eq!(rendered.content, Some("Welcome @Ann!".to_string()));
    let embed = rendered.embed.expect("embed should be present");
    assert_eq!(embed.description, Some("Ann joined; now 42 members".to_string()));
    assert_eq!(embed.footer, Some("online: 7".to_string()));
    for token in ["{name}", "{mention}", "{member_count}", "{online_member_count}"] {
        assert!(!rendered.content.as_ref().unwrap().contains(token));
        assert!(!embed.description.as_ref().unwrap().contains(token));
        assert!(!embed.footer.as_ref().unwrap().contains(token));
    }
}

#[test]
fn attachment_filenames_are_never_substituted() {
    let record = NotificationConfig {
        guild_id: 1,
        join: true,
        content: String::new(),
        description: "d".to_string(),
        author: String::new(),
        footer: String::new(),
        thumbnail: Some(MediaRef::LocalFile("{name}.png".to_string())),
        author_icon: None,
        footer_icon: None,
    };
    let rendered = record.to_format().for_context(&join_ctx());
    let embed = rendered.embed.expect("embed should be present");
    let thumb = embed.thumbnail.expect("thumbnail should be present");
    assert!(thumb.attachment);
    assert_eq!(thumb.url, "{name}.png");
}

#[test]
fn url_media_is_substituted() {
    let record = NotificationConfig {
        guild_id: 1,
        join: true,
        content: String::new(),
        description: "d".to_string(),
        author: String::new(),
        footer: String::new(),
        thumbnail: Some(MediaRef::Url("{user_avatar}".to_string())),
        author_icon: None,
        footer_icon: None,
    };
    let rendered = record.to_format().for_context(&join_ctx());
    let embed = rendered.embed.expect("embed should be present");
    let thumb = embed.thumbnail.expect("thumbnail should be present");
    assert!(!thumb.attachment);
    assert_eq!(thumb.url, "http://cdn/ann.png");
}

#[test]
fn missing_file_omits_only_its_field() {
    // The thumbnail's backing file cannot be loaded: the message still
    // renders, with just that field absent.
    let record = NotificationConfig {
        guild_id: 1,
        join: true,
        content: "hello".to_string(),
        description: "still here".to_string(),
        author: String::new(),
        footer: String::new(),
        thumbnail: Some(MediaRef::LocalFile("gone.png".to_string())),
        author_icon: None,
        footer_icon: None,
    };
    let available: Vec<String> = Vec::new();
    let out = record.to_format().for_context(&join_ctx()).to_render_output(&available);
    assert_eq!(out.content, Some("hello".to_string()));
    let embed = out.embed.expect("embed should be present");
    assert_eq!(embed.description, Some("still here".to_string()));
    assert_eq!(embed.thumbnail, None);
    assert!(out.attachments.is_empty());
}

#[test]
fn loadable_file_becomes_attachment_marker() {
    let record = NotificationConfig {
        guild_id: 1,
        join: true,
        content: String::new(),
        description: "d".to_string(),
        author: String::new(),
        footer: String::new(),
        thumbnail: Some(MediaRef::LocalFile("img.png".to_string())),
        author_icon: None,
        footer_icon: None,
    };
    let available = vec!["img.png".to_string()];
    let out = record.to_format().for_context(&join_ctx()).to_render_output(&available);
    let embed = out.embed.expect("embed should be present");
    assert_eq!(embed.thumbnail, Some("attachment://img.png".to_string()));
    assert_eq!(out.attachments, vec!["img.png".to_string()]);
}

#[test]
fn icons_render_only_with_their_text_line() {
    let record = NotificationConfig {
        guild_id: 1,
        join: true,
        content: String::new(),
        description: "d".to_string(),
        author: String::new(),
        footer: "f".to_string(),
        thumbnail: None,
        author_icon: Some(MediaRef::Url("http://x/a.png".to_string())),
        footer_icon: Some(MediaRef::Url("http://x/f.png".to_string())),
    };
    let available: Vec<String> = Vec::new();
    let out = record.to_format().for_context(&join_ctx()).to_render_output(&available);
    let embed = out.embed.expect("embed should be present");
    // No author line, so its icon is dropped; the footer line keeps its
    // icon.
    assert_eq!(embed.author, None);
    assert_eq!(embed.author_icon_url, None);
    assert_eq!(embed.footer, Some("f".to_string()));
    assert_eq!(embed.footer_icon_url, Some("http://x/f.png".to_string()));
}

#[test]
fn format_without_embed_has_none() {
    let details = MemberNotificationMessageDetails::format(
        Some("c".to_string()),
        false,
        Some("ignored".to_string()),
        None,
        None,
        None,
        None,
        None,
    );
    assert_eq!(details.content, Some("c".to_string()));
    assert!(details.embed.is_none());
}

#[test]
fn format_with_embed_keeps_fields() {
    let details = MemberNotificationMessageDetails::format(
        None,
        true,
        Some("d".to_string()),
        Some(MemberNotificationFile { attachment: true, url: "t.png".to_string() }),
        Some("a".to_string()),
        None,
        Some("f".to_string()),
        None,
    );
    let embed = details.embed.expect("embed should be present");
    assert_eq!(embed.description, Some("d".to_string()));
    assert_eq!(
        embed.thumbnail,
        Some(MemberNotificationFile { attachment: true, url: "t.png".to_string() })
    );
    assert_eq!(embed.author, Some("a".to_string()));
    assert_eq!(embed.footer, Some("f".to_string()));
}

#[test]
fn icons_alone_do_not_enable_the_embed() {
    let record = NotificationConfig {
        guild_id: 1,
        join: true,
        content: "just text".to_string(),
        description: String::new(),
        author: String::new(),
        footer: String::new(),
        thumbnail: None,
        author_icon: Some(MediaRef::Url("http://x/a.png".to_string())),
        footer_icon: None,
    };
    let details = record.to_format();
    assert_eq!(details.content, Some("just text".to_string()));
    assert!(details.embed.is_none());
}

#[test]
fn attachments_come_in_field_order() {
    let record = NotificationConfig {
        guild_id: 1,
        join: true,
        content: String::new(),
        description: "d".to_string(),
        author: String::new(),
        footer: "f".to_string(),
        thumbnail: Some(MediaRef::LocalFile("t.png".to_string())),
        author_icon: Some(MediaRef::LocalFile("a.png".to_string())),
        footer_icon: Some(MediaRef::LocalFile("b.png".to_string())),
    };
    let available = vec!["t.png".to_string(), "a.png".to_string(), "b.png".to_string()];
    let ctx = join_ctx();
    let out = record.to_format().for_context(&ctx).to_render_output(&available);
    // No author line, so its icon's file is not packaged; the rest are,
    // thumbnail first.
    assert_eq!(out.attachments, vec!["t.png".to_string(), "b.png".to_string()]);
    let embed = out.embed.expect("embed should be present");
    assert_eq!(embed.thumbnail, Some("attachment://t.png".to_string()));
    assert_eq!(embed.author_icon_url, None);
    assert_eq!(embed.footer_icon_url, Some("attachment://b.png".to_string()));
}
