//! The stored notification configuration: one record per guild and
//! event type.

use vstd::prelude::*;

use crate::media::MediaRef;
use crate::media::MediaRefView;
use crate::media::opt_media_view;

verus! {

/// Which member-lifecycle event a configuration applies to.
#[derive(Clone, Copy, PartialEq, Eq, Structural, Debug)]
pub enum NotificationType {
    Join,
    Leave,
}

impl NotificationType {
    /// The event type as the store keys it: `true` for Join.
    pub fn as_join_flag(&self) -> (r: bool)
        ensures
            r == (*self == NotificationType::Join),
    {
        match self {
            NotificationType::Join => true,
            NotificationType::Leave => false,
        }
    }
}

/// One notification configuration record. Each field is independently
/// empty-as-absent: an empty text or an absent media reference means the
/// field is not shown.
#[derive(Debug, PartialEq, Eq)]
pub struct NotificationConfig {
    /// Key: the guild the record belongs to.
    pub guild_id: u64,
    /// Key: `true` for the Join event, `false` for Leave.
    pub join: bool,
    /// Plain message text.
    pub content: String,
    /// Embed description.
    pub description: String,
    /// Embed author line.
    pub author: String,
    /// Embed footer line.
    pub footer: String,
    /// Embed thumbnail.
    pub thumbnail: Option<MediaRef>,
    /// Icon beside the author line.
    pub author_icon: Option<MediaRef>,
    /// Icon beside the footer line.
    pub footer_icon: Option<MediaRef>,
}

/// The mathematical value of a configuration record.
#[verifier::ext_equal]
pub struct NotificationConfigView {
    pub guild_id: u64,
    pub join: bool,
    pub content: Seq<char>,
    pub description: Seq<char>,
    pub author: Seq<char>,
    pub footer: Seq<char>,
    pub thumbnail: Option<MediaRefView>,
    pub author_icon: Option<MediaRefView>,
    pub footer_icon: Option<MediaRefView>,
}

impl View for NotificationConfig {
    type V = NotificationConfigView;

    open spec fn view(&self) -> NotificationConfigView {
        NotificationConfigView {
            guild_id: self.guild_id,
            join: self.join,
            content: self.content@,
            description: self.description@,
            author: self.author@,
            footer: self.footer@,
            thumbnail: opt_media_view(self.thumbnail),
            author_icon: opt_media_view(self.author_icon),
            footer_icon: opt_media_view(self.footer_icon),
        }
    }
}

/// The default record for a key: every field at its empty value. Absence of
/// a stored record is read as this.
pub open spec fn default_config_view(guild_id: u64, join: bool) -> NotificationConfigView {
    NotificationConfigView {
        guild_id: guild_id,
        join: join,
        content: Seq::empty(),
        description: Seq::empty(),
        author: Seq::empty(),
        footer: Seq::empty(),
        thumbnail: None,
        author_icon: None,
        footer_icon: None,
    }
}

/// No two media fields of the record own the same local file.
pub open spec fn distinct_local_files(c: NotificationConfigView) -> bool {
    &&& (c.thumbnail matches Some(MediaRefView::LocalFile(f)) ==> c.author_icon != Some(
        MediaRefView::LocalFile(f),
    ) && c.footer_icon != Some(MediaRefView::LocalFile(f)))
    &&& (c.author_icon matches Some(MediaRefView::LocalFile(f)) ==> c.footer_icon != Some(
        MediaRefView::LocalFile(f),
    ))
}

impl NotificationConfig {
    /// The record used when nothing is stored for a key yet.
    pub fn default_for(guild_id: u64, join: bool) -> (r: Self)
        ensures
            r@ == default_config_view(guild_id, join),
    {
        let r = NotificationConfig {
            guild_id,
            join,
            content: String::new(),
            description: String::new(),
            author: String::new(),
            footer: String::new(),
            thumbnail: None,
            author_icon: None,
            footer_icon: None,
        };
        proof {
            assert(r@ =~= default_config_view(guild_id, join));
        }
        r
    }

    /// A record equal to this one.
    pub fn duplicate(&self) -> (r: Self)
        ensures
            r@ == self@,
    {
        let r = NotificationConfig {
            guild_id: self.guild_id,
            join: self.join,
            content: self.content.clone(),
            description: self.description.clone(),
            author: self.author.clone(),
            footer: self.footer.clone(),
            thumbnail: dup_opt_media(&self.thumbnail),
            author_icon: dup_opt_media(&self.author_icon),
            footer_icon: dup_opt_media(&self.footer_icon),
        };
        proof {
            assert(r@ =~= self@);
        }
        r
    }
}

/// A copy of an optional media reference.
pub fn dup_opt_media(m: &Option<MediaRef>) -> (r: Option<MediaRef>)
    ensures
        opt_media_view(r) == opt_media_view(*m),
{
    match m {
        Some(x) => Some(x.duplicate()),
        None => None,
    }
}

} // verus!
