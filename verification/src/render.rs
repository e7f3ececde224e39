//! The template renderer: from a stored configuration and one event's
//! context to displayable content.
//!
//! Rendering has three stages, each pure. A record first becomes a
//! message format (empty fields read as absent); the format's text is then
//! expanded against the event's placeholder vocabulary; finally local-file
//! references become attachment markers, against the list of files the
//! caller could actually load. A missing file silences only its own field.

use vstd::prelude::*;

use crate::config::NotificationConfig;
use crate::config::NotificationConfigView;
use crate::ids::dec_str;
use crate::ids::id_to_string;
use crate::media::MediaRefView;
use crate::resolve::name_views;
use crate::template::SubstPair;
use crate::template::brace_free;
use crate::template::lemma_resolved_text_drops_all_tokens;
use crate::template::occurs;
use crate::template::pairs_view;
use crate::template::resolvable;
use crate::template::subst;
use crate::template::substitute;

verus! {

/// A media use site of a message: sent as an uploaded attachment, or as a
/// plain address.
#[derive(Debug, PartialEq, Eq)]
pub struct MemberNotificationFile {
    /// True if this file is sent as an attachment, false if as a plain
    /// address.
    pub attachment: bool,
    /// A local filename when `attachment` holds, a web address otherwise.
    pub url: String,
}

/// The mathematical value of a media use site.
#[verifier::ext_equal]
pub struct FileDetailView {
    pub attachment: bool,
    pub url: Seq<char>,
}

impl View for MemberNotificationFile {
    type V = FileDetailView;

    open spec fn view(&self) -> FileDetailView {
        FileDetailView { attachment: self.attachment, url: self.url@ }
    }
}

/// The embed part of a notification message.
#[derive(Debug, PartialEq, Eq)]
pub struct MemberNotificationEmbedDetails {
    pub description: Option<String>,
    pub thumbnail: Option<MemberNotificationFile>,
    pub author: Option<String>,
    pub author_icon_url: Option<MemberNotificationFile>,
    pub footer: Option<String>,
    pub footer_icon_url: Option<MemberNotificationFile>,
}

/// The mathematical value of an embed.
#[verifier::ext_equal]
pub struct EmbedDetailsView {
    pub description: Option<Seq<char>>,
    pub thumbnail: Option<FileDetailView>,
    pub author: Option<Seq<char>>,
    pub author_icon_url: Option<FileDetailView>,
    pub footer: Option<Seq<char>>,
    pub footer_icon_url: Option<FileDetailView>,
}

/// A notification message: plain text and an optional embed.
#[derive(Debug, PartialEq, Eq)]
pub struct MemberNotificationMessageDetails {
    pub content: Option<String>,
    pub embed: Option<MemberNotificationEmbedDetails>,
}

/// The mathematical value of a message.
#[verifier::ext_equal]
pub struct MessageDetailsView {
    pub content: Option<Seq<char>>,
    pub embed: Option<EmbedDetailsView>,
}

/// The view of an optional text.
pub open spec fn opt_text_view(o: Option<String>) -> Option<Seq<char>> {
    match o {
        Some(s) => Some(s@),
        None => None,
    }
}

/// The view of an optional media use site.
pub open spec fn opt_file_view(o: Option<MemberNotificationFile>) -> Option<FileDetailView> {
    match o {
        Some(f) => Some(f@),
        None => None,
    }
}

impl View for MemberNotificationEmbedDetails {
    type V = EmbedDetailsView;

    open spec fn view(&self) -> EmbedDetailsView {
        EmbedDetailsView {
            description: opt_text_view(self.description),
            thumbnail: opt_file_view(self.thumbnail),
            author: opt_text_view(self.author),
            author_icon_url: opt_file_view(self.author_icon_url),
            footer: opt_text_view(self.footer),
            footer_icon_url: opt_file_view(self.footer_icon_url),
        }
    }
}

impl View for MemberNotificationMessageDetails {
    type V = MessageDetailsView;

    open spec fn view(&self) -> MessageDetailsView {
        MessageDetailsView {
            content: opt_text_view(self.content),
            embed: match self.embed {
                Some(e) => Some(e@),
                None => None,
            },
        }
    }
}

impl MemberNotificationMessageDetails {
    /// Defines a message format from its parts: the embed is present
    /// exactly when `embed` holds, and carries the given fields.
    pub fn format(
        content: Option<String>,
        embed: bool,
        description: Option<String>,
        thumbnail: Option<MemberNotificationFile>,
        author: Option<String>,
        author_icon_url: Option<MemberNotificationFile>,
        footer: Option<String>,
        footer_icon_url: Option<MemberNotificationFile>,
    ) -> (r: Self)
        ensures
            r@.content == opt_text_view(content),
            embed ==> r@.embed == Some(
                EmbedDetailsView {
                    description: opt_text_view(description),
                    thumbnail: opt_file_view(thumbnail),
                    author: opt_text_view(author),
                    author_icon_url: opt_file_view(author_icon_url),
                    footer: opt_text_view(footer),
                    footer_icon_url: opt_file_view(footer_icon_url),
                },
            ),
            !embed ==> r@.embed is None,
    {
        MemberNotificationMessageDetails {
            content,
            embed: if embed {
                Some(
                    MemberNotificationEmbedDetails {
                        description,
                        thumbnail,
                        author,
                        author_icon_url,
                        footer,
                        footer_icon_url,
                    },
                )
            } else {
                None
            },
        }
    }
}

/// A stored text read back as an optional field: empty means absent.
pub open spec fn opt_text(s: Seq<char>) -> Option<Seq<char>> {
    if s.len() == 0 {
        None
    } else {
        Some(s)
    }
}

/// A stored media reference read back as a use site: an empty address or
/// filename means absent.
pub open spec fn media_use_site(m: Option<MediaRefView>) -> Option<FileDetailView> {
    match m {
        Some(MediaRefView::Url(u)) => if u.len() == 0 {
            None
        } else {
            Some(FileDetailView { attachment: false, url: u })
        },
        Some(MediaRefView::LocalFile(f)) => if f.len() == 0 {
            None
        } else {
            Some(FileDetailView { attachment: true, url: f })
        },
        None => None,
    }
}

/// Whether a record shows an embed at all: any of description, author,
/// footer or thumbnail is present.
pub open spec fn embed_enabled(c: NotificationConfigView) -> bool {
    c.description.len() > 0 || c.author.len() > 0 || c.footer.len() > 0 || media_use_site(
        c.thumbnail,
    ) is Some
}

/// The message format a stored record denotes.
pub open spec fn format_of_config(c: NotificationConfigView) -> MessageDetailsView {
    MessageDetailsView {
        content: opt_text(c.content),
        embed: if embed_enabled(c) {
            Some(
                EmbedDetailsView {
                    description: opt_text(c.description),
                    thumbnail: media_use_site(c.thumbnail),
                    author: opt_text(c.author),
                    author_icon_url: media_use_site(c.author_icon),
                    footer: opt_text(c.footer),
                    footer_icon_url: media_use_site(c.footer_icon),
                },
            )
        } else {
            None
        },
    }
}

/// An optional stored text as an optional field.
fn opt_text_exec(s: &String) -> (r: Option<String>)
    ensures
        opt_text_view(r) == opt_text(s@),
{
    if s.as_str().is_empty() {
        None
    } else {
        Some(s.clone())
    }
}

/// An optional stored media reference as a use site.
fn media_use_site_exec(m: &Option<crate::media::MediaRef>) -> (r: Option<MemberNotificationFile>)
    ensures
        opt_file_view(r) == media_use_site(crate::media::opt_media_view(*m)),
{
    match m {
        Some(crate::media::MediaRef::Url(u)) => if u.as_str().is_empty() {
            None
        } else {
            Some(MemberNotificationFile { attachment: false, url: u.clone() })
        },
        Some(crate::media::MediaRef::LocalFile(f)) => if f.as_str().is_empty() {
            None
        } else {
            Some(MemberNotificationFile { attachment: true, url: f.clone() })
        },
        None => None,
    }
}

impl NotificationConfig {
    /// Reads this record back as the message format it denotes: empty
    /// fields are absent, and the embed exists exactly when description,
    /// author, footer or thumbnail is present.
    pub fn to_format(&self) -> (r: MemberNotificationMessageDetails)
        ensures
            r@ == format_of_config(self@),
    {
        let embed = !self.description.as_str().is_empty() || !self.author.as_str().is_empty()
            || !self.footer.as_str().is_empty() || media_use_site_exec(&self.thumbnail).is_some();
        let r = MemberNotificationMessageDetails::format(
            opt_text_exec(&self.content),
            embed,
            opt_text_exec(&self.description),
            media_use_site_exec(&self.thumbnail),
            opt_text_exec(&self.author),
            media_use_site_exec(&self.author_icon),
            opt_text_exec(&self.footer),
            media_use_site_exec(&self.footer_icon),
        );
        proof {
            assert(r@ =~= format_of_config(self@));
        }
        r
    }
}

/// One event's substitution data: the actor's identity and the guild's
/// approximate counts, when the live lookup could supply them. `mention`
/// is meaningful for Join events only.
#[derive(Debug)]
pub struct RenderContext {
    pub join: bool,
    pub name: String,
    pub mention: Option<String>,
    pub avatar_url: Option<String>,
    pub member_count: Option<u64>,
    pub online_member_count: Option<u64>,
}

/// The mathematical value of a render context.
#[verifier::ext_equal]
pub struct RenderContextView {
    pub join: bool,
    pub name: Seq<char>,
    pub mention: Option<Seq<char>>,
    pub avatar_url: Option<Seq<char>>,
    pub member_count: Option<u64>,
    pub online_member_count: Option<u64>,
}

impl View for RenderContext {
    type V = RenderContextView;

    open spec fn view(&self) -> RenderContextView {
        RenderContextView {
            join: self.join,
            name: self.name@,
            mention: opt_text_view(self.mention),
            avatar_url: opt_text_view(self.avatar_url),
            member_count: self.member_count,
            online_member_count: self.online_member_count,
        }
    }
}

pub open spec fn key_name() -> Seq<char> {
    seq!['n', 'a', 'm', 'e']
}

pub open spec fn key_mention() -> Seq<char> {
    seq!['m', 'e', 'n', 't', 'i', 'o', 'n']
}

pub open spec fn key_user_avatar() -> Seq<char> {
    seq!['u', 's', 'e', 'r', '_', 'a', 'v', 'a', 't', 'a', 'r']
}

pub open spec fn key_member_count() -> Seq<char> {
    seq!['m', 'e', 'm', 'b', 'e', 'r', '_', 'c', 'o', 'u', 'n', 't']
}

pub open spec fn key_online_member_count() -> Seq<char> {
    seq![
        'o',
        'n',
        'l',
        'i',
        'n',
        'e',
        '_',
        'm',
        'e',
        'm',
        'b',
        'e',
        'r',
        '_',
        'c',
        'o',
        'u',
        'n',
        't',
    ]
}

/// The fixed placeholder vocabulary one context supplies: `name` always;
/// `mention` for Join events that have one; `user_avatar` and the two
/// counts when available.
pub open spec fn spec_substitutions(c: RenderContextView) -> Seq<(Seq<char>, Seq<char>)> {
    seq![(key_name(), c.name)] + (if c.join && c.mention is Some {
        seq![(key_mention(), c.mention->Some_0)]
    } else {
        Seq::empty()
    }) + (match c.avatar_url {
        Some(a) => seq![(key_user_avatar(), a)],
        None => Seq::empty(),
    }) + (match c.member_count {
        Some(n) => seq![(key_member_count(), dec_str(n as nat))],
        None => Seq::empty(),
    }) + (match c.online_member_count {
        Some(n) => seq![(key_online_member_count(), dec_str(n as nat))],
        None => Seq::empty(),
    })
}

/// The substitution pairs for one event.
pub fn substitutions(ctx: &RenderContext) -> (pairs: Vec<SubstPair>)
    ensures
        pairs_view(pairs@) == spec_substitutions(ctx@),
{
    proof {
        reveal_strlit("name");
        reveal_strlit("mention");
        reveal_strlit("user_avatar");
        reveal_strlit("member_count");
        reveal_strlit("online_member_count");
        assert("name"@ =~= key_name());
        assert("mention"@ =~= key_mention());
        assert("user_avatar"@ =~= key_user_avatar());
        assert("member_count"@ =~= key_member_count());
        assert("online_member_count"@ =~= key_online_member_count());
    }
    let mut pairs: Vec<SubstPair> = Vec::new();
    pairs.push(SubstPair { key: "name".to_owned(), value: ctx.name.clone() });
    if ctx.join {
        if let Some(m) = &ctx.mention {
            pairs.push(SubstPair { key: "mention".to_owned(), value: m.clone() });
        }
    }
    if let Some(a) = &ctx.avatar_url {
        pairs.push(SubstPair { key: "user_avatar".to_owned(), value: a.clone() });
    }
    if let Some(n) = ctx.member_count {
        pairs.push(SubstPair { key: "member_count".to_owned(), value: id_to_string(n) });
    }
    if let Some(n) = ctx.online_member_count {
        pairs.push(SubstPair { key: "online_member_count".to_owned(), value: id_to_string(n) });
    }
    proof {
        assert(pairs_view(pairs@) =~= spec_substitutions(ctx@));
    }
    pairs
}

/// An optional text after substitution.
pub open spec fn subst_opt(o: Option<Seq<char>>, pv: Seq<(Seq<char>, Seq<char>)>) -> Option<
    Seq<char>,
> {
    match o {
        Some(s) => Some(subst(s, pv)),
        None => None,
    }
}

/// A media use site after substitution: an address is substituted, while
/// an attachment's filename names a fixed stored file and is never
/// touched.
pub open spec fn subst_file(o: Option<FileDetailView>, pv: Seq<(Seq<char>, Seq<char>)>) -> Option<
    FileDetailView,
> {
    match o {
        Some(f) => Some(
            if f.attachment {
                f
            } else {
                FileDetailView { attachment: false, url: subst(f.url, pv) }
            },
        ),
        None => None,
    }
}

/// A message format after substitution against one event's vocabulary.
pub open spec fn spec_rendered(m: MessageDetailsView, pv: Seq<(Seq<char>, Seq<char>)>)
    -> MessageDetailsView {
    MessageDetailsView {
        content: subst_opt(m.content, pv),
        embed: match m.embed {
            Some(e) => Some(
                EmbedDetailsView {
                    description: subst_opt(e.description, pv),
                    thumbnail: subst_file(e.thumbnail, pv),
                    author: subst_opt(e.author, pv),
                    author_icon_url: subst_file(e.author_icon_url, pv),
                    footer: subst_opt(e.footer, pv),
                    footer_icon_url: subst_file(e.footer_icon_url, pv),
                },
            ),
            None => None,
        },
    }
}

/// An optional text after substitution.
fn subst_opt_exec(o: &Option<String>, pairs: &Vec<SubstPair>) -> (r: Option<String>)
    ensures
        opt_text_view(r) == subst_opt(opt_text_view(*o), pairs_view(pairs@)),
{
    match o {
        Some(s) => Some(substitute(s.as_str(), pairs)),
        None => None,
    }
}

/// A media use site after substitution.
fn subst_file_exec(o: &Option<MemberNotificationFile>, pairs: &Vec<SubstPair>) -> (r: Option<
    MemberNotificationFile,
>)
    ensures
        opt_file_view(r) == subst_file(opt_file_view(*o), pairs_view(pairs@)),
{
    match o {
        Some(f) => if f.attachment {
            Some(MemberNotificationFile { attachment: true, url: f.url.clone() })
        } else {
            Some(MemberNotificationFile { attachment: false, url: substitute(f.url.as_str(), pairs) })
        },
        None => None,
    }
}

impl MemberNotificationMessageDetails {
    /// This format expanded against the given substitution pairs.
    pub fn rendered_with(&self, pairs: &Vec<SubstPair>) -> (r: Self)
        ensures
            r@ == spec_rendered(self@, pairs_view(pairs@)),
    {
        let r = MemberNotificationMessageDetails {
            content: subst_opt_exec(&self.content, pairs),
            embed: match &self.embed {
                Some(e) => Some(
                    MemberNotificationEmbedDetails {
                        description: subst_opt_exec(&e.description, pairs),
                        thumbnail: subst_file_exec(&e.thumbnail, pairs),
                        author: subst_opt_exec(&e.author, pairs),
                        author_icon_url: subst_file_exec(&e.author_icon_url, pairs),
                        footer: subst_opt_exec(&e.footer, pairs),
                        footer_icon_url: subst_file_exec(&e.footer_icon_url, pairs),
                    },
                ),
                None => None,
            },
        };
        proof {
            assert(r@ =~= spec_rendered(self@, pairs_view(pairs@)));
        }
        r
    }

    /// This format expanded for one event: the message a member's join or
    /// leave actually produces, before attachment resolution.
    pub fn for_context(&self, ctx: &RenderContext) -> (r: Self)
        ensures
            r@ == spec_rendered(self@, spec_substitutions(ctx@)),
    {
        let pairs = substitutions(ctx);
        self.rendered_with(&pairs)
    }
}

/// The embed of a fully rendered message: every use site is final text —
/// a web address, or an `attachment://` marker for a packaged file.
#[derive(Debug, PartialEq, Eq)]
pub struct RenderedEmbed {
    pub description: Option<String>,
    pub thumbnail: Option<String>,
    pub author: Option<String>,
    pub author_icon_url: Option<String>,
    pub footer: Option<String>,
    pub footer_icon_url: Option<String>,
}

/// The mathematical value of a rendered embed.
#[verifier::ext_equal]
pub struct RenderedEmbedView {
    pub description: Option<Seq<char>>,
    pub thumbnail: Option<Seq<char>>,
    pub author: Option<Seq<char>>,
    pub author_icon_url: Option<Seq<char>>,
    pub footer: Option<Seq<char>>,
    pub footer_icon_url: Option<Seq<char>>,
}

impl View for RenderedEmbed {
    type V = RenderedEmbedView;

    open spec fn view(&self) -> RenderedEmbedView {
        RenderedEmbedView {
            description: opt_text_view(self.description),
            thumbnail: opt_text_view(self.thumbnail),
            author: opt_text_view(self.author),
            author_icon_url: opt_text_view(self.author_icon_url),
            footer: opt_text_view(self.footer),
            footer_icon_url: opt_text_view(self.footer_icon_url),
        }
    }
}

/// A fully rendered message: the text, the embed, and the names of the
/// local files to package as attachments, in field order.
#[derive(Debug, PartialEq, Eq)]
pub struct RenderedMessage {
    pub content: Option<String>,
    pub embed: Option<RenderedEmbed>,
    pub attachments: Vec<String>,
}

/// The mathematical value of a rendered message.
#[verifier::ext_equal]
pub struct RenderedMessageView {
    pub content: Option<Seq<char>>,
    pub embed: Option<RenderedEmbedView>,
    pub attachments: Seq<Seq<char>>,
}

impl View for RenderedMessage {
    type V = RenderedMessageView;

    open spec fn view(&self) -> RenderedMessageView {
        RenderedMessageView {
            content: opt_text_view(self.content),
            embed: match self.embed {
                Some(e) => Some(e@),
                None => None,
            },
            attachments: name_views(self.attachments@),
        }
    }
}

/// The marker a packaged attachment is referred to by at its use site.
pub open spec fn attachment_marker(f: Seq<char>) -> Seq<char> {
    seq!['a', 't', 't', 'a', 'c', 'h', 'm', 'e', 'n', 't', ':', '/', '/'] + f
}

/// The use site a media field renders to: an address as it stands; an
/// attachment as its marker when its file could be loaded, and omitted —
/// this field alone — when it could not.
pub open spec fn slot_view(o: Option<FileDetailView>, avail: Seq<Seq<char>>) -> Option<Seq<char>> {
    match o {
        Some(f) => if !f.attachment {
            Some(f.url)
        } else if avail.contains(f.url) {
            Some(attachment_marker(f.url))
        } else {
            None
        },
        None => None,
    }
}

/// The file a media field contributes to the attachment list.
pub open spec fn slot_attachment(o: Option<FileDetailView>, avail: Seq<Seq<char>>) -> Seq<
    Seq<char>,
> {
    match o {
        Some(f) => if f.attachment && avail.contains(f.url) {
            seq![f.url]
        } else {
            Seq::empty()
        },
        None => Seq::empty(),
    }
}

/// A substituted message resolved against the loadable files: the final
/// rendered output. An icon accompanies its text line, so it is shown
/// only when that line is; attachments are listed in field order —
/// thumbnail, author icon, footer icon.
pub open spec fn spec_render_output(m: MessageDetailsView, avail: Seq<Seq<char>>)
    -> RenderedMessageView {
    RenderedMessageView {
        content: m.content,
        embed: match m.embed {
            Some(e) => Some(
                RenderedEmbedView {
                    description: e.description,
                    thumbnail: slot_view(e.thumbnail, avail),
                    author: e.author,
                    author_icon_url: if e.author is Some {
                        slot_view(e.author_icon_url, avail)
                    } else {
                        None
                    },
                    footer: e.footer,
                    footer_icon_url: if e.footer is Some {
                        slot_view(e.footer_icon_url, avail)
                    } else {
                        None
                    },
                },
            ),
            None => None,
        },
        attachments: match m.embed {
            Some(e) => slot_attachment(e.thumbnail, avail) + (if e.author is Some {
                slot_attachment(e.author_icon_url, avail)
            } else {
                Seq::empty()
            }) + (if e.footer is Some {
                slot_attachment(e.footer_icon_url, avail)
            } else {
                Seq::empty()
            }),
            None => Seq::empty(),
        },
    }
}

/// Whether a filename is among the loadable files.
fn contains_name(avail: &Vec<String>, f: &String) -> (r: bool)
    ensures
        r == name_views(avail@).contains(f@),
{
    let n = avail.len();
    let mut i: usize = 0;
    while i < n
        invariant
            i <= n,
            n == avail@.len(),
            forall|k: int| 0 <= k < i ==> avail@[k]@ != f@,
        decreases n - i,
    {
        if avail[i].eq(f) {
            proof {
                assert(name_views(avail@)[i as int] == f@);
            }
            return true;
        }
        i = i + 1;
    }
    proof {
        if name_views(avail@).contains(f@) {
            let j = choose|j: int|
                0 <= j < name_views(avail@).len() && name_views(avail@)[j] == f@;
            assert(avail@[j]@ == f@);
        }
    }
    false
}

/// The `attachment://` marker for a filename.
fn marker_for(f: &String) -> (r: String)
    ensures
        r@ == attachment_marker(f@),
{
    proof {
        reveal_strlit("attachment://");
        assert("attachment://"@ =~= seq![
            'a',
            't',
            't',
            'a',
            'c',
            'h',
            'm',
            'e',
            'n',
            't',
            ':',
            '/',
            '/',
        ]);
    }
    let mut r = "attachment://".to_owned();
    r.append(f.as_str());
    r
}

/// A media field's use site and attachment contribution.
fn file_slot(o: &Option<MemberNotificationFile>, avail: &Vec<String>) -> (r: (
    Option<String>,
    Option<String>,
))
    ensures
        opt_text_view(r.0) == slot_view(opt_file_view(*o), name_views(avail@)),
        match r.1 {
            Some(x) => slot_attachment(opt_file_view(*o), name_views(avail@)) == seq![x@],
            None => slot_attachment(opt_file_view(*o), name_views(avail@))
                == Seq::<Seq<char>>::empty(),
        },
{
    match o {
        Some(f) => if !f.attachment {
            (Some(f.url.clone()), None)
        } else if contains_name(avail, &f.url) {
            (Some(marker_for(&f.url)), Some(f.url.clone()))
        } else {
            (None, None)
        },
        None => (None, None),
    }
}

impl MemberNotificationMessageDetails {
    /// Resolves this substituted message against the files the caller
    /// could load, producing the final output. A `LocalFile` whose
    /// backing file is missing silences only its own field: the rest of
    /// the message still renders.
    pub fn to_render_output(&self, available: &Vec<String>) -> (r: RenderedMessage)
        ensures
            r@ == spec_render_output(self@, name_views(available@)),
    {
        let mut attachments: Vec<String> = Vec::new();
        let embed = match &self.embed {
            Some(e) => {
                let thumb = file_slot(&e.thumbnail, available);
                if let Some(a) = thumb.1 {
                    attachments.push(a);
                }
                let author = match &e.author {
                    Some(a) => Some(a.clone()),
                    None => None,
                };
                let author_icon = match &author {
                    Some(_) => {
                        let s = file_slot(&e.author_icon_url, available);
                        if let Some(a) = s.1 {
                            attachments.push(a);
                        }
                        s.0
                    },
                    None => None,
                };
                let footer = match &e.footer {
                    Some(a) => Some(a.clone()),
                    None => None,
                };
                let footer_icon = match &footer {
                    Some(_) => {
                        let s = file_slot(&e.footer_icon_url, available);
                        if let Some(a) = s.1 {
                            attachments.push(a);
                        }
                        s.0
                    },
                    None => None,
                };
                let description = match &e.description {
                    Some(d) => Some(d.clone()),
                    None => None,
                };
                Some(
                    RenderedEmbed {
                        description,
                        thumbnail: thumb.0,
                        author,
                        author_icon_url: author_icon,
                        footer,
                        footer_icon_url: footer_icon,
                    },
                )
            },
            None => None,
        };
        let content = match &self.content {
            Some(c) => Some(c.clone()),
            None => None,
        };
        let r = RenderedMessage { content, embed, attachments };
        proof {
            assert(r@ =~= spec_render_output(self@, name_views(available@)));
        }
        r
    }
}

/// Graceful missing-file rendering: when the thumbnail names a stored
/// file that could not be loaded, the rendered message omits exactly that
/// field — text, the other fields and the overall message are unaffected,
/// and the missing file is packaged by no attachment.
pub proof fn lemma_missing_file_renders_gracefully(m: MessageDetailsView, avail: Seq<Seq<char>>)
    requires
        m.embed matches Some(e) && e.thumbnail matches Some(f) && f.attachment
            && !avail.contains(f.url),
    ensures
        spec_render_output(m, avail).content == m.content,
        spec_render_output(m, avail).embed matches Some(re) && re.thumbnail is None
            && re.description == m.embed->Some_0.description && re.author == m.embed->Some_0.author
            && re.footer == m.embed->Some_0.footer,
        !spec_render_output(m, avail).attachments.contains(
            m.embed->Some_0.thumbnail->Some_0.url,
        ),
{
    let e = m.embed->Some_0;
    let f = e.thumbnail->Some_0;
    let out = spec_render_output(m, avail);
    assert(slot_attachment(e.thumbnail, avail) == Seq::<Seq<char>>::empty());
    if out.attachments.contains(f.url) {
        let j = choose|j: int| 0 <= j < out.attachments.len() && out.attachments[j] == f.url;
        let s2 = if e.author is Some {
            slot_attachment(e.author_icon_url, avail)
        } else {
            Seq::<Seq<char>>::empty()
        };
        let s3 = if e.footer is Some {
            slot_attachment(e.footer_icon_url, avail)
        } else {
            Seq::<Seq<char>>::empty()
        };
        assert(s2.contains(f.url) || s3.contains(f.url));
        assert(avail.contains(f.url));
    }
}

/// Round-trip rendering: for a message whose every text field resolves
/// against the vocabulary (each placeholder it opens is bound), and whose
/// values open no placeholder of their own, the substituted output holds
/// no occurrence of any `{key}` token.
pub proof fn lemma_rendered_message_drops_tokens(
    m: MessageDetailsView,
    pv: Seq<(Seq<char>, Seq<char>)>,
    key: Seq<char>,
)
    requires
        forall|k: int| 0 <= k < pv.len() ==> brace_free(#[trigger] pv[k].1),
        m.content matches Some(s) ==> resolvable(s, pv),
        m.embed matches Some(e) ==> {
            &&& (e.description matches Some(s) ==> resolvable(s, pv))
            &&& (e.author matches Some(s) ==> resolvable(s, pv))
            &&& (e.footer matches Some(s) ==> resolvable(s, pv))
        },
    ensures
        spec_rendered(m, pv).content matches Some(t) ==> !occurs(t, seq!['{'] + key + seq!['}']),
        spec_rendered(m, pv).embed matches Some(re) ==> {
            &&& (re.description matches Some(t) ==> !occurs(t, seq!['{'] + key + seq!['}']))
            &&& (re.author matches Some(t) ==> !occurs(t, seq!['{'] + key + seq!['}']))
            &&& (re.footer matches Some(t) ==> !occurs(t, seq!['{'] + key + seq!['}']))
        },
{
    if m.content is Some {
        lemma_resolved_text_drops_all_tokens(m.content->Some_0, pv, key);
    }
    if m.embed is Some {
        let e = m.embed->Some_0;
        if e.description is Some {
            lemma_resolved_text_drops_all_tokens(e.description->Some_0, pv, key);
        }
        if e.author is Some {
            lemma_resolved_text_drops_all_tokens(e.author->Some_0, pv, key);
        }
        if e.footer is Some {
            lemma_resolved_text_drops_all_tokens(e.footer->Some_0, pv, key);
        }
    }
}

} // verus!
