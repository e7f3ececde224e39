//! The partial-update merge: applying a request to an existing (or
//! default) record, and accounting for local files the update orphans.
//!
//! This stage is pure: it neither reads nor writes storage. Text set by a
//! request passes through the escaped-newline rewriting before it is
//! stored.

use vstd::prelude::*;

use crate::config::NotificationConfig;
use crate::config::NotificationConfigView;
use crate::config::distinct_local_files;
use crate::config::dup_opt_media;
use crate::media::MediaRef;
use crate::media::MediaRefView;
use crate::media::opt_media_view;
use crate::request::ResolvedRequest;
use crate::text::escape_newlines;
use crate::text::escape_newlines_spec;
use crate::tristate::TriState;

verus! {

/// A text field after one tri-state entry is applied: kept, emptied, or
/// replaced by the entry's text with escaped newlines decoded.
pub open spec fn spec_apply_text(old: Seq<char>, t: TriState<String>) -> Seq<char> {
    match t {
        TriState::Unset => old,
        TriState::Clear => Seq::empty(),
        TriState::SetTo(v) => escape_newlines_spec(v@),
    }
}

/// A media field after one tri-state entry is applied.
pub open spec fn spec_apply_media(old: Option<MediaRefView>, t: TriState<MediaRef>) -> Option<
    MediaRefView,
> {
    match t {
        TriState::Unset => old,
        TriState::Clear => None,
        TriState::SetTo(m) => Some(m@),
    }
}

/// The file one media entry orphans: the field's prior local file, when
/// the entry changes the field to anything but that same file.
pub open spec fn spec_media_orphan(old: Option<MediaRefView>, t: TriState<MediaRef>) -> Option<
    Seq<char>,
> {
    match old {
        Some(MediaRefView::LocalFile(f)) => match t {
            TriState::Unset => None,
            TriState::Clear => Some(f),
            TriState::SetTo(m) => if m@ == MediaRefView::LocalFile(f) {
                None
            } else {
                Some(f)
            },
        },
        _ => None,
    }
}

/// The record a merge produces.
pub open spec fn merged_view(e: NotificationConfigView, request: ResolvedRequest)
    -> NotificationConfigView {
    NotificationConfigView {
        guild_id: e.guild_id,
        join: e.join,
        content: spec_apply_text(e.content, request.content),
        description: spec_apply_text(e.description, request.description),
        author: spec_apply_text(e.author, request.author),
        footer: spec_apply_text(e.footer, request.footer),
        thumbnail: spec_apply_media(e.thumbnail, request.thumbnail),
        author_icon: spec_apply_media(e.author_icon, request.author_icon),
        footer_icon: spec_apply_media(e.footer_icon, request.footer_icon),
    }
}

/// An optional filename as a sequence of zero or one filenames.
pub open spec fn opt_to_seq(o: Option<Seq<char>>) -> Seq<Seq<char>> {
    match o {
        Some(f) => seq![f],
        None => Seq::empty(),
    }
}

/// The filenames a merge orphans, in field order: thumbnail, author icon,
/// footer icon.
pub open spec fn merge_orphans(e: NotificationConfigView, request: ResolvedRequest) -> Seq<
    Seq<char>,
> {
    opt_to_seq(spec_media_orphan(e.thumbnail, request.thumbnail)) + opt_to_seq(
        spec_media_orphan(e.author_icon, request.author_icon),
    ) + opt_to_seq(spec_media_orphan(e.footer_icon, request.footer_icon))
}

/// The character sequences of a list of filenames.
pub open spec fn seq_views(s: Seq<String>) -> Seq<Seq<char>> {
    s.map(|i: int, x: String| x@)
}

/// A text field after one entry.
fn apply_text(old: &String, t: TriState<String>) -> (r: String)
    ensures
        r@ == spec_apply_text(old@, t),
{
    match t {
        TriState::Unset => old.clone(),
        TriState::Clear => String::new(),
        TriState::SetTo(v) => escape_newlines(v.as_str()),
    }
}

/// A media field after one entry.
fn apply_media(old: &Option<MediaRef>, t: TriState<MediaRef>) -> (r: Option<MediaRef>)
    ensures
        opt_media_view(r) == spec_apply_media(opt_media_view(*old), t),
{
    match t {
        TriState::Unset => dup_opt_media(old),
        TriState::Clear => None,
        TriState::SetTo(m) => Some(m),
    }
}

/// The file one media entry orphans.
fn media_orphan(old: &Option<MediaRef>, t: &TriState<MediaRef>) -> (r: Option<String>)
    ensures
        match spec_media_orphan(opt_media_view(*old), *t) {
            Some(f) => r matches Some(x) && x@ == f,
            None => r is None,
        },
{
    match old {
        Some(MediaRef::LocalFile(f)) => match t {
            TriState::Unset => None,
            TriState::Clear => Some(f.clone()),
            TriState::SetTo(m) => match m {
                MediaRef::LocalFile(g) => if g.eq(f) {
                    None
                } else {
                    Some(f.clone())
                },
                MediaRef::Url(_) => Some(f.clone()),
            },
        },
        _ => None,
    }
}

/// Applies a resolved request to an existing record.
///
/// Returns the updated record and the local files the update orphaned, in
/// field order. Keeps the record's key; touches no storage.
pub fn merge(existing: &NotificationConfig, request: ResolvedRequest) -> (r: (
    NotificationConfig,
    Vec<String>,
))
    ensures
        r.0@ == merged_view(existing@, request),
        seq_views(r.1@) == merge_orphans(existing@, request),
{
    let mut orphans: Vec<String> = Vec::new();
    let o1 = media_orphan(&existing.thumbnail, &request.thumbnail);
    let o2 = media_orphan(&existing.author_icon, &request.author_icon);
    let o3 = media_orphan(&existing.footer_icon, &request.footer_icon);
    if let Some(f) = o1 {
        orphans.push(f);
    }
    if let Some(f) = o2 {
        orphans.push(f);
    }
    if let Some(f) = o3 {
        orphans.push(f);
    }
    proof {
        assert(seq_views(orphans@) =~= merge_orphans(existing@, request));
    }
    let updated = NotificationConfig {
        guild_id: existing.guild_id,
        join: existing.join,
        content: apply_text(&existing.content, request.content),
        description: apply_text(&existing.description, request.description),
        author: apply_text(&existing.author, request.author),
        footer: apply_text(&existing.footer, request.footer),
        thumbnail: apply_media(&existing.thumbnail, request.thumbnail),
        author_icon: apply_media(&existing.author_icon, request.author_icon),
        footer_icon: apply_media(&existing.footer_icon, request.footer_icon),
    };
    proof {
        assert(updated@ =~= merged_view(existing@, request));
    }
    (updated, orphans)
}

/// How many times a filename occurs in a list.
pub open spec fn count_of(s: Seq<Seq<char>>, f: Seq<char>) -> nat
    decreases s.len(),
{
    if s.len() == 0 {
        0
    } else {
        count_of(s.drop_last(), f) + if s.last() == f {
            1nat
        } else {
            0nat
        }
    }
}

/// Occurrence counts add over concatenation.
proof fn lemma_count_of_add(a: Seq<Seq<char>>, b: Seq<Seq<char>>, f: Seq<char>)
    ensures
        count_of(a + b, f) == count_of(a, f) + count_of(b, f),
    decreases b.len(),
{
    if b.len() == 0 {
        assert(a + b =~= a);
    } else {
        lemma_count_of_add(a, b.drop_last(), f);
        assert((a + b).drop_last() =~= a + b.drop_last());
        assert((a + b).last() == b.last());
    }
}

/// Tri-state correctness of Unset, field by field: an entry that asks for
/// no change keeps the field's value, whatever it holds, and never
/// orphans a file — unsetting is never destructive.
pub proof fn lemma_unset_entry_keeps_field(old_text: Seq<char>, old_media: Option<MediaRefView>)
    ensures
        spec_apply_text(old_text, TriState::<String>::Unset) == old_text,
        spec_apply_media(old_media, TriState::<MediaRef>::Unset) == old_media,
        spec_media_orphan(old_media, TriState::<MediaRef>::Unset) is None,
{
}

/// Idempotence of Clear, field by field: clearing a field already at its
/// default yields the default again and orphans nothing.
pub proof fn lemma_clear_entry_on_default()
    ensures
        spec_apply_text(Seq::<char>::empty(), TriState::<String>::Clear) == Seq::<char>::empty(),
        spec_apply_media(None::<MediaRefView>, TriState::<MediaRef>::Clear) is None,
        spec_media_orphan(None::<MediaRefView>, TriState::<MediaRef>::Clear) is None,
{
}

/// Idempotence of Clear: clearing a field that already holds its default
/// value changes nothing and orphans nothing. Stated over a whole request
/// each of whose entries either asks for no change or clears a field that
/// is already at its default.
pub proof fn lemma_clear_on_default_is_noop(e: NotificationConfigView, request: ResolvedRequest)
    requires
        request.content is Unset || (request.content is Clear && e.content == Seq::<char>::empty()),
        request.description is Unset || (request.description is Clear && e.description
            == Seq::<char>::empty()),
        request.author is Unset || (request.author is Clear && e.author == Seq::<char>::empty()),
        request.footer is Unset || (request.footer is Clear && e.footer == Seq::<char>::empty()),
        request.thumbnail is Unset || (request.thumbnail is Clear && e.thumbnail is None),
        request.author_icon is Unset || (request.author_icon is Clear && e.author_icon is None),
        request.footer_icon is Unset || (request.footer_icon is Clear && e.footer_icon is None),
    ensures
        merged_view(e, request) == e,
        merge_orphans(e, request) == Seq::<Seq<char>>::empty(),
{
    assert(merged_view(e, request) =~= e);
    assert(merge_orphans(e, request) =~= Seq::<Seq<char>>::empty());
}

/// Tri-state correctness of Unset: a request that touches nothing leaves
/// every field of the record as it was, whatever it held, and orphans
/// nothing.
pub proof fn lemma_unset_preserves(e: NotificationConfigView, request: ResolvedRequest)
    requires
        request.content is Unset,
        request.description is Unset,
        request.author is Unset,
        request.footer is Unset,
        request.thumbnail is Unset,
        request.author_icon is Unset,
        request.footer_icon is Unset,
    ensures
        merged_view(e, request) == e,
        merge_orphans(e, request) == Seq::<Seq<char>>::empty(),
{
    assert(merged_view(e, request) =~= e);
    assert(merge_orphans(e, request) =~= Seq::<Seq<char>>::empty());
}

/// The entry changes the field away from the local file `f`.
pub open spec fn entry_moves_off_file(t: TriState<MediaRef>, f: Seq<char>) -> bool {
    t is Clear || (t matches TriState::SetTo(m) && m@ != MediaRefView::LocalFile(f))
}

/// Orphan correctness, destructive side: when one media field holds the
/// local file `f` and the request clears that field or sets it to anything
/// but that same file, the merge orphans `f` exactly once — provided no
/// other field owns the same file, which ownership guarantees.
pub proof fn lemma_orphan_exactly_once(
    e: NotificationConfigView,
    request: ResolvedRequest,
    f: Seq<char>,
)
    requires
        distinct_local_files(e),
        (e.thumbnail == Some(MediaRefView::LocalFile(f)) && entry_moves_off_file(
            request.thumbnail,
            f,
        )) || (e.author_icon == Some(MediaRefView::LocalFile(f)) && entry_moves_off_file(
            request.author_icon,
            f,
        )) || (e.footer_icon == Some(MediaRefView::LocalFile(f)) && entry_moves_off_file(
            request.footer_icon,
            f,
        )),
    ensures
        count_of(merge_orphans(e, request), f) == 1,
{
    let s1 = opt_to_seq(spec_media_orphan(e.thumbnail, request.thumbnail));
    let s2 = opt_to_seq(spec_media_orphan(e.author_icon, request.author_icon));
    let s3 = opt_to_seq(spec_media_orphan(e.footer_icon, request.footer_icon));
    lemma_count_of_add(s1 + s2, s3, f);
    lemma_count_of_add(s1, s2, f);
    assert(count_of(s1, f) + count_of(s2, f) + count_of(s3, f) == 1) by {
        lemma_count_of_single(s1, f);
        lemma_count_of_single(s2, f);
        lemma_count_of_single(s3, f);
    }
}

/// A zero-or-one element list counts 1 for `f` exactly when its element is
/// `f`.
proof fn lemma_count_of_single(s: Seq<Seq<char>>, f: Seq<char>)
    requires
        s.len() <= 1,
    ensures
        count_of(s, f) == if s.len() == 1 && s[0] == f {
            1nat
        } else {
            0nat
        },
{
    if s.len() == 1 {
        assert(s.drop_last() =~= Seq::<Seq<char>>::empty());
        assert(s.last() == s[0]);
        assert(count_of(s.drop_last(), f) == 0);
    }
}

/// Orphan correctness, preserving side: setting a media field to the very
/// local file it already holds orphans nothing.
pub proof fn lemma_same_file_not_orphaned(f: Seq<char>, m: MediaRef)
    requires
        m@ == MediaRefView::LocalFile(f),
    ensures
        spec_media_orphan(Some(MediaRefView::LocalFile(f)), TriState::SetTo(m)) is None,
{
}

} // verus!
