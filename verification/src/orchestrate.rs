//! The configuration entry point: one command's journey from resolved
//! request to stored record and rendered preview.
//!
//! The caller drives acquisition first (see the resolve session); only a
//! session that fetched every upload can produce the resolved request this
//! stage takes, so a failed acquisition never reaches the store. From
//! there the steps are: load the existing record (absent reads as the
//! default), merge, persist, hand back the orphaned files for deletion,
//! and render a preview of the now-current record against the caller's own
//! identity.

use vstd::prelude::*;

use crate::config::NotificationConfig;
use crate::config::NotificationConfigView;
use crate::config::default_config_view;
use crate::merge::merge;
use crate::merge::merge_orphans;
use crate::merge::merged_view;
use crate::merge::seq_views;
use crate::render::RenderContext;
use crate::render::RenderedMessage;
use crate::render::format_of_config;
use crate::render::spec_render_output;
use crate::render::spec_rendered;
use crate::render::spec_substitutions;
use crate::request::ResolvedRequest;
use crate::resolve::name_views;
use crate::store::NotificationStore;

verus! {

/// How a configuration command can fail, as surfaced to the caller.
#[derive(Clone, Copy, PartialEq, Eq, Structural, Debug)]
pub enum ConfigureError {
    /// A media fetch failed or returned a non-success status: the
    /// operation was aborted before anything was persisted.
    MediaUnavailable,
    /// A directory or file could not be created or written while storing
    /// fetched media: fatal during that phase, and the operation was
    /// aborted. (A deletion failure during cleanup is only logged, never
    /// surfaced.)
    FileSystemError,
    /// The persistence layer failed: the operation was aborted and
    /// nothing was committed.
    StoreFailure,
    /// Rendering or the live lookup failed after the commit: the
    /// configuration is saved, only the preview is unavailable.
    PreviewFailure,
}

impl ConfigureError {
    /// A short description of the failure.
    pub fn message(&self) -> (r: &'static str)
        ensures
            r@.len() > 0,
    {
        proof {
            reveal_strlit("media could not be fetched; nothing was changed");
            reveal_strlit("media could not be stored on disk; nothing was changed");
            reveal_strlit("the record could not be persisted; nothing was changed");
            reveal_strlit("saved, but no preview could be rendered");
        }
        match self {
            ConfigureError::MediaUnavailable => "media could not be fetched; nothing was changed",
            ConfigureError::FileSystemError => "media could not be stored on disk; nothing was changed",
            ConfigureError::StoreFailure => "the record could not be persisted; nothing was changed",
            ConfigureError::PreviewFailure => "saved, but no preview could be rendered",
        }
    }
}

/// What a successful configuration hands back: the record now stored, the
/// local files the update orphaned (to be deleted best-effort), and the
/// preview rendered from the caller's own identity.
#[derive(Debug)]
pub struct ConfigureOutcome {
    pub record: NotificationConfig,
    pub orphans: Vec<String>,
    pub preview: RenderedMessage,
}

/// The record a key currently denotes: the stored one, or the default
/// when none is stored.
pub open spec fn existing_or_default(
    m: Map<(u64, bool), NotificationConfigView>,
    guild_id: u64,
    join: bool,
) -> NotificationConfigView {
    if m.contains_key((guild_id, join)) {
        m[(guild_id, join)]
    } else {
        default_config_view(guild_id, join)
    }
}

/// Applies one resolved configuration request.
///
/// Loads the record under the key (absent reads as all-default), merges
/// the request into it, stores the result under the same key, and renders
/// a preview of the re-loaded record against the caller's context and the
/// files the caller could load. Returns the new record, the orphaned
/// files, and the preview; no other key of the store changes.
pub fn configure(
    store: &mut NotificationStore,
    guild_id: u64,
    join: bool,
    request: ResolvedRequest,
    ctx: &RenderContext,
    available: &Vec<String>,
) -> (r: ConfigureOutcome)
    requires
        old(store).wf(),
    ensures
        final(store).wf(),
        r.record@ == merged_view(existing_or_default(old(store)@, guild_id, join), request),
        seq_views(r.orphans@) == merge_orphans(
            existing_or_default(old(store)@, guild_id, join),
            request,
        ),
        final(store)@ == old(store)@.insert((guild_id, join), r.record@),
        r.preview@ == spec_render_output(
            spec_rendered(format_of_config(r.record@), spec_substitutions(ctx@)),
            name_views(available@),
        ),
{
    let existing = match store.find_by_key(guild_id, join) {
        Some(c) => c.duplicate(),
        None => NotificationConfig::default_for(guild_id, join),
    };
    let (updated, orphans) = merge(&existing, request);
    store.upsert(updated.duplicate());
    let current = match store.find_by_key(guild_id, join) {
        Some(c) => c.duplicate(),
        None => {
            proof {
                assert(false);
            }
            NotificationConfig::default_for(guild_id, join)
        },
    };
    let format = current.to_format();
    let details = format.for_context(ctx);
    let preview = details.to_render_output(available);
    ConfigureOutcome { record: updated, orphans, preview }
}

} // verus!
