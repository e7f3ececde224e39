//! Partial update requests, as the command layer builds them.
//!
//! A request carries one tri-state entry per configurable field. The
//! builder starts with every entry at `Unset`; each command variant calls
//! exactly one builder method (or, for the full-replace command, all of
//! them), so absence of a parameter means `Clear` there and `Unset`
//! elsewhere.

use vstd::prelude::*;

use crate::media::MediaRef;
use crate::media::MediaSource;
use crate::media::UploadHandle;
use crate::tristate::TriState;
use crate::tristate::from_optional;

verus! {

/// A partial update as requested, before any upload has been fetched:
/// media entries may still name uploads.
#[derive(Debug)]
pub struct PartialUpdateRequest {
    pub content: TriState<String>,
    pub description: TriState<String>,
    pub author: TriState<String>,
    pub footer: TriState<String>,
    pub thumbnail: TriState<MediaSource>,
    pub author_icon: TriState<MediaSource>,
    pub footer_icon: TriState<MediaSource>,
}

/// A partial update whose media entries are settled references: every
/// upload has been fetched and stored under a local filename.
#[derive(Debug)]
pub struct ResolvedRequest {
    pub content: TriState<String>,
    pub description: TriState<String>,
    pub author: TriState<String>,
    pub footer: TriState<String>,
    pub thumbnail: TriState<MediaRef>,
    pub author_icon: TriState<MediaRef>,
    pub footer_icon: TriState<MediaRef>,
}

/// The media entry a command's pair of optional parameters asks for: an
/// uploaded file wins over a plain address when both are supplied, and
/// neither means `Clear`.
pub fn media_entry(file: Option<UploadHandle>, url: Option<String>) -> (r: TriState<MediaSource>)
    ensures
        match (file, url) {
            (Some(f), _) => r == TriState::SetTo(MediaSource::Upload(f)),
            (None, Some(u)) => r == TriState::SetTo(MediaSource::Remote(u)),
            (None, None) => r == TriState::<MediaSource>::Clear,
        },
{
    match file {
        Some(f) => TriState::SetTo(MediaSource::Upload(f)),
        None => from_optional(match url {
            Some(u) => Some(MediaSource::Remote(u)),
            None => None,
        }),
    }
}

impl PartialUpdateRequest {
    /// The empty request: no field is touched.
    pub fn new() -> (r: Self)
        ensures
            r.content is Unset,
            r.description is Unset,
            r.author is Unset,
            r.footer is Unset,
            r.thumbnail is Unset,
            r.author_icon is Unset,
            r.footer_icon is Unset,
    {
        PartialUpdateRequest {
            content: TriState::Unset,
            description: TriState::Unset,
            author: TriState::Unset,
            footer: TriState::Unset,
            thumbnail: TriState::Unset,
            author_icon: TriState::Unset,
            footer_icon: TriState::Unset,
        }
    }

    /// Requests the plain message text.
    pub fn content(self, value: Option<String>) -> (r: Self)
        ensures
            r.content == from_optional_spec(value),
            r.description == self.description,
            r.author == self.author,
            r.footer == self.footer,
            r.thumbnail == self.thumbnail,
            r.author_icon == self.author_icon,
            r.footer_icon == self.footer_icon,
    {
        PartialUpdateRequest { content: from_optional(value), ..self }
    }

    /// Requests the embed description.
    pub fn description(self, value: Option<String>) -> (r: Self)
        ensures
            r.description == from_optional_spec(value),
            r.content == self.content,
            r.author == self.author,
            r.footer == self.footer,
            r.thumbnail == self.thumbnail,
            r.author_icon == self.author_icon,
            r.footer_icon == self.footer_icon,
    {
        PartialUpdateRequest { description: from_optional(value), ..self }
    }

    /// Requests the embed author line.
    pub fn author(self, value: Option<String>) -> (r: Self)
        ensures
            r.author == from_optional_spec(value),
            r.content == self.content,
            r.description == self.description,
            r.footer == self.footer,
            r.thumbnail == self.thumbnail,
            r.author_icon == self.author_icon,
            r.footer_icon == self.footer_icon,
    {
        PartialUpdateRequest { author: from_optional(value), ..self }
    }

    /// Requests the embed footer line.
    pub fn footer(self, value: Option<String>) -> (r: Self)
        ensures
            r.footer == from_optional_spec(value),
            r.content == self.content,
            r.description == self.description,
            r.author == self.author,
            r.thumbnail == self.thumbnail,
            r.author_icon == self.author_icon,
            r.footer_icon == self.footer_icon,
    {
        PartialUpdateRequest { footer: from_optional(value), ..self }
    }

    /// Requests the embed thumbnail.
    pub fn thumbnail(self, file: Option<UploadHandle>, url: Option<String>) -> (r: Self)
        ensures
            r.thumbnail == media_entry_spec(file, url),
            r.content == self.content,
            r.description == self.description,
            r.author == self.author,
            r.footer == self.footer,
            r.author_icon == self.author_icon,
            r.footer_icon == self.footer_icon,
    {
        PartialUpdateRequest { thumbnail: media_entry(file, url), ..self }
    }

    /// Requests the icon beside the author line.
    pub fn author_icon(self, file: Option<UploadHandle>, url: Option<String>) -> (r: Self)
        ensures
            r.author_icon == media_entry_spec(file, url),
            r.content == self.content,
            r.description == self.description,
            r.author == self.author,
            r.footer == self.footer,
            r.thumbnail == self.thumbnail,
            r.footer_icon == self.footer_icon,
    {
        PartialUpdateRequest { author_icon: media_entry(file, url), ..self }
    }

    /// Requests the icon beside the footer line.
    pub fn footer_icon(self, file: Option<UploadHandle>, url: Option<String>) -> (r: Self)
        ensures
            r.footer_icon == media_entry_spec(file, url),
            r.content == self.content,
            r.description == self.description,
            r.author == self.author,
            r.footer == self.footer,
            r.thumbnail == self.thumbnail,
            r.author_icon == self.author_icon,
    {
        PartialUpdateRequest { footer_icon: media_entry(file, url), ..self }
    }
}

/// What `from_optional` yields.
pub open spec fn from_optional_spec<T>(value: Option<T>) -> TriState<T> {
    match value {
        Some(v) => TriState::SetTo(v),
        None => TriState::Clear,
    }
}

/// What `media_entry` yields.
pub open spec fn media_entry_spec(file: Option<UploadHandle>, url: Option<String>) -> TriState<
    MediaSource,
> {
    match (file, url) {
        (Some(f), _) => TriState::SetTo(MediaSource::Upload(f)),
        (None, Some(u)) => TriState::SetTo(MediaSource::Remote(u)),
        (None, None) => TriState::Clear,
    }
}

} // verus!
