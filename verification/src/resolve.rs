//! The media acquisition session.
//!
//! Uploads named by a partial update must be fetched and written to the
//! guild's storage before the record can change. The caller performs each
//! download and write; this session decides what to fetch next, keeps the
//! list of files written so far in this request, and on a failure hands
//! back exactly that list for deletion. A failed session can never produce
//! the resolved request that the merge and the store take, so a failed
//! acquisition leaves the store untouched.

use vstd::prelude::*;

use crate::media::MediaRef;
use crate::media::MediaRefView;
use crate::media::MediaSource;
use crate::media::UploadHandle;
use crate::request::PartialUpdateRequest;
use crate::request::ResolvedRequest;
use crate::tristate::TriState;

verus! {

/// The upload an entry still needs fetched, if any.
pub open spec fn upload_of(t: TriState<MediaSource>) -> Option<UploadHandle> {
    match t {
        TriState::SetTo(MediaSource::Upload(h)) => Some(h),
        _ => None,
    }
}

/// The observable value of an upload handle.
pub open spec fn handle_view(h: UploadHandle) -> (Seq<char>, Seq<char>) {
    (h.filename@, h.url@)
}

/// An optional upload as a sequence of zero or one handle views.
pub open spec fn opt_handle_seq(o: Option<UploadHandle>) -> Seq<(Seq<char>, Seq<char>)> {
    match o {
        Some(h) => seq![handle_view(h)],
        None => Seq::empty(),
    }
}

/// The uploads a request needs fetched, in field order: thumbnail, author
/// icon, footer icon.
pub open spec fn upload_views_of(r: PartialUpdateRequest) -> Seq<(Seq<char>, Seq<char>)> {
    opt_handle_seq(upload_of(r.thumbnail)) + opt_handle_seq(upload_of(r.author_icon))
        + opt_handle_seq(upload_of(r.footer_icon))
}

/// The views of a list of upload handles.
pub open spec fn handle_views(s: Seq<UploadHandle>) -> Seq<(Seq<char>, Seq<char>)> {
    s.map(|i: int, h: UploadHandle| handle_view(h))
}

/// The views of a list of filenames.
pub open spec fn name_views(s: Seq<String>) -> Seq<Seq<char>> {
    s.map(|i: int, x: String| x@)
}

/// One partial update's media acquisition, stepped by the caller: fetch
/// what `next_upload` names, then report `note_success` or `note_failure`.
#[derive(Debug)]
pub struct ResolveSession {
    /// The request being resolved.
    pub request: PartialUpdateRequest,
    /// The uploads to fetch, in field order.
    pub uploads: Vec<UploadHandle>,
    /// Filenames of the files written so far in this request, in fetch
    /// order.
    pub resolved: Vec<String>,
    /// Whether a fetch has failed; a failed session cannot finish.
    pub failed: bool,
}

impl ResolveSession {
    /// The session's bookkeeping matches its request.
    pub open spec fn wf(&self) -> bool {
        &&& handle_views(self.uploads@) == upload_views_of(self.request)
        &&& self.resolved@.len() <= self.uploads@.len()
    }

    /// Every upload was fetched and none failed: the session can finish.
    pub open spec fn complete(&self) -> bool {
        !self.failed && self.resolved@.len() == self.uploads@.len()
    }

    /// Starts acquisition for a request.
    pub fn begin(request: PartialUpdateRequest) -> (s: Self)
        ensures
            s.wf(),
            s.request == request,
            s.resolved@.len() == 0,
            !s.failed,
    {
        let mut uploads: Vec<UploadHandle> = Vec::new();
        if let TriState::SetTo(MediaSource::Upload(h)) = &request.thumbnail {
            uploads.push(h.duplicate());
        }
        if let TriState::SetTo(MediaSource::Upload(h)) = &request.author_icon {
            uploads.push(h.duplicate());
        }
        if let TriState::SetTo(MediaSource::Upload(h)) = &request.footer_icon {
            uploads.push(h.duplicate());
        }
        proof {
            assert(handle_views(uploads@) =~= upload_views_of(request));
        }
        ResolveSession { request, uploads, resolved: Vec::new(), failed: false }
    }

    /// The next upload to fetch, or nothing when the session has failed or
    /// no fetch remains.
    pub fn next_upload(&self) -> (r: Option<UploadHandle>)
        requires
            self.wf(),
        ensures
            match r {
                Some(h) => !self.failed && self.resolved@.len() < self.uploads@.len()
                    && handle_view(h) == handle_views(self.uploads@)[self.resolved@.len() as int],
                None => self.failed || self.resolved@.len() == self.uploads@.len(),
            },
    {
        if self.failed {
            None
        } else if self.resolved.len() < self.uploads.len() {
            Some(self.uploads[self.resolved.len()].duplicate())
        } else {
            None
        }
    }

    /// Records that the pending upload was fetched and written under
    /// `filename` in the guild's storage.
    pub fn note_success(&mut self, filename: String)
        requires
            old(self).wf(),
            !old(self).failed,
            old(self).resolved@.len() < old(self).uploads@.len(),
        ensures
            final(self).wf(),
            !final(self).failed,
            final(self).request == old(self).request,
            final(self).uploads == old(self).uploads,
            final(self).resolved@ == old(self).resolved@.push(filename),
    {
        self.resolved.push(filename);
    }

    /// Records that the pending fetch failed, and returns every file this
    /// request has written — the earlier successes, plus the partially
    /// written file of the failed fetch if one was created — for deletion.
    pub fn note_failure(&mut self, partial: Option<String>) -> (rollback: Vec<String>)
        requires
            old(self).wf(),
        ensures
            final(self).wf(),
            final(self).failed,
            final(self).request == old(self).request,
            name_views(rollback@) == name_views(old(self).resolved@) + (match partial {
                Some(f) => seq![f@],
                None => Seq::<Seq<char>>::empty(),
            }),
    {
        self.failed = true;
        let n = self.resolved.len();
        let mut rollback: Vec<String> = Vec::new();
        let mut i: usize = 0;
        while i < n
            invariant
                i <= n,
                n == self.resolved@.len(),
                rollback@ == self.resolved@.take(i as int),
            decreases n - i,
        {
            rollback.push(self.resolved[i].clone());
            proof {
                assert(rollback@ =~= self.resolved@.take(i + 1));
            }
            i = i + 1;
        }
        proof {
            assert(self.resolved@.take(n as int) =~= self.resolved@);
        }
        if let Some(f) = partial {
            rollback.push(f);
        }
        proof {
            assert(name_views(rollback@) =~= name_views(old(self).resolved@) + (match partial {
                Some(f) => seq![f@],
                None => Seq::<Seq<char>>::empty(),
            }));
        }
        rollback
    }

    /// An entry after resolution: uploads become the local files they were
    /// stored under, read off `names` from position `at`.
    pub open spec fn media_resolved(
        out: TriState<MediaRef>,
        t: TriState<MediaSource>,
        names: Seq<Seq<char>>,
        at: int,
    ) -> bool {
        match t {
            TriState::Unset => out is Unset,
            TriState::Clear => out is Clear,
            TriState::SetTo(src) => match src {
                MediaSource::Remote(u) => out matches TriState::SetTo(m) && m@ == MediaRefView::Url(
                    u@,
                ),
                MediaSource::Upload(h) => out matches TriState::SetTo(m) && m@
                    == MediaRefView::LocalFile(names[at]),
            },
        }
    }

    /// How many uploads one entry contributes.
    pub open spec fn upload_count(t: TriState<MediaSource>) -> nat {
        match upload_of(t) {
            Some(_) => 1,
            None => 0,
        }
    }

    /// Turns a fully fetched session into the resolved request the merge
    /// takes: text entries unchanged, remote media kept, each upload
    /// replaced by the local file it was stored under.
    pub fn finish(self) -> (r: ResolvedRequest)
        requires
            self.wf(),
            self.complete(),
        ensures
            r.content == self.request.content,
            r.description == self.request.description,
            r.author == self.request.author,
            r.footer == self.request.footer,
            Self::media_resolved(
                r.thumbnail,
                self.request.thumbnail,
                name_views(self.resolved@),
                0,
            ),
            Self::media_resolved(
                r.author_icon,
                self.request.author_icon,
                name_views(self.resolved@),
                Self::upload_count(self.request.thumbnail) as int,
            ),
            Self::media_resolved(
                r.footer_icon,
                self.request.footer_icon,
                name_views(self.resolved@),
                Self::upload_count(self.request.thumbnail) as int + Self::upload_count(
                    self.request.author_icon,
                ) as int,
            ),
    {
        proof {
            assert(self.uploads@.len() == upload_views_of(self.request).len());
        }
        let ResolveSession { request, uploads: _, resolved, failed: _ } = self;
        let mut idx: usize = 0;
        let thumbnail: TriState<MediaRef> = match request.thumbnail {
            TriState::Unset => TriState::Unset,
            TriState::Clear => TriState::Clear,
            TriState::SetTo(MediaSource::Remote(u)) => TriState::SetTo(MediaRef::Url(u)),
            TriState::SetTo(MediaSource::Upload(_)) => {
                let f = resolved[idx].clone();
                idx = idx + 1;
                TriState::SetTo(MediaRef::LocalFile(f))
            },
        };
        let author_icon: TriState<MediaRef> = match request.author_icon {
            TriState::Unset => TriState::Unset,
            TriState::Clear => TriState::Clear,
            TriState::SetTo(MediaSource::Remote(u)) => TriState::SetTo(MediaRef::Url(u)),
            TriState::SetTo(MediaSource::Upload(_)) => {
                let f = resolved[idx].clone();
                idx = idx + 1;
                TriState::SetTo(MediaRef::LocalFile(f))
            },
        };
        let footer_icon: TriState<MediaRef> = match request.footer_icon {
            TriState::Unset => TriState::Unset,
            TriState::Clear => TriState::Clear,
            TriState::SetTo(MediaSource::Remote(u)) => TriState::SetTo(MediaRef::Url(u)),
            TriState::SetTo(MediaSource::Upload(_)) => {
                let f = resolved[idx].clone();
                TriState::SetTo(MediaRef::LocalFile(f))
            },
        };
        ResolvedRequest {
            content: request.content,
            description: request.description,
            author: request.author,
            footer: request.footer,
            thumbnail,
            author_icon,
            footer_icon,
        }
    }
}

/// Rollback atomicity: when the fetch for field N of a multi-field request
/// fails, the rollback list returned by `note_failure` holds exactly the
/// files written for the successful fields before it (with the failed
/// fetch's partial file, when one exists) — that is the ensures of
/// `note_failure` — and the session can never again become complete, so
/// `finish` can never hand the merge and the store a resolved request:
/// nothing is persisted.
pub proof fn lemma_failed_session_never_completes(s: ResolveSession)
    requires
        s.failed,
    ensures
        !s.complete(),
{
}

} // verus!
