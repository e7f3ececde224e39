//! Media references: remote URLs and locally stored files.
//!
//! A media field of a notification holds either a plain web address or the
//! name of a file the guild uploaded, stored under the guild's content
//! directory. A local file is owned by exactly one field; the merge stage
//! accounts for files that lose their owner.

use vstd::prelude::*;

verus! {

/// Where a media field points: a remote address, or a file stored locally
/// under the guild's content directory.
#[derive(Debug, PartialEq, Eq)]
pub enum MediaRef {
    Url(String),
    LocalFile(String),
}

/// The mathematical value of a media reference.
pub enum MediaRefView {
    Url(Seq<char>),
    LocalFile(Seq<char>),
}

impl View for MediaRef {
    type V = MediaRefView;

    open spec fn view(&self) -> MediaRefView {
        match self {
            MediaRef::Url(u) => MediaRefView::Url(u@),
            MediaRef::LocalFile(f) => MediaRefView::LocalFile(f@),
        }
    }
}

impl MediaRef {
    /// A value equal to this one.
    pub fn duplicate(&self) -> (r: Self)
        ensures
            r@ == self@,
    {
        match self {
            MediaRef::Url(u) => MediaRef::Url(u.clone()),
            MediaRef::LocalFile(f) => MediaRef::LocalFile(f.clone()),
        }
    }
}

/// The view of an optional media reference.
pub open spec fn opt_media_view(m: Option<MediaRef>) -> Option<MediaRefView> {
    match m {
        Some(r) => Some(r@),
        None => None,
    }
}

/// An uploaded file as the command layer hands it over: the name the
/// uploader gave it, and the address its content can be fetched from.
#[derive(Debug, PartialEq, Eq)]
pub struct UploadHandle {
    pub filename: String,
    pub url: String,
}

impl UploadHandle {
    /// A value equal to this one.
    pub fn duplicate(&self) -> (r: Self)
        ensures
            r.filename@ == self.filename@,
            r.url@ == self.url@,
    {
        UploadHandle { filename: self.filename.clone(), url: self.url.clone() }
    }
}

/// What a media field of a partial update names before acquisition: either
/// a remote address taken as it stands, or an upload still to be fetched.
#[derive(Debug, PartialEq, Eq)]
pub enum MediaSource {
    Remote(String),
    Upload(UploadHandle),
}

/// Index of the last dot, or -1 if there is none.
pub open spec fn last_dot(s: Seq<char>) -> int
    decreases s.len(),
{
    if s.len() == 0 {
        -1
    } else if s.last() == '.' {
        s.len() - 1
    } else {
        last_dot(s.drop_last())
    }
}

/// The extension of a filename: what follows its last dot.
pub open spec fn extension_spec(s: Seq<char>) -> Option<Seq<char>> {
    if last_dot(s) < 0 {
        None
    } else {
        Some(s.skip(last_dot(s) + 1))
    }
}

/// `last_dot` names a dot with nothing but non-dots after it.
proof fn lemma_last_dot_bounds(s: Seq<char>)
    ensures
        last_dot(s) == -1 ==> forall|k: int| 0 <= k < s.len() ==> s[k] != '.',
        last_dot(s) != -1 ==> 0 <= last_dot(s) < s.len() && s[last_dot(s)] == '.' && forall|k: int|
            last_dot(s) < k < s.len() ==> s[k] != '.',
    decreases s.len(),
{
    if s.len() > 0 && s.last() != '.' {
        lemma_last_dot_bounds(s.drop_last());
        assert forall|k: int| 0 <= k < s.len() && last_dot(s) == -1 implies s[k] != '.' by {
            if k < s.len() - 1 {
                assert(s.drop_last()[k] == s[k]);
            }
        }
        if last_dot(s) != -1 {
            assert forall|k: int| last_dot(s) < k < s.len() implies s[k] != '.' by {
                if k < s.len() - 1 {
                    assert(s.drop_last()[k] == s[k]);
                }
            }
        }
    }
}

/// The extension of `filename`: the characters after its last dot, or
/// nothing when it holds no dot.
pub fn extension_of(filename: &str) -> (r: Option<String>)
    ensures
        match extension_spec(filename@) {
            Some(e) => r matches Some(x) && x@ == e,
            None => r is None,
        },
{
    let cs = crate::text::string_to_chars(filename);
    let n = cs.len();
    let mut i: usize = n;
    while i > 0
        invariant
            i <= n,
            n == cs@.len(),
            cs@ == filename@,
            forall|k: int| i <= k < n ==> cs@[k] != '.',
        decreases i,
    {
        if cs[i - 1] == '.' {
            proof {
                lemma_last_dot_bounds(filename@);
                assert(last_dot(filename@) == i - 1) by {
                    if last_dot(filename@) > i - 1 {
                        assert(filename@[last_dot(filename@)] != '.');
                    }
                    if last_dot(filename@) < i - 1 {
                        assert(forall|k: int|
                            last_dot(filename@) < k < n ==> filename@[k] != '.');
                    }
                }
            }
            let mut ext: Vec<char> = Vec::new();
            let mut j: usize = i;
            while j < n
                invariant
                    i <= j <= n,
                    n == cs@.len(),
                    cs@ == filename@,
                    ext@ == filename@.subrange(i as int, j as int),
                decreases n - j,
            {
                ext.push(cs[j]);
                proof {
                    assert(ext@ =~= filename@.subrange(i as int, j + 1));
                }
                j = j + 1;
            }
            proof {
                assert(filename@.subrange(i as int, n as int) =~= filename@.skip(i as int));
            }
            return Some(crate::text::chars_to_string(&ext));
        }
        i = i - 1;
    }
    proof {
        lemma_last_dot_bounds(filename@);
        if last_dot(filename@) != -1 {
            assert(filename@[last_dot(filename@)] == '.');
        }
    }
    None
}

/// A character that a fresh media stem may hold.
pub open spec fn is_stem_char(c: char) -> bool {
    ('0' <= c && c <= '9') || ('a' <= c && c <= 'f') || c == '-'
}

/// Relies on `uuid::Uuid::new_v4` and its `Display` form: a fresh random
/// identifier rendered as 36 characters, each a lowercase hexadecimal digit
/// or a hyphen. Nothing is promised about which identifier comes back.
#[verifier::external_body]
fn fresh_media_stem() -> (r: String)
    ensures
        r@.len() == 36,
        forall|i: int| 0 <= i < r@.len() ==> is_stem_char(#[trigger] r@[i]),
{
    uuid::Uuid::new_v4().to_string()
}

/// A collision-resistant name for a newly stored file: a random stem,
/// keeping the uploaded file's extension when it has one.
pub fn make_media_filename(original: &str) -> (r: String)
    ensures
        r@.len() >= 36,
        forall|i: int| 0 <= i < 36 ==> is_stem_char(#[trigger] r@[i]),
        match extension_spec(original@) {
            Some(e) => r@ == r@.take(36) + seq!['.'] + e,
            None => r@.len() == 36,
        },
{
    let stem = fresh_media_stem();
    match extension_of(original) {
        Some(ext) => {
            let ghost stem_chars = stem@;
            let mut r = stem;
            r.append(".");
            r.append(ext.as_str());
            proof {
                reveal_strlit(".");
                assert("."@ =~= seq!['.']);
                assert(r@.take(36) =~= stem_chars);
                assert(r@ =~= r@.take(36) + seq!['.'] + ext@);
            }
            r
        },
        None => stem,
    }
}

} // verus!
