//! The embedded static-asset tree, media-type derivation, and the
//! static-asset middleware decision: answer a request from the tree when
//! its path is embedded, delegate it unchanged otherwise.

use vstd::prelude::*;
use vstd::string::StrSliceExecFns;
use crate::text::{copy_bytes, str_eq};

verus! {

/// The file suffix of a path: the segment after the last `'.'`, defined
/// only when the path holds a `'.'`. A dotless name has no suffix.
pub open spec fn ext_of(p: Seq<char>) -> Option<Seq<char>>
    decreases p.len(),
{
    if p.len() == 0 {
        None
    } else if p.last() == '.' {
        Some(Seq::empty())
    } else {
        match ext_of(p.drop_last()) {
            Some(e) => Some(e.push(p.last())),
            None => None,
        }
    }
}

/// The media type that a file suffix maps to.
pub open spec fn mime_for_ext(e: Seq<char>) -> Seq<char> {
    if e == "html"@ {
        "text/html; charset=utf-8"@
    } else if e == "css"@ {
        "text/css"@
    } else if e == "js"@ {
        "application/javascript"@
    } else if e == "json"@ {
        "application/json"@
    } else if e == "svg"@ {
        "image/svg+xml"@
    } else if e == "png"@ {
        "image/png"@
    } else if e == "jpg"@ || e == "jpeg"@ {
        "image/jpeg"@
    } else if e == "gif"@ {
        "image/gif"@
    } else if e == "ico"@ {
        "image/x-icon"@
    } else if e == "woff"@ {
        "font/woff"@
    } else if e == "woff2"@ {
        "font/woff2"@
    } else {
        "application/octet-stream"@
    }
}

/// The media type of an asset path: derived from its file suffix, the
/// default for a path without one.
pub open spec fn mime_of(p: Seq<char>) -> Seq<char> {
    match ext_of(p) {
        Some(e) => mime_for_ext(e),
        None => "application/octet-stream"@,
    }
}

proof fn lemma_ext_suffix(p: Seq<char>, i: int)
    requires
        0 <= i <= p.len(),
        forall|j: int| i <= j < p.len() ==> p[j] != '.',
        i == 0 || p[i - 1] == '.',
    ensures
        i == 0 ==> ext_of(p) is None,
        i > 0 ==> ext_of(p) == Some(p.subrange(i, p.len() as int)),
    decreases p.len(),
{
    if i == p.len() {
        if i > 0 {
            assert(p.last() == '.');
            assert(p.subrange(i, p.len() as int) =~= Seq::<char>::empty());
        }
    } else {
        assert(p.last() != '.');
        let q = p.drop_last();
        lemma_ext_suffix(q, i);
        if i > 0 {
            assert(q.subrange(i, q.len() as int) =~= p.subrange(i, p.len() as int - 1));
            assert(ext_of(p) matches Some(e) && e =~= p.subrange(i, p.len() as int));
        }
    }
}

/// Derives the media type of an asset from the file suffix of its path; a
/// path without a `'.'` has no suffix and gets the default.
pub fn get_mime_type(path: &str) -> (r: &'static str)
    ensures
        r@ == mime_of(path@),
{
    let len = path.unicode_len();
    let mut i: usize = len;
    while i > 0 && path.get_char(i - 1) != '.'
        invariant
            len == path@.len(),
            i <= len,
            forall|j: int| i <= j < len ==> path@[j] != '.',
        decreases i,
    {
        i = i - 1;
    }
    proof {
        lemma_ext_suffix(path@, i as int);
    }
    if i == 0 {
        return "application/octet-stream";
    }
    let ext = path.substring_char(i, len);
    if str_eq(ext, "html") {
        "text/html; charset=utf-8"
    } else if str_eq(ext, "css") {
        "text/css"
    } else if str_eq(ext, "js") {
        "application/javascript"
    } else if str_eq(ext, "json") {
        "application/json"
    } else if str_eq(ext, "svg") {
        "image/svg+xml"
    } else if str_eq(ext, "png") {
        "image/png"
    } else if str_eq(ext, "jpg") || str_eq(ext, "jpeg") {
        "image/jpeg"
    } else if str_eq(ext, "gif") {
        "image/gif"
    } else if str_eq(ext, "ico") {
        "image/x-icon"
    } else if str_eq(ext, "woff") {
        "font/woff"
    } else if str_eq(ext, "woff2") {
        "font/woff2"
    } else {
        "application/octet-stream"
    }
}

/// One embedded static asset: a relative path and the asset bytes.
pub struct AssetEntry {
    pub path: String,
    pub bytes: Vec<u8>,
}

/// The first asset in `s` whose path is `p`, if any.
pub open spec fn lookup_entries(s: Seq<AssetEntry>, p: Seq<char>) -> Option<Seq<u8>>
    decreases s.len(),
{
    if s.len() == 0 {
        None
    } else if s[0].path@ == p {
        Some(s[0].bytes@)
    } else {
        lookup_entries(s.skip(1), p)
    }
}

proof fn lemma_lookup_push(s: Seq<AssetEntry>, e: AssetEntry, p: Seq<char>)
    ensures
        lookup_entries(s.push(e), p) == (if lookup_entries(s, p) is Some {
            lookup_entries(s, p)
        } else if e.path@ == p {
            Some(e.bytes@)
        } else {
            None::<Seq<u8>>
        }),
    decreases s.len(),
{
    if s.len() == 0 {
        assert(s.push(e)[0] == e);
        assert(s.push(e).skip(1) =~= Seq::<AssetEntry>::empty());
        assert(lookup_entries(Seq::<AssetEntry>::empty(), p) is None);
    } else {
        assert(s.push(e)[0] == s[0]);
        assert(s.push(e).skip(1) =~= s.skip(1).push(e));
        lemma_lookup_push(s.skip(1), e, p);
    }
}

proof fn lemma_lookup_at(s: Seq<AssetEntry>, p: Seq<char>, i: int)
    requires
        0 <= i < s.len(),
        s[i].path@ == p,
        forall|j: int| 0 <= j < i ==> s[j].path@ != p,
    ensures
        lookup_entries(s, p) == Some(s[i].bytes@),
    decreases s.len(),
{
    if i == 0 {
    } else {
        lemma_lookup_at(s.skip(1), p, i - 1);
    }
}

proof fn lemma_lookup_present(s: Seq<AssetEntry>, p: Seq<char>)
    requires
        exists|j: int| 0 <= j < s.len() && s[j].path@ == p,
    ensures
        lookup_entries(s, p) is Some,
    decreases s.len(),
{
    if s[0].path@ == p {
    } else {
        let j = choose|j: int| 0 <= j < s.len() && s[j].path@ == p;
        assert(s.skip(1)[j - 1].path@ == p);
        lemma_lookup_present(s.skip(1), p);
    }
}

proof fn lemma_lookup_absent(s: Seq<AssetEntry>, p: Seq<char>)
    requires
        forall|j: int| 0 <= j < s.len() ==> s[j].path@ != p,
    ensures
        lookup_entries(s, p) is None,
    decreases s.len(),
{
    if s.len() == 0 {
    } else {
        lemma_lookup_absent(s.skip(1), p);
    }
}

/// The tree of static assets embedded at build time: a mapping from a
/// relative path to the asset bytes, with unique paths.
pub struct StaticAssetTree {
    pub entries: Vec<AssetEntry>,
}

impl StaticAssetTree {
    /// Paths are unique: no two entries share one.
    pub open spec fn wf(self) -> bool {
        forall|i: int, j: int|
            0 <= i < j < self.entries@.len() ==> self.entries@[i].path@ != self.entries@[j].path@
    }

    /// The bytes stored under path `p`, if present.
    pub open spec fn spec_lookup(self, p: Seq<char>) -> Option<Seq<u8>> {
        lookup_entries(self.entries@, p)
    }

    /// How many assets the tree holds.
    pub open spec fn spec_len(self) -> nat {
        self.entries@.len()
    }

    /// An empty tree.
    pub fn new() -> (r: StaticAssetTree)
        ensures
            r.wf(),
            r.spec_len() == 0,
            forall|p: Seq<char>| #[trigger] r.spec_lookup(p) is None,
    {
        StaticAssetTree { entries: Vec::new() }
    }

    /// Whether an asset is stored under `path`.
    pub fn contains(&self, path: &str) -> (r: bool)
        ensures
            r == (self.spec_lookup(path@) is Some),
    {
        let n = self.entries.len();
        let mut i: usize = 0;
        while i < n
            invariant
                n == self.entries@.len(),
                i <= n,
                forall|j: int| 0 <= j < i ==> self.entries@[j].path@ != path@,
            decreases n - i,
        {
            if str_eq(self.entries[i].path.as_str(), path) {
                proof {
                    lemma_lookup_at(self.entries@, path@, i as int);
                }
                return true;
            }
            i = i + 1;
        }
        proof {
            lemma_lookup_absent(self.entries@, path@);
        }
        false
    }

    /// Adds an asset under a path not yet present.
    pub fn insert(&mut self, path: String, bytes: Vec<u8>)
        requires
            old(self).wf(),
            old(self).spec_lookup(path@) is None,
        ensures
            final(self).wf(),
            final(self).spec_len() == old(self).spec_len() + 1,
            final(self).spec_lookup(path@) == Some(bytes@),
            forall|q: Seq<char>|
                q != path@ ==> #[trigger] final(self).spec_lookup(q) == old(self).spec_lookup(q),
    {
        let ghost p = path@;
        let ghost olds = self.entries@;
        proof {
            assert forall|i: int| 0 <= i < olds.len() implies olds[i].path@ != p by {
                if olds[i].path@ == p {
                    lemma_lookup_present(olds, p);
                }
            }
        }
        let entry = AssetEntry { path, bytes };
        self.entries.push(entry);
        proof {
            lemma_lookup_push(olds, entry, p);
            assert forall|q: Seq<char>|
                q != p implies #[trigger] lookup_entries(self.entries@, q) == lookup_entries(
                olds,
                q,
            ) by {
                lemma_lookup_push(olds, entry, q);
            }
        }
    }

    /// Looks an asset up by its relative path.
    pub fn asset(&self, path: &str) -> (r: Option<&AssetEntry>)
        ensures
            match r {
                Some(e) => self.spec_lookup(path@) == Some(e.bytes@) && e.path@ == path@,
                None => self.spec_lookup(path@) is None,
            },
    {
        let n = self.entries.len();
        let mut i: usize = 0;
        while i < n
            invariant
                n == self.entries@.len(),
                i <= n,
                forall|j: int| 0 <= j < i ==> self.entries@[j].path@ != path@,
            decreases n - i,
        {
            if str_eq(self.entries[i].path.as_str(), path) {
                proof {
                    lemma_lookup_at(self.entries@, path@, i as int);
                }
                return Some(&self.entries[i]);
            }
            i = i + 1;
        }
        proof {
            lemma_lookup_absent(self.entries@, path@);
        }
        None
    }
}

/// A request path with a single leading `'/'` removed.
pub open spec fn trim_lead_slash(p: Seq<char>) -> Seq<char> {
    if p.len() > 0 && p[0] == '/' {
        p.skip(1)
    } else {
        p
    }
}

/// What the asset middleware answers for a request with raw path `raw`:
/// the asset's media type and bytes when the trimmed path is embedded,
/// nothing (delegate to the inner service unchanged) otherwise.
pub open spec fn respond_spec(tree: StaticAssetTree, raw: Seq<char>) -> Option<(Seq<char>, Seq<
    u8,
>)> {
    match tree.spec_lookup(trim_lead_slash(raw)) {
        Some(b) => Some((mime_of(trim_lead_slash(raw)), b)),
        None => None,
    }
}

/// A response answered directly from the asset tree.
pub struct AssetHit {
    pub status: u16,
    pub content_type: String,
    pub body: Vec<u8>,
}

/// The layer that places the asset middleware in front of an inner
/// service.
pub struct AssetsLayer {
    pub assets: StaticAssetTree,
}

impl AssetsLayer {
    /// Wraps an inner service with the asset middleware.
    pub fn layer<S>(self, inner: S) -> (m: AssetsMiddleware<S>)
        ensures
            m.assets == self.assets,
            m.inner == inner,
    {
        AssetsMiddleware { inner, assets: self.assets }
    }
}

/// The static-asset middleware: it answers requests for embedded assets
/// itself and hands every other request to the inner service.
pub struct AssetsMiddleware<S> {
    pub inner: S,
    pub assets: StaticAssetTree,
}

impl<S> AssetsMiddleware<S> {
    /// Decides a request: a 200 response with the asset's media type and
    /// exact bytes when the path (one leading `'/'` removed) is embedded,
    /// `None` when the request is to be delegated unchanged. The embedded
    /// assets are method-agnostic static files, so the decision looks at
    /// the path alone.
    pub fn respond(&self, raw_path: &str) -> (r: Option<AssetHit>)
        ensures
            match r {
                Some(hit) => respond_spec(self.assets, raw_path@) == Some(
                    (hit.content_type@, hit.body@),
                ) && hit.status == 200,
                None => respond_spec(self.assets, raw_path@) is None,
            },
    {
        let len = raw_path.unicode_len();
        let trimmed: &str = if len > 0 && raw_path.get_char(0) == '/' {
            raw_path.substring_char(1, len)
        } else {
            raw_path
        };
        proof {
            assert(trimmed@ =~= trim_lead_slash(raw_path@));
        }
        match self.assets.asset(trimmed) {
            Some(entry) => {
                let mime = get_mime_type(trimmed);
                let body = copy_bytes(&entry.bytes);
                Some(AssetHit {
                    status: 200,
                    content_type: mime.to_owned(),
                    body,
                })
            },
            None => None,
        }
    }
}

/// Every embedded asset is served: a request for `/p`, where `p` is a path
/// in the tree, is answered from the tree with the asset's media type and
/// its exact bytes, and never delegated.
pub proof fn lemma_embedded_asset_served(tree: StaticAssetTree, p: Seq<char>, b: Seq<u8>)
    requires
        tree.spec_lookup(p) == Some(b),
    ensures
        respond_spec(tree, seq!['/'] + p) == Some((mime_of(p), b)),
{
    assert(trim_lead_slash(seq!['/'] + p) =~= p);
}

/// No other request is touched: a request for `/p`, where `p` is not in
/// the tree, is delegated to the inner service unchanged.
pub proof fn lemma_missing_asset_delegated(tree: StaticAssetTree, p: Seq<char>)
    requires
        tree.spec_lookup(p) is None,
    ensures
        respond_spec(tree, seq!['/'] + p) is None,
{
    assert(trim_lead_slash(seq!['/'] + p) =~= p);
}

} // verus!
