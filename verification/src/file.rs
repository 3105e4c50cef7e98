use crate::cache::RuntimeContentCache;
use crate::cache::bytes_eq;
use crate::metadata::Metadata;
use crate::render::dec_string;
use crate::render::spec_dec;
use vstd::prelude::*;
use vstd::string::StringExecFns;
use vstd::string::StringSliceAdditionalSpecFns;
use vstd::utf8::decode_utf8;
use vstd::utf8::valid_utf8;

verus! {

/// One logical embedded file: a relative path, a content-resolution strategy,
/// and optional metadata.  The production strategy owns its bytes outright;
/// the development strategy keeps the root directory the embedding was
/// generated from and resolves contents through the process-wide
/// [`RuntimeContentCache`], so that a changed on-disk file is visible without
/// rebuilding the embedding.
pub struct File {
    path: String,
    contents: Vec<u8>,
    metadata: Option<Metadata>,
    root_prefix: Option<String>,
}

impl File {
    /// The file's relative path, the lookup key into the cache.
    pub closed spec fn spec_path(&self) -> Seq<char> {
        self.path@
    }

    /// The bytes the file was constructed with: the authoritative contents
    /// under the production strategy, a placeholder under the development one.
    pub closed spec fn spec_contents(&self) -> Seq<u8> {
        self.contents@
    }

    /// The attached metadata, if any.
    pub closed spec fn spec_metadata(&self) -> Option<Metadata> {
        self.metadata
    }

    /// Whether the file resolves contents through the development strategy.
    pub closed spec fn is_development(&self) -> bool {
        self.root_prefix is Some
    }

    /// The absolute directory the embedding was generated from (development
    /// strategy only).
    pub closed spec fn spec_prefix(&self) -> Seq<char>
        recommends
            self.is_development(),
    {
        self.root_prefix->0@
    }

    /// What content access yields against a given cache state: the embedded
    /// bytes under the production strategy; the cache's copy, if present,
    /// under the development one; nothing otherwise, a disk read being needed
    /// first.
    pub open spec fn resolved(&self, cache: Map<Seq<char>, Seq<u8>>) -> Option<Seq<u8>> {
        if self.is_development() {
            if cache.contains_key(self.spec_path()) {
                Some(cache[self.spec_path()])
            } else {
                None
            }
        } else {
            Some(self.spec_contents())
        }
    }

    /// The cache state after recording a disk read of `bytes` for this file:
    /// the first completed read wins, a later one changes nothing.
    pub open spec fn after_read(
        &self,
        cache: Map<Seq<char>, Seq<u8>>,
        bytes: Seq<u8>,
    ) -> Map<Seq<char>, Seq<u8>> {
        if cache.contains_key(self.spec_path()) {
            cache
        } else {
            cache.insert(self.spec_path(), bytes)
        }
    }

    /// The on-disk location the development strategy reads from: the root
    /// prefix and the relative path, joined with the path separator.
    pub open spec fn spec_real_path(&self) -> Seq<char>
        recommends
            self.is_development(),
    {
        self.spec_prefix() + seq!['/'] + self.spec_path()
    }

    /// Create a new file.  Pure value construction, no I/O: a path, the byte
    /// contents, and, for the development strategy only, the root directory
    /// the embedding was generated from.
    pub fn new(path: String, contents: Vec<u8>, root_prefix: Option<String>) -> (f: File)
        ensures
            f.spec_path() == path@,
            f.spec_contents() == contents@,
            f.spec_metadata() is None,
            f.is_development() == root_prefix is Some,
            root_prefix matches Some(p) ==> f.spec_prefix() == p@,
    {
        File { path, contents, metadata: None, root_prefix }
    }

    /// The full path of the file, relative to the embedded root directory.
    pub fn path(&self) -> (r: &str)
        ensures
            r@ == self.spec_path(),
    {
        self.path.as_str()
    }

    /// The file's raw contents, as far as they resolve without I/O: the
    /// embedded bytes under the production strategy, the cache's copy under
    /// the development one.  `None` exactly when a disk read is still needed,
    /// that is, under the development strategy for a path the cache has not
    /// seen; never fabricated empty bytes.
    pub fn contents<'a>(&'a self, cache: &'a RuntimeContentCache) -> (r: Option<&'a [u8]>)
        ensures
            match r {
                Some(bytes) => self.resolved(cache@) == Some(bytes@),
                None => self.resolved(cache@) is None,
            },
    {
        if self.root_prefix.is_some() {
            match cache.lookup(self.path.as_str()) {
                Some(bytes) => Some(bytes.as_slice()),
                None => None,
            }
        } else {
            Some(self.contents.as_slice())
        }
    }

    /// The on-disk path the development strategy reads from.  `None` under the
    /// production strategy, which never touches the disk.
    pub fn real_path(&self) -> (r: Option<String>)
        ensures
            match r {
                Some(p) => self.is_development() && p@ == self.spec_real_path(),
                None => !self.is_development(),
            },
    {
        match &self.root_prefix {
            Some(prefix) => {
                let mut p = prefix.clone();
                p.append("/");
                p.append(self.path.as_str());
                proof {
                    reveal_strlit("/");
                    assert(p@ =~= self.spec_real_path());
                }
                Some(p)
            },
            None => None,
        }
    }

    /// Record the bytes a disk read produced for this file, check-then-insert:
    /// a path already cached (a competing access got there first) keeps its
    /// stored bytes, otherwise the fresh bytes go in.  Either way the file's
    /// contents resolve afterwards without further reads.
    pub fn complete_read(&self, cache: &mut RuntimeContentCache, bytes: Vec<u8>)
        ensures
            final(cache)@ == self.after_read(old(cache)@, bytes@),
            self.is_development() ==> self.resolved(final(cache)@) is Some,
    {
        if !cache.contains_path(self.path.as_str()) {
            cache.insert(self.path.clone(), bytes);
        }
    }

    /// The file's resolved contents interpreted as UTF-8 text.  Bytes that
    /// are not valid UTF-8 give `None` rather than a failure; so does a
    /// development-strategy file whose contents are not yet cached.
    pub fn contents_utf8<'a>(&'a self, cache: &'a RuntimeContentCache) -> (r: Option<&'a str>)
        ensures
            match self.resolved(cache@) {
                Some(bytes) => {
                    &&& (r is Some <==> valid_utf8(bytes))
                    &&& (r matches Some(s) ==> s@ == decode_utf8(bytes))
                },
                None => r is None,
            },
    {
        match self.contents(cache) {
            Some(bytes) => {
                let r = utf8_str(bytes);
                proof {
                    if r is Some {
                        let s = r->0;
                        vstd::utf8::encode_utf8_decode_utf8(s@);
                    }
                }
                r
            },
            None => None,
        }
    }

    /// Attach metadata, consuming the file: the result carries the supplied
    /// metadata and is otherwise identical.  A one-time, builder-style step;
    /// the original value is moved into the result, never mutated in place.
    pub fn with_metadata(self, metadata: Metadata) -> (f: File)
        ensures
            f.spec_path() == self.spec_path(),
            f.spec_contents() == self.spec_contents(),
            f.spec_metadata() == Some(metadata),
            f.is_development() == self.is_development(),
            self.is_development() ==> f.spec_prefix() == self.spec_prefix(),
    {
        let File { path, contents, metadata: _, root_prefix } = self;
        File { path, contents, metadata: Some(metadata), root_prefix }
    }

    /// The attached metadata, if any.
    pub fn metadata(&self) -> (r: Option<&Metadata>)
        ensures
            match r {
                Some(m) => self.spec_metadata() == Some(*m),
                None => self.spec_metadata() is None,
            },
    {
        self.metadata.as_ref()
    }

    /// The debug view: the path, a length indicator in place of the raw
    /// contents, the metadata, and, under the development strategy, the root
    /// prefix.  A function of the content length alone, never of the bytes.
    pub open spec fn spec_debug(&self) -> Seq<char> {
        "File { path: \""@ + self.spec_path() + "\", contents: \"<"@ + spec_dec(
            self.spec_contents().len(),
        ) + " bytes>\""@ + spec_render_metadata(self.spec_metadata()) + spec_render_prefix(
            if self.is_development() {
                Some(self.spec_prefix())
            } else {
                None
            },
        ) + " }"@
    }

    /// Render the debug view.  The raw contents never appear, only their
    /// length.
    pub fn debug_string(&self) -> (r: String)
        ensures
            r@ == self.spec_debug(),
    {
        let mut s = "File { path: \"".to_owned();
        s.append(self.path.as_str());
        s.append("\", contents: \"<");
        let len_str = dec_string(self.contents.len() as u64);
        s.append(len_str.as_str());
        s.append(" bytes>\"");
        match &self.metadata {
            Some(m) => {
                s.append(", metadata: Some(Metadata { accessed: ");
                let accessed = dec_string(m.accessed());
                s.append(accessed.as_str());
                s.append(", created: ");
                let created = dec_string(m.created());
                s.append(created.as_str());
                s.append(", modified: ");
                let modified = dec_string(m.modified());
                s.append(modified.as_str());
                s.append(" })");
            },
            None => {
                s.append(", metadata: None");
            },
        }
        match &self.root_prefix {
            Some(prefix) => {
                s.append(", prefix: \"");
                s.append(prefix.as_str());
                s.append("\"");
            },
            None => {},
        }
        s.append(" }");
        proof {
            assert(s@ =~= self.spec_debug());
        }
        s
    }
}

/// The rendering of optional metadata inside the debug view.
pub open spec fn spec_render_metadata(meta: Option<Metadata>) -> Seq<char> {
    match meta {
        Some(m) => ", metadata: Some(Metadata { accessed: "@ + spec_dec(m.spec_accessed() as nat)
            + ", created: "@ + spec_dec(m.spec_created() as nat) + ", modified: "@ + spec_dec(
            m.spec_modified() as nat,
        ) + " })"@,
        None => ", metadata: None"@,
    }
}

/// The rendering of the development root prefix inside the debug view.
pub open spec fn spec_render_prefix(prefix: Option<Seq<char>>) -> Seq<char> {
    match prefix {
        Some(p) => ", prefix: \""@ + p + "\""@,
        None => Seq::empty(),
    }
}

/// Relies on core::str::from_utf8: it succeeds exactly on input that is valid
/// UTF-8, and the returned text is the one the input encodes.
#[verifier::external_body]
fn utf8_str(bytes: &[u8]) -> (r: Option<&str>)
    ensures
        r is Some <==> valid_utf8(bytes@),
        r matches Some(s) ==> s.spec_bytes() == bytes@,
{
    core::str::from_utf8(bytes).ok()
}

impl PartialEq for File {
    /// Equality: same path, same stored bytes, same metadata, and the same
    /// strategy, the development root prefix included.
    fn eq(&self, other: &File) -> (r: bool) {
        let strategies_eq = match (&self.root_prefix, &other.root_prefix) {
            (Some(a), Some(b)) => *a == *b,
            (None, None) => true,
            _ => false,
        };
        let metadata_eq = match (&self.metadata, &other.metadata) {
            (Some(a), Some(b)) => *a == *b,
            (None, None) => true,
            _ => false,
        };
        strategies_eq && metadata_eq && self.path == other.path && bytes_eq(
            self.contents.as_slice(),
            other.contents.as_slice(),
        )
    }
}

impl vstd::std_specs::cmp::PartialEqSpecImpl for File {
    open spec fn obeys_eq_spec() -> bool {
        true
    }

    open spec fn eq_spec(&self, other: &File) -> bool {
        &&& self.spec_path() == other.spec_path()
        &&& self.spec_contents() == other.spec_contents()
        &&& self.spec_metadata() == other.spec_metadata()
        &&& self.is_development() == other.is_development()
        &&& (self.is_development() ==> self.spec_prefix() == other.spec_prefix())
    }
}

/// LAW: once a file's contents resolve, they keep resolving to the same
/// bytes.  The cache only grows — a first read of any path extends it, and
/// nothing else touches it — and growing the cache never changes an
/// already-resolvable file's result.
pub proof fn lemma_resolution_stable(
    f: &File,
    c1: Map<Seq<char>, Seq<u8>>,
    c2: Map<Seq<char>, Seq<u8>>,
)
    requires
        c1.submap_of(c2),
        f.resolved(c1) is Some,
    ensures
        f.resolved(c2) == f.resolved(c1),
{
    if f.is_development() {
        assert(c2.contains_key(f.spec_path()) && c1[f.spec_path()] == c2[f.spec_path()]);
    }
}

/// LAW: recording a read only grows the cache, and afterwards the file's
/// contents resolve without further reads.
pub proof fn lemma_after_read_extends(f: &File, c: Map<Seq<char>, Seq<u8>>, bytes: Seq<u8>)
    ensures
        c.submap_of(f.after_read(c, bytes)),
        f.is_development() ==> f.resolved(f.after_read(c, bytes)) is Some,
{
}

/// LAW: the first read wins.  A development-strategy file whose path is not
/// yet cached resolves, once a read that produced `b1` is recorded, to `b1`;
/// recording a second read afterwards — even one that saw different bytes
/// `b2`, say because the on-disk file changed meanwhile — neither changes the
/// cache nor the resolved contents.
pub proof fn lemma_first_read_wins(
    f: &File,
    c: Map<Seq<char>, Seq<u8>>,
    b1: Seq<u8>,
    b2: Seq<u8>,
)
    requires
        f.is_development(),
        !c.contains_key(f.spec_path()),
    ensures
        f.resolved(f.after_read(c, b1)) == Some(b1),
        f.after_read(f.after_read(c, b1), b2) == f.after_read(c, b1),
        f.resolved(f.after_read(f.after_read(c, b1), b2)) == Some(b1),
{
}

/// LAW: the debug view never includes the raw contents.  Files that agree on
/// path, content length, metadata and strategy render identically, whatever
/// bytes they hold — zero-length and huge contents alike.
pub proof fn lemma_debug_hides_contents(a: &File, b: &File)
    requires
        a.spec_path() == b.spec_path(),
        a.spec_contents().len() == b.spec_contents().len(),
        a.spec_metadata() == b.spec_metadata(),
        a.is_development() == b.is_development(),
        a.is_development() ==> a.spec_prefix() == b.spec_prefix(),
    ensures
        a.spec_debug() == b.spec_debug(),
{
}

} // verus!
