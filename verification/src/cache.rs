use vstd::prelude::*;

verus! {

/// A process-wide, append-only memoization table from a file's relative path
/// to the bytes last stored for it.  The development content-resolution
/// strategy consults it so that each file is read from disk at most once per
/// process; entries are never removed.  Mutual exclusion is the caller's
/// business: the table itself is an ordinary value, meant to sit behind a
/// process-wide lock.
pub struct RuntimeContentCache {
    entries: Vec<(String, Vec<u8>)>,
}

/// The map described by a sequence of path/bytes entries, later entries
/// overriding earlier ones.
spec fn entries_map(s: Seq<(String, Vec<u8>)>) -> Map<Seq<char>, Seq<u8>>
    decreases s.len(),
{
    if s.len() == 0 {
        Map::empty()
    } else {
        entries_map(s.drop_last()).insert(s.last().0@, s.last().1@)
    }
}

/// A key is in the map of an entry sequence exactly when some entry carries it.
proof fn lemma_entries_map_key(s: Seq<(String, Vec<u8>)>, k: Seq<char>)
    ensures
        entries_map(s).contains_key(k) <==> exists|i: int| 0 <= i < s.len() && s[i].0@ == k,
    decreases s.len(),
{
    if s.len() > 0 {
        lemma_entries_map_key(s.drop_last(), k);
        if entries_map(s).contains_key(k) {
            if s.last().0@ == k {
                assert(s[s.len() - 1].0@ == k);
            } else {
                let i = choose|i: int| 0 <= i < s.drop_last().len() && s.drop_last()[i].0@ == k;
                assert(s[i].0@ == k);
            }
        }
        if exists|i: int| 0 <= i < s.len() && s[i].0@ == k {
            let i = choose|i: int| 0 <= i < s.len() && s[i].0@ == k;
            if i < s.len() - 1 {
                assert(s.drop_last()[i].0@ == k);
            }
        }
    }
}

/// An entry whose key recurs in no later entry gives the map's value for it.
proof fn lemma_entries_map_value(s: Seq<(String, Vec<u8>)>, i: int)
    requires
        0 <= i < s.len(),
        forall|j: int| i < j < s.len() ==> s[j].0@ != s[i].0@,
    ensures
        entries_map(s).contains_key(s[i].0@),
        entries_map(s)[s[i].0@] == s[i].1@,
    decreases s.len(),
{
    if i == s.len() - 1 {
    } else {
        assert(s.drop_last()[i] == s[i]);
        lemma_entries_map_value(s.drop_last(), i);
        assert(s.last().0@ != s[i].0@);
    }
}

impl View for RuntimeContentCache {
    type V = Map<Seq<char>, Seq<u8>>;

    /// The table as a map from path to stored bytes.
    closed spec fn view(&self) -> Map<Seq<char>, Seq<u8>> {
        entries_map(self.entries@)
    }
}

impl RuntimeContentCache {
    /// Every stored path occurs in exactly one entry.
    #[verifier::type_invariant]
    spec fn wf(&self) -> bool {
        forall|i: int, j: int|
            0 <= i < j < self.entries@.len() ==> self.entries@[i].0@ != self.entries@[j].0@
    }

    /// An empty table.
    pub fn new() -> (c: RuntimeContentCache)
        ensures
            c@ == Map::<Seq<char>, Seq<u8>>::empty(),
    {
        RuntimeContentCache { entries: Vec::new() }
    }

    /// The index of the entry for the given path, if one is stored.
    fn find(&self, path: &str) -> (r: Option<usize>)
        ensures
            match r {
                Some(i) => {
                    &&& i < self.entries@.len()
                    &&& self.entries@[i as int].0@ == path@
                    &&& self@.contains_key(path@)
                    &&& self@[path@] == self.entries@[i as int].1@
                },
                None => !self@.contains_key(path@),
            },
    {
        proof {
            use_type_invariant(self);
        }
        let n = self.entries.len();
        let mut i: usize = 0;
        while i < n
            invariant
                n == self.entries@.len(),
                i <= n,
                self.wf(),
                forall|j: int| 0 <= j < i ==> self.entries@[j].0@ != path@,
            decreases n - i,
        {
            if str_eq(self.entries[i].0.as_str(), path) {
                proof {
                    lemma_entries_map_value(self.entries@, i as int);
                }
                return Some(i);
            }
            i += 1;
        }
        proof {
            lemma_entries_map_key(self.entries@, path@);
        }
        None
    }

    /// Whether bytes are stored for the given path.  No I/O.
    pub fn contains_path(&self, path: &str) -> (b: bool)
        ensures
            b == self@.contains_key(path@),
    {
        self.find(path).is_some()
    }

    /// The bytes stored for the given path, if any.  No I/O.
    pub fn lookup<'a>(&'a self, path: &str) -> (r: Option<&'a Vec<u8>>)
        ensures
            match r {
                Some(bytes) => self@.contains_key(path@) && self@[path@] == bytes@,
                None => !self@.contains_key(path@),
            },
    {
        match self.find(path) {
            Some(i) => Some(&self.entries[i].1),
            None => None,
        }
    }

    /// Store bytes under the given path.  A path already present has its bytes
    /// replaced; the table stays well formed either way.  Callers that want
    /// first-read-wins memoization check before inserting, under the same
    /// exclusive access.
    pub fn insert(&mut self, path: String, bytes: Vec<u8>)
        ensures
            final(self)@ == old(self)@.insert(path@, bytes@),
    {
        proof {
            use_type_invariant(&*self);
        }
        let ghost pre = self.entries@;
        let ghost path_view = path@;
        let found = self.find(path.as_str());
        let mut entries: Vec<(String, Vec<u8>)> = Vec::new();
        core::mem::swap(&mut entries, &mut self.entries);
        match found {
            Some(i) => {
                entries[i] = (path, bytes);
                proof {
                    let post = entries@;
                    assert(pre[i as int].0@ == path_view);
                    assert forall|a: int, b: int| 0 <= a < b < post.len() implies post[a].0@
                        != post[b].0@ by {
                        assert(pre[a].0@ != pre[b].0@);
                    }
                    lemma_entries_map_value(post, i as int);
                    assert forall|k: Seq<char>|
                        entries_map(post).contains_key(k) == entries_map(pre).insert(
                            path_view,
                            bytes@,
                        ).contains_key(k) by {
                        lemma_entries_map_key(post, k);
                        lemma_entries_map_key(pre, k);
                        if entries_map(post).contains_key(k) {
                            let a = choose|a: int| 0 <= a < post.len() && post[a].0@ == k;
                            if a != i {
                                assert(pre[a].0@ == k);
                            }
                        }
                        if entries_map(pre).insert(path_view, bytes@).contains_key(k) {
                            if k == path_view {
                                assert(post[i as int].0@ == k);
                            } else {
                                let a = choose|a: int| 0 <= a < pre.len() && pre[a].0@ == k;
                                assert(post[a].0@ == k);
                            }
                        }
                    }
                    assert forall|k: Seq<char>|
                        entries_map(post).contains_key(k) implies entries_map(post)[k]
                        == entries_map(pre).insert(path_view, bytes@)[k] by {
                        lemma_entries_map_key(post, k);
                        let a = choose|a: int| 0 <= a < post.len() && post[a].0@ == k;
                        lemma_entries_map_value(post, a);
                        if a != i {
                            assert(pre[a] == post[a]);
                            lemma_entries_map_value(pre, a);
                        }
                    }
                    assert(entries_map(post) =~= entries_map(pre).insert(path_view, bytes@));
                }
            },
            None => {
                proof {
                    lemma_entries_map_key(pre, path_view);
                }
                entries.push((path, bytes));
                proof {
                    let post = entries@;
                    assert(post.drop_last() =~= pre);
                    assert forall|a: int, b: int| 0 <= a < b < post.len() implies post[a].0@
                        != post[b].0@ by {
                        if b == post.len() - 1 {
                            assert(!(exists|x: int| 0 <= x < pre.len() && pre[x].0@ == path_view));
                            assert(pre[a].0@ != path_view);
                        } else {
                            assert(pre[a].0@ != pre[b].0@);
                        }
                    }
                }
            },
        }
        core::mem::swap(&mut entries, &mut self.entries);
    }
}

/// Whether two byte slices hold the same bytes.
pub fn bytes_eq(a: &[u8], b: &[u8]) -> (r: bool)
    ensures
        r <==> a@ == b@,
{
    if a.len() != b.len() {
        return false;
    }
    let n = a.len();
    let mut i: usize = 0;
    while i < n
        invariant
            n == a@.len(),
            n == b@.len(),
            i <= n,
            forall|j: int| 0 <= j < i ==> a@[j] == b@[j],
        decreases n - i,
    {
        if a[i] != b[i] {
            return false;
        }
        i += 1;
    }
    proof {
        assert(a@ =~= b@);
    }
    true
}

/// Whether two string slices hold the same text.  Compares the UTF-8 bytes;
/// equal encodings decode to equal character sequences.
pub fn str_eq(a: &str, b: &str) -> (r: bool)
    ensures
        r <==> a@ == b@,
{
    let r = bytes_eq(a.as_bytes(), b.as_bytes());
    proof {
        broadcast use vstd::utf8::encode_utf8_decode_utf8;

        if r {
            assert(vstd::utf8::decode_utf8(vstd::utf8::encode_utf8(a@)) == a@);
            assert(vstd::utf8::decode_utf8(vstd::utf8::encode_utf8(b@)) == b@);
        }
    }
    r
}

} // verus!
