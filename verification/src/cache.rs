//! The file activity cache: the last known cursor line and column for each
//! file path.
//!
//! The cache is a best-effort record, not a source of truth: an absent entry
//! is a valid state meaning "no position is known for this file". Entries are
//! inserted or overwritten on every edit notification and read, never
//! removed, on save. At most one entry exists per path; its abstract value is
//! a map from path to position.

use vstd::prelude::*;

verus! {

/// Last known cursor position for one file.
#[derive(Clone, Copy, Debug, PartialEq, Eq, Structural)]
pub struct FileCacheEntry {
    pub lineno: u64,
    pub cursor_pos: u64,
}

/// The map that a sequence of path/entry pairs denotes; a later pair for the
/// same path overrides an earlier one.
spec fn entries_map(s: Seq<(String, FileCacheEntry)>) -> Map<Seq<char>, FileCacheEntry>
    decreases s.len(),
{
    if s.len() == 0 {
        Map::empty()
    } else {
        entries_map(s.drop_last()).insert(s.last().0@, s.last().1)
    }
}

/// Shared mapping from file path to its last known cursor position.
pub struct FileCache {
    entries: Vec<(String, FileCacheEntry)>,
}

impl View for FileCache {
    type V = Map<Seq<char>, FileCacheEntry>;

    closed spec fn view(&self) -> Map<Seq<char>, FileCacheEntry> {
        entries_map(self.entries@)
    }
}

/// No two pairs of `s` hold the same path.
spec fn distinct_keys(s: Seq<(String, FileCacheEntry)>) -> bool {
    forall|i: int, j: int| 0 <= i < j < s.len() ==> s[i].0@ != s[j].0@
}

/// A pair whose path no other pair shares denotes its entry in the map.
proof fn lemma_entries_map_found(s: Seq<(String, FileCacheEntry)>, i: int)
    requires
        0 <= i < s.len(),
        distinct_keys(s),
    ensures
        entries_map(s).contains_key(s[i].0@),
        entries_map(s)[s[i].0@] == s[i].1,
    decreases s.len(),
{
    if i < s.len() - 1 {
        assert(distinct_keys(s.drop_last())) by {
            assert(forall|a: int, b: int|
                0 <= a < b < s.len() - 1 ==> s.drop_last()[a].0@ != s.drop_last()[b].0@);
        }
        lemma_entries_map_found(s.drop_last(), i);
        assert(s.drop_last()[i] == s[i]);
        assert(s[i].0@ != s.last().0@);
    }
}

/// A path that no pair of `s` holds is absent from the map.
proof fn lemma_entries_map_absent(s: Seq<(String, FileCacheEntry)>, k: Seq<char>)
    requires
        forall|i: int| 0 <= i < s.len() ==> s[i].0@ != k,
    ensures
        !entries_map(s).contains_key(k),
    decreases s.len(),
{
    if s.len() > 0 {
        assert(forall|i: int| 0 <= i < s.len() - 1 ==> s.drop_last()[i].0@ != k);
        lemma_entries_map_absent(s.drop_last(), k);
        assert(s.last().0@ != k);
    }
}

/// Overwriting the pair that holds path `p` denotes insertion into the map.
proof fn lemma_entries_map_update(
    s: Seq<(String, FileCacheEntry)>,
    i: int,
    p: String,
    e: FileCacheEntry,
)
    requires
        0 <= i < s.len(),
        distinct_keys(s),
        p@ == s[i].0@,
    ensures
        entries_map(s.update(i, (p, e))) == entries_map(s).insert(p@, e),
    decreases s.len(),
{
    let t = s.update(i, (p, e));
    if i == s.len() - 1 {
        assert(t.drop_last() =~= s.drop_last());
        assert(t.last() == (p, e));
        assert(entries_map(t) =~= entries_map(s).insert(p@, e));
    } else {
        assert(distinct_keys(s.drop_last())) by {
            assert(forall|a: int, b: int|
                0 <= a < b < s.len() - 1 ==> s.drop_last()[a].0@ != s.drop_last()[b].0@);
        }
        assert(s.drop_last()[i] == s[i]);
        lemma_entries_map_update(s.drop_last(), i, p, e);
        assert(t.drop_last() =~= s.drop_last().update(i, (p, e)));
        assert(t.last() == s.last());
        // The two insertions commute because the overwritten path differs
        // from the path of the last pair.
        assert(s[i].0@ != s.last().0@);
        assert(entries_map(t) =~= entries_map(s).insert(p@, e));
    }
}

impl FileCache {
    /// At most one entry exists per file path.
    pub closed spec fn inv(&self) -> bool {
        distinct_keys(self.entries@)
    }

    /// An empty cache.
    pub fn new() -> (c: FileCache)
        ensures
            c.inv(),
            c@ == Map::<Seq<char>, FileCacheEntry>::empty(),
    {
        FileCache { entries: Vec::new() }
    }

    /// Inserts or overwrites the entry for `path`. The change is the map
    /// insertion of exactly that entry: entries for every other path are
    /// untouched.
    pub fn record(&mut self, path: &String, lineno: u64, cursor_pos: u64)
        requires
            old(self).inv(),
        ensures
            final(self).inv(),
            final(self)@ == old(self)@.insert(path@, (FileCacheEntry { lineno, cursor_pos })),
    {
        let entry = FileCacheEntry { lineno, cursor_pos };
        let n = self.entries.len();
        let mut i: usize = 0;
        while i < n
            invariant
                n == self.entries@.len(),
                i <= n,
                entry == (FileCacheEntry { lineno, cursor_pos }),
                self.entries@ == old(self).entries@,
                distinct_keys(self.entries@),
                forall|j: int| 0 <= j < i ==> self.entries@[j].0@ != path@,
            decreases n - i,
        {
            if self.entries[i].0 == *path {
                self.entries[i] = (path.clone(), entry);
                proof {
                    let p = self.entries@[i as int].0;
                    assert(self.entries@ =~= old(self).entries@.update(i as int, (p, entry)));
                    lemma_entries_map_update(old(self).entries@, i as int, p, entry);
                    assert(distinct_keys(self.entries@)) by {
                        assert(forall|a: int, b: int|
                            0 <= a < b < self.entries@.len()
                                ==> self.entries@[a].0@ != self.entries@[b].0@);
                    }
                }
                return ;
            }
            i += 1;
        }
        self.entries.push((path.clone(), entry));
        proof {
            assert(self.entries@.drop_last() =~= old(self).entries@);
            assert(distinct_keys(self.entries@)) by {
                assert(forall|a: int, b: int|
                    0 <= a < b < self.entries@.len()
                        ==> self.entries@[a].0@ != self.entries@[b].0@);
            }
        }
    }

    /// Returns the current entry for `path`, or nothing when none was ever
    /// recorded. The cache is unchanged.
    pub fn lookup(&self, path: &String) -> (r: Option<FileCacheEntry>)
        requires
            self.inv(),
        ensures
            r == (if self@.contains_key(path@) {
                Some(self@[path@])
            } else {
                None::<FileCacheEntry>
            }),
    {
        let n = self.entries.len();
        let mut i: usize = 0;
        while i < n
            invariant
                n == self.entries@.len(),
                i <= n,
                self.inv(),
                forall|j: int| 0 <= j < i ==> self.entries@[j].0@ != path@,
            decreases n - i,
        {
            if self.entries[i].0 == *path {
                proof {
                    lemma_entries_map_found(self.entries@, i as int);
                }
                return Some(self.entries[i].1);
            }
            i += 1;
        }
        proof {
            lemma_entries_map_absent(self.entries@, path@);
        }
        None
    }
}

/// Recording an entry and immediately looking the same path up yields
/// exactly the recorded position: over the cache's map, the inserted pair is
/// present with the inserted value.
pub proof fn lemma_record_then_lookup(
    m: Map<Seq<char>, FileCacheEntry>,
    path: Seq<char>,
    e: FileCacheEntry,
)
    ensures
        m.insert(path, e).contains_key(path),
        m.insert(path, e)[path] == e,
{
}

/// Entries for different paths are independent: recording positions for two
/// distinct paths, in either interleaving, leaves each path's entry exactly
/// as recorded for it, with no cross-contamination.
pub proof fn lemma_entries_independent(
    m: Map<Seq<char>, FileCacheEntry>,
    path_a: Seq<char>,
    ea: FileCacheEntry,
    path_b: Seq<char>,
    eb: FileCacheEntry,
)
    requires
        path_a != path_b,
    ensures
        m.insert(path_a, ea).insert(path_b, eb) == m.insert(path_b, eb).insert(path_a, ea),
        m.insert(path_a, ea).insert(path_b, eb)[path_a] == ea,
        m.insert(path_a, ea).insert(path_b, eb)[path_b] == eb,
{
    assert(m.insert(path_a, ea).insert(path_b, eb) =~= m.insert(path_b, eb).insert(path_a, ea));
}

} // verus!
