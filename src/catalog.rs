//! The sound catalog: which file each code plays, and where files live.

use vstd::prelude::*;
use crate::buffer::all_digits;

verus! {

/// What `str::trim` makes of a string.
pub uninterp spec fn trimmed(s: Seq<char>) -> Seq<char>;

/// What `Path::join` makes of a directory and a file name, as text.
pub uninterp spec fn joined_path(dir: Seq<char>, file: Seq<char>) -> Seq<char>;

/// Relies on `str::trim`: leading and trailing whitespace goes, so a string
/// of digits, which has none, is returned as it is.
#[verifier::external_body]
fn trim(s: &str) -> (r: &str)
    ensures
        r@ == trimmed(s@),
        all_digits(s@) ==> r@ == s@,
{
    s.trim()
}

/// Relies on `Path::join`: the file name resolved against the directory.
#[verifier::external_body]
fn join_path(dir: &str, file: &str) -> (r: String)
    ensures
        r@ == joined_path(dir@, file@),
{
    std::path::Path::new(dir).join(file).to_string_lossy().into_owned()
}

/// Whether some entry has the code `k`.
pub open spec fn has_code(entries: Seq<(String, String)>, k: Seq<char>) -> bool {
    exists|i: int| 0 <= i < entries.len() && (#[trigger] entries[i]).0@ == k
}

/// The map from code to file name that a list of entries with distinct codes
/// stands for.
pub open spec fn entries_map(entries: Seq<(String, String)>) -> Map<Seq<char>, Seq<char>> {
    Map::new(
        |k: Seq<char>| has_code(entries, k),
        |k: Seq<char>|
            entries[choose|i: int| 0 <= i < entries.len() && (#[trigger] entries[i]).0@ == k].1@,
    )
}

/// Whether no two entries have the same code.
pub open spec fn codes_distinct(entries: Seq<(String, String)>) -> bool {
    forall|i: int, j: int|
        0 <= i < entries.len() && 0 <= j < entries.len() && i != j ==> (#[trigger] entries[i]).0@
            != (#[trigger] entries[j]).0@
}

proof fn lemma_entry_in_map(entries: Seq<(String, String)>, i: int)
    requires
        codes_distinct(entries),
        0 <= i < entries.len(),
    ensures
        entries_map(entries).contains_key(entries[i].0@),
        entries_map(entries)[entries[i].0@] == entries[i].1@,
{
    let k = entries[i].0@;
    assert(has_code(entries, k));
    let j = choose|j: int| 0 <= j < entries.len() && (#[trigger] entries[j]).0@ == k;
    assert(j == i);
}

/// The map that a list of (code, file name) pairs gives when each pair is
/// entered in turn, a later pair replacing an earlier one with the same code.
pub open spec fn pairs_map(pairs: Seq<(String, String)>) -> Map<Seq<char>, Seq<char>>
    decreases pairs.len(),
{
    if pairs.len() == 0 {
        Map::empty()
    } else {
        pairs_map(pairs.drop_last()).insert(pairs.last().0@, pairs.last().1@)
    }
}

/// A mapping from code to sound file name, with the directory that the file
/// names are resolved against.
///
/// Codes are compared exactly (case and all). A file named here need not
/// exist: that is found out only when its code is entered.
pub struct SoundCatalog {
    sounds_path: String,
    entries: Vec<(String, String)>,
}

impl SoundCatalog {
    /// The map from code to file name.
    pub closed spec fn spec_map(&self) -> Map<Seq<char>, Seq<char>> {
        entries_map(self.entries@)
    }

    /// The directory that file names are resolved against.
    pub closed spec fn spec_sounds_path(&self) -> Seq<char> {
        self.sounds_path@
    }

    /// No code appears twice.
    pub closed spec fn wf(&self) -> bool {
        codes_distinct(self.entries@)
    }

    /// The path that a code resolves to: the file it names, joined to the
    /// directory; nothing where the catalog does not know the code.
    pub open spec fn spec_resolve(&self, code: Seq<char>) -> Option<Seq<char>> {
        if self.spec_map().contains_key(code) {
            Some(joined_path(self.spec_sounds_path(), self.spec_map()[code]))
        } else {
            None
        }
    }

    /// A catalog with no codes, resolving against `sounds_path`.
    pub fn new(sounds_path: String) -> (r: SoundCatalog)
        ensures
            r.wf(),
            r.spec_map() == Map::<Seq<char>, Seq<char>>::empty(),
            r.spec_sounds_path() == sounds_path@,
    {
        let r = SoundCatalog { sounds_path, entries: Vec::new() };
        assert(r.spec_map() =~= Map::<Seq<char>, Seq<char>>::empty());
        r
    }

    /// A catalog resolving against `sounds_path` that maps each code of
    /// `pairs` to its file name, entered in order.
    pub fn from_entries(sounds_path: String, pairs: &Vec<(String, String)>) -> (r: SoundCatalog)
        ensures
            r.wf(),
            r.spec_map() == pairs_map(pairs@),
            r.spec_sounds_path() == sounds_path@,
    {
        let mut r = SoundCatalog::new(sounds_path);
        let mut i: usize = 0;
        while i < pairs.len()
            invariant
                0 <= i <= pairs@.len(),
                r.wf(),
                r.spec_map() == pairs_map(pairs@.subrange(0, i as int)),
                r.spec_sounds_path() == sounds_path@,
            decreases pairs@.len() - i,
        {
            let code = pairs[i].0.clone();
            let file = pairs[i].1.clone();
            r.insert(code, file);
            proof {
                let next = pairs@.subrange(0, i + 1);
                assert(next.drop_last() =~= pairs@.subrange(0, i as int));
                assert(next.last() == pairs@[i as int]);
            }
            i += 1;
        }
        assert(pairs@.subrange(0, pairs@.len() as int) =~= pairs@);
        r
    }

    pub fn sounds_path(&self) -> (r: &String)
        ensures
            r@ == self.spec_sounds_path(),
    {
        &self.sounds_path
    }

    pub fn len(&self) -> (r: usize)
        requires
            self.wf(),
        ensures
            r == self.spec_map().len(),
    {
        proof {
            self.lemma_len();
        }
        self.entries.len()
    }

    proof fn lemma_len(&self)
        requires
            self.wf(),
        ensures
            self.spec_map().len() == self.entries@.len(),
            self.spec_map().dom().finite(),
    {
        let es = self.entries@;
        let keys = es.map_values(|e: (String, String)| e.0@);
        assert(self.spec_map().dom() =~= keys.to_set()) by {
            assert forall|k: Seq<char>| self.spec_map().dom().contains(k) implies keys.to_set().contains(k) by {
                let i = choose|i: int| 0 <= i < es.len() && (#[trigger] es[i]).0@ == k;
                assert(keys[i] == k);
            }
            assert forall|k: Seq<char>| keys.to_set().contains(k) implies self.spec_map().dom().contains(k) by {
                let i = choose|i: int| 0 <= i < keys.len() && keys[i] == k;
                assert(es[i].0@ == k);
            }
        }
        assert(keys.no_duplicates()) by {
            assert forall|i: int, j: int| 0 <= i < keys.len() && 0 <= j < keys.len() && i != j implies keys[i] != keys[j] by {
                assert(es[i].0@ == keys[i]);
                assert(es[j].0@ == keys[j]);
            }
        }
        keys.unique_seq_to_set();
    }

    /// Maps `code` to `file`, in place of what the code mapped to before.
    pub fn insert(&mut self, code: String, file: String)
        requires
            old(self).wf(),
        ensures
            final(self).wf(),
            final(self).spec_map() == old(self).spec_map().insert(code@, file@),
            final(self).spec_sounds_path() == old(self).spec_sounds_path(),
    {
        let ghost old_entries = self.entries@;
        let ghost k = code@;
        let ghost v = file@;
        let mut i: usize = 0;
        while i < self.entries.len()
            invariant
                0 <= i <= self.entries@.len(),
                self.entries@ == old_entries,
                old(self).entries@ == old_entries,
                self.sounds_path == old(self).sounds_path,
                codes_distinct(old_entries),
                k == code@,
                v == file@,
                forall|j: int| 0 <= j < i ==> (#[trigger] old_entries[j]).0@ != code@,
            decreases self.entries@.len() - i,
        {
            if self.entries[i].0 == code {
                proof {
                    lemma_entry_in_map(old_entries, i as int);
                }
                self.entries.set(i, (code, file));
                proof {
                    let es = self.entries@;
                    assert(es == old_entries.update(i as int, es[i as int]));
                    assert(codes_distinct(es)) by {
                        assert forall|a: int, b: int|
                            0 <= a < es.len() && 0 <= b < es.len() && a != b implies (
                            #[trigger] es[a]).0@ != (#[trigger] es[b]).0@ by {
                            if a != i && b != i {
                                assert(es[a] == old_entries[a] && es[b] == old_entries[b]);
                            } else if a == i {
                                assert(es[b] == old_entries[b]);
                                assert(old_entries[b].0@ != old_entries[a].0@);
                            } else {
                                assert(es[a] == old_entries[a]);
                                assert(old_entries[a].0@ != old_entries[b].0@);
                            }
                        }
                    }
                    self.lemma_map_update(old_entries, i as int);
                    assert(es[i as int].0@ == k && es[i as int].1@ == v);
                }
                return;
            }
            i += 1;
        }
        self.entries.push((code, file));
        proof {
            let es = self.entries@;
            assert(es == old_entries.push(es[es.len() - 1]));
            assert(codes_distinct(es)) by {
                assert forall|a: int, b: int|
                    0 <= a < es.len() && 0 <= b < es.len() && a != b implies (
                    #[trigger] es[a]).0@ != (#[trigger] es[b]).0@ by {
                    if a < old_entries.len() && b < old_entries.len() {
                        assert(es[a] == old_entries[a] && es[b] == old_entries[b]);
                    } else if a < old_entries.len() {
                        assert(es[a] == old_entries[a]);
                    } else {
                        assert(es[b] == old_entries[b]);
                    }
                }
            }
            self.lemma_map_update(old_entries, es.len() - 1);
        }
    }

    /// The map after entry `i` was written over, or appended, with a code
    /// that no other entry has.
    proof fn lemma_map_update(&self, old_entries: Seq<(String, String)>, i: int)
        requires
            self.wf(),
            codes_distinct(old_entries),
            0 <= i < self.entries@.len(),
            self.entries@.len() == old_entries.len() || self.entries@.len() == old_entries.len() + 1,
            self.entries@.len() == old_entries.len() + 1 ==> i == old_entries.len(),
            forall|j: int| 0 <= j < old_entries.len() && j != i ==> self.entries@[j] == old_entries[j],
            i < old_entries.len() ==> old_entries[i].0@ == self.entries@[i].0@,
        ensures
            self.spec_map() == entries_map(old_entries).insert(
                self.entries@[i].0@,
                self.entries@[i].1@,
            ),
    {
        let es = self.entries@;
        let k = es[i].0@;
        let m0 = entries_map(old_entries);
        let m1 = self.spec_map();
        assert forall|key: Seq<char>| #[trigger] m1.contains_key(key) <==> m0.insert(k, es[i].1@).contains_key(key) by {
            if m1.contains_key(key) {
                let j = choose|j: int| 0 <= j < es.len() && (#[trigger] es[j]).0@ == key;
                if j != i {
                    assert(old_entries[j] == es[j]);
                    assert(has_code(old_entries, key));
                }
            }
            if m0.contains_key(key) && key != k {
                let j = choose|j: int| 0 <= j < old_entries.len() && (#[trigger] old_entries[j]).0@ == key;
                if j == i {
                    assert(false);
                }
                assert(es[j] == old_entries[j]);
                assert(has_code(es, key));
            }
            if key == k {
                lemma_entry_in_map(es, i);
            }
        }
        assert forall|key: Seq<char>| #[trigger] m1.contains_key(key) implies m1[key] == m0.insert(k, es[i].1@)[key] by {
            let j = choose|j: int| 0 <= j < es.len() && (#[trigger] es[j]).0@ == key;
            lemma_entry_in_map(es, j);
            if j != i {
                assert(old_entries[j] == es[j]);
                lemma_entry_in_map(old_entries, j);
            }
        }
        assert(m1 =~= m0.insert(k, es[i].1@));
    }

    /// The file name that the code maps to, compared exactly.
    pub fn lookup(&self, code: &String) -> (r: Option<&String>)
        requires
            self.wf(),
        ensures
            r is None <==> !self.spec_map().contains_key(code@),
            r matches Some(f) ==> self.spec_map()[code@] == f@,
    {
        let mut i: usize = 0;
        while i < self.entries.len()
            invariant
                0 <= i <= self.entries@.len(),
                self.wf(),
                forall|j: int| 0 <= j < i ==> (#[trigger] self.entries@[j]).0@ != code@,
            decreases self.entries@.len() - i,
        {
            if self.entries[i].0 == *code {
                proof {
                    lemma_entry_in_map(self.entries@, i as int);
                }
                return Some(&self.entries[i].1);
            }
            i += 1;
        }
        None
    }

    /// The path of the sound file that an entered code selects: the code is
    /// trimmed, looked up exactly, and the file name it maps to is joined to
    /// the sounds directory. Nothing where the code is unknown, the empty
    /// code included.
    pub fn resolve(&self, input: &str) -> (r: Option<String>)
        requires
            self.wf(),
        ensures
            r matches Some(p) ==> Some(p@) == self.spec_resolve(trimmed(input@)),
            r is None ==> self.spec_resolve(trimmed(input@)) is None,
            all_digits(input@) ==> trimmed(input@) == input@,
    {
        let code = trim(input).to_owned();
        match self.lookup(&code) {
            Some(file) => Some(join_path(self.sounds_path.as_str(), file.as_str())),
            None => None,
        }
    }
}

} // verus!
