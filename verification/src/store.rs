use vstd::prelude::*;

verus! {

/// In-memory model of the directory that holds the snapshot files.
///
/// The store records every write in order; it is viewed as the map from each
/// location to the contents most recently written there, exactly as a
/// directory maps a file path to the bytes last written to that file.
pub struct SnapshotStore {
    entries: Vec<(String, String)>,
}

impl View for SnapshotStore {
    type V = Map<Seq<char>, Seq<char>>;

    closed spec fn view(&self) -> Map<Seq<char>, Seq<char>> {
        SnapshotStore::map_of(self.entries@)
    }
}

impl SnapshotStore {
    /// The map a write sequence denotes: a later write to a location shadows
    /// every earlier write to it.
    spec fn map_of(s: Seq<(String, String)>) -> Map<Seq<char>, Seq<char>>
        decreases s.len(),
    {
        if s.len() == 0 {
            Map::empty()
        } else {
            Self::map_of(s.drop_last()).insert(s.last().0@, s.last().1@)
        }
    }

    /// A location never written to is absent from the denoted map.
    proof fn lemma_map_of_absent(s: Seq<(String, String)>, k: Seq<char>)
        requires
            forall|j: int| 0 <= j < s.len() ==> s[j].0@ != k,
        ensures
            !Self::map_of(s).contains_key(k),
        decreases s.len(),
    {
        if s.len() > 0 {
            assert(forall|j: int| 0 <= j < s.drop_last().len() ==> s.drop_last()[j] == s[j]);
            Self::lemma_map_of_absent(s.drop_last(), k);
        }
    }

    /// The write at position `i`, if no later write touches the same
    /// location, is what the denoted map holds for that location.
    proof fn lemma_map_of_found(s: Seq<(String, String)>, i: int, k: Seq<char>)
        requires
            0 <= i < s.len(),
            s[i].0@ == k,
            forall|j: int| i < j < s.len() ==> s[j].0@ != k,
        ensures
            Self::map_of(s).contains_key(k),
            Self::map_of(s)[k] == s[i].1@,
        decreases s.len(),
    {
        if i < s.len() - 1 {
            assert(forall|j: int| i < j < s.drop_last().len() ==> s.drop_last()[j] == s[j]);
            Self::lemma_map_of_found(s.drop_last(), i, k);
        }
    }

    /// Creates an empty store: no location holds a snapshot yet.
    pub fn new() -> (s: Self)
        ensures
            s@ == Map::<Seq<char>, Seq<char>>::empty(),
    {
        SnapshotStore { entries: Vec::new() }
    }

    /// Reads the snapshot stored at `path`, or `None` if that location was
    /// never written.
    pub fn read(&self, path: &str) -> (r: Option<String>)
        ensures
            match r {
                Some(contents) => self@.contains_key(path@) && contents@ == self@[path@],
                None => !self@.contains_key(path@),
            },
    {
        let key: String = path.to_owned();
        let mut i: usize = self.entries.len();
        while i > 0
            invariant
                i <= self.entries.len(),
                key@ == path@,
                forall|j: int| i <= j < self.entries@.len() ==> self.entries@[j].0@ != path@,
            decreases i,
        {
            i = i - 1;
            if self.entries[i].0 == key {
                proof {
                    Self::lemma_map_of_found(self.entries@, i as int, path@);
                }
                return Some(self.entries[i].1.clone());
            }
        }
        proof {
            Self::lemma_map_of_absent(self.entries@, path@);
        }
        None
    }

    /// Writes `contents` at `path`, creating the location or shadowing
    /// whatever was stored there before.
    pub fn write(&mut self, path: &str, contents: &str)
        ensures
            final(self)@ == old(self)@.insert(path@, contents@),
    {
        self.entries.push((path.to_owned(), contents.to_owned()));
        proof {
            assert(self.entries@.drop_last() =~= old(self).entries@);
        }
    }
}

} // verus!
