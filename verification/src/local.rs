//! The files that a scan of the output directory found.

use vstd::prelude::*;
use vstd::hash_map::StringHashMap;
use vstd::hash_set::StringHashSet;

verus! {

/// The names of a list of texts.
pub open spec fn texts(names: Seq<String>) -> Seq<Seq<char>> {
    names.map_values(|name: String| name@)
}

/// One entry of the output directory, as the scan met it.
#[derive(Clone, Debug, PartialEq, Eq)]
pub struct ScanEntry {
    pub name: String,
    /// Whether the entry is a regular file.
    pub regular: bool,
    /// The second at which the entry was last modified.
    pub mtime: i64,
}

/// A directory entry as contracts see it.
pub ghost struct ScanEntryView {
    pub name: Seq<char>,
    pub regular: bool,
    pub mtime: i64,
}

impl View for ScanEntry {
    type V = ScanEntryView;

    open spec fn view(&self) -> ScanEntryView {
        ScanEntryView { name: self.name@, regular: self.regular, mtime: self.mtime }
    }
}

impl DeepView for ScanEntry {
    type V = ScanEntryView;

    open spec fn deep_view(&self) -> ScanEntryView {
        self@
    }
}

/// The files among the entries of a directory: each regular file with its
/// modification second. Directories and other entries are left out. Should a
/// name occur twice, the later entry counts.
pub open spec fn files_of(entries: Seq<ScanEntryView>) -> Map<Seq<char>, i64>
    decreases entries.len(),
{
    if entries.len() == 0 {
        Map::empty()
    } else {
        let earlier = files_of(entries.drop_last());
        let entry = entries.last();
        if entry.regular {
            earlier.insert(entry.name, entry.mtime)
        } else {
            earlier
        }
    }
}

/// The names of the regular files among the entries of a directory, each
/// once, in the order in which the scan first met them.
pub open spec fn names_of(entries: Seq<ScanEntryView>) -> Seq<Seq<char>>
    decreases entries.len(),
{
    if entries.len() == 0 {
        Seq::empty()
    } else {
        let earlier = names_of(entries.drop_last());
        let entry = entries.last();
        if entry.regular && !files_of(entries.drop_last()).contains_key(entry.name) {
            earlier.push(entry.name)
        } else {
            earlier
        }
    }
}

/// The regular files of one output directory, each with the second it was last
/// modified. This record is all that is known of earlier runs.
pub struct LocalState {
    mtimes: StringHashMap<i64>,
    names: Vec<String>,
}

impl View for LocalState {
    type V = Map<Seq<char>, i64>;

    /// The modification second of each file, by name.
    closed spec fn view(&self) -> Map<Seq<char>, i64> {
        self.mtimes@
    }
}

impl LocalState {
    /// The names of the files, each once, in the order in which they were
    /// first recorded.
    pub closed spec fn names(&self) -> Seq<Seq<char>> {
        texts(self.names@)
    }

    /// Every value of this type is well formed: the names are those of the
    /// recorded files, each once.
    #[verifier::type_invariant]
    pub closed spec fn wf(&self) -> bool {
        &&& texts(self.names@).no_duplicates()
        &&& forall|name: Seq<char>|
            self.mtimes@.contains_key(name) <==> texts(self.names@).contains(name)
    }

    /// The names of a well-formed record are those of its files, each once.
    pub proof fn law_names_are_the_files(self)
        requires
            self.wf(),
        ensures
            self.names().no_duplicates(),
            forall|name: Seq<char>| self@.contains_key(name) <==> self.names().contains(name),
    {
    }

    /// A scan that found nothing.
    pub fn new() -> (state: LocalState)
        ensures
            state.wf(),
            state@ == Map::<Seq<char>, i64>::empty(),
            state.names() == Seq::<Seq<char>>::empty(),
    {
        let state = LocalState { mtimes: StringHashMap::new(), names: Vec::new() };
        assert(texts(state.names@) =~= Seq::<Seq<char>>::empty());
        state
    }

    /// Records a file and the second it was last modified. A name that was
    /// recorded before keeps its place and takes the new second.
    pub fn record(self, name: String, mtime: i64) -> (state: LocalState)
        ensures
            state.wf(),
            state@ == self@.insert(name@, mtime),
            state.names() == if self@.contains_key(name@) {
                self.names()
            } else {
                self.names().push(name@)
            },
    {
        proof {
            use_type_invariant(&self);
        }
        let LocalState { mut mtimes, mut names } = self;
        let ghost before = texts(names@);
        if !mtimes.contains_key(name.as_str()) {
            names.push(name.clone());
            assert(texts(names@) =~= before.push(name@));
        }
        mtimes.insert(name, mtime);
        proof {
            let after = texts(names@);
            assert forall|other: Seq<char>|
                mtimes@.contains_key(other) <==> after.contains(other) by {
                if after.contains(other) {
                    let i = choose|i: int| 0 <= i < after.len() && after[i] == other;
                    if i < before.len() {
                        assert(before.contains(other));
                    }
                }
                if before.contains(other) {
                    let i = choose|i: int| 0 <= i < before.len() && before[i] == other;
                    assert(after[i] == other);
                }
                if other == name@ && !self@.contains_key(name@) {
                    assert(after[before.len() as int] == other);
                }
            }
        }
        LocalState { mtimes, names }
    }

    /// The record of a scan: the regular files among the entries.
    pub fn of_scan(entries: Vec<ScanEntry>) -> (state: LocalState)
        ensures
            state.wf(),
            state@ == files_of(entries.deep_view()),
            state.names() == names_of(entries.deep_view()),
    {
        let ghost all = entries.deep_view();
        let mut state = LocalState::new();
        proof {
            assert(all.take(0) =~= Seq::<ScanEntryView>::empty());
        }
        for entry in it: entries
            invariant
                all == it.seq().map_values(|entry: ScanEntry| entry@),
                state.wf(),
                state@ == files_of(all.take(it.index())),
                state.names() == names_of(all.take(it.index())),
        {
            proof {
                let upto = all.take(it.index() + 1);
                assert(upto.drop_last() =~= all.take(it.index()));
                assert(upto.last() == entry@);
            }
            if entry.regular {
                state = state.record(entry.name, entry.mtime);
            }
        }
        proof {
            assert(all.take(all.len() as int) =~= all);
        }
        state
    }

    /// The second at which the file of that name was last modified, if the
    /// scan found such a file.
    pub fn lookup(&self, name: &str) -> (mtime: Option<i64>)
        ensures
            mtime == if self@.contains_key(name@) {
                Some(self@[name@])
            } else {
                None::<i64>
            },
    {
        match self.mtimes.get(name) {
            Some(mtime) => Some(*mtime),
            None => None,
        }
    }

    /// How many files the scan found.
    pub fn len(&self) -> (count: usize)
        ensures
            count == self.names().len(),
    {
        self.names.len()
    }

    /// The names of the files, in the order of `names`.
    pub fn file_names(&self) -> (names: &Vec<String>)
        ensures
            self.wf(),
            texts(names@) == self.names(),
    {
        proof {
            use_type_invariant(self);
        }
        &self.names
    }
}

/// The file names that should exist once the run is over.
pub struct ExpectedFiles {
    names: StringHashSet,
}

impl View for ExpectedFiles {
    type V = Set<Seq<char>>;

    closed spec fn view(&self) -> Set<Seq<char>> {
        self.names@
    }
}

impl ExpectedFiles {
    /// No file is expected yet.
    pub fn new() -> (expected: ExpectedFiles)
        ensures
            expected@ == Set::<Seq<char>>::empty(),
    {
        ExpectedFiles { names: StringHashSet::new() }
    }

    /// Adds a name; a name that is there already stays once.
    pub fn insert(&mut self, name: String)
        ensures
            final(self)@ == old(self)@.insert(name@),
    {
        let _ = self.names.insert(name);
    }

    /// Tells whether the name is expected.
    pub fn contains(&self, name: &str) -> (found: bool)
        ensures
            found == self@.contains(name@),
    {
        self.names.contains(name)
    }
}

/// The names among `names` that are not expected, in their order.
pub open spec fn stale_names(names: Seq<Seq<char>>, expected: Set<Seq<char>>) -> Seq<Seq<char>> {
    names.filter(|name: Seq<char>| !expected.contains(name))
}

/// The files that the scan found and that no episode in any window accounts
/// for: the candidates for deletion. Nothing is deleted here.
pub fn stale_files(local: &LocalState, expected: &ExpectedFiles) -> (stale: Vec<String>)
    ensures
        texts(stale@) == stale_names(local.names(), expected@),
{
    let names = local.file_names();
    let ghost unexpected = |name: Seq<char>| !expected@.contains(name);
    let mut stale: Vec<String> = Vec::new();
    proof {
        reveal(Seq::filter);
        assert(texts(names@).take(0) =~= Seq::<Seq<char>>::empty());
        assert(texts(stale@) =~= Seq::<Seq<char>>::empty());
    }
    let mut i: usize = 0;
    while i < names.len()
        invariant
            i <= names.len(),
            unexpected == |name: Seq<char>| !expected@.contains(name),
            texts(stale@) == texts(names@).take(i as int).filter(unexpected),
        decreases names.len() - i,
    {
        let ghost before = texts(names@).take(i as int);
        let ghost kept = texts(stale@);
        proof {
            assert(texts(names@).take(i + 1) =~= before.push(names@[i as int]@));
            before.lemma_filter_push(names@[i as int]@, unexpected);
        }
        if !expected.contains(names[i].as_str()) {
            stale.push(names[i].clone());
            assert(texts(stale@) =~= kept.push(names@[i as int]@));
        }
        i += 1;
    }
    proof {
        assert(texts(names@).take(names.len() as int) =~= texts(names@));
    }
    stale
}

/// The names that a scan gives are the names of the files it gives, each
/// once.
pub proof fn law_scan_names_are_the_files(entries: Seq<ScanEntryView>)
    ensures
        names_of(entries).no_duplicates(),
        forall|name: Seq<char>|
            files_of(entries).contains_key(name) <==> names_of(entries).contains(name),
    decreases entries.len(),
{
    if entries.len() > 0 {
        let earlier = entries.drop_last();
        let entry = entries.last();
        law_scan_names_are_the_files(earlier);
        let before = names_of(earlier);
        let after = names_of(entries);
        assert forall|name: Seq<char>|
            files_of(entries).contains_key(name) <==> after.contains(name) by {
            if after.contains(name) {
                let i = choose|i: int| 0 <= i < after.len() && after[i] == name;
                if i < before.len() {
                    assert(before.contains(name));
                }
            }
            if before.contains(name) {
                let i = choose|i: int| 0 <= i < before.len() && before[i] == name;
                assert(after[i] == name);
            }
            if after.len() > before.len() && name == entry.name {
                assert(after[before.len() as int] == name);
            }
        }
        assert forall|i: int, j: int| 0 <= i < j < after.len() implies after[i] != after[j] by {
            if j == before.len() {
                assert(before[i] == after[i]);
                assert(before.contains(after[i]));
            }
        }
    }
}

/// The stale names are the difference of the two: a name is stale exactly
/// when the scan gave it and nothing expects it.
pub proof fn law_stale_is_the_difference(
    names: Seq<Seq<char>>,
    expected: Set<Seq<char>>,
    name: Seq<char>,
)
    ensures
        stale_names(names, expected).contains(name) <==> names.contains(name)
            && !expected.contains(name),
        stale_names(names, expected).len() <= names.len(),
        names.no_duplicates() ==> stale_names(names, expected).no_duplicates(),
    decreases names.len(),
{
    reveal(Seq::filter);
    let unexpected = |name: Seq<char>| !expected.contains(name);
    if names.len() > 0 {
        let earlier = names.drop_last();
        law_stale_is_the_difference(earlier, expected, name);
        law_stale_is_the_difference(earlier, expected, names.last());
        let before = stale_names(earlier, expected);
        let after = stale_names(names, expected);
        assert(after == if unexpected(names.last()) {
            before.push(names.last())
        } else {
            before
        });
        if after.contains(name) {
            let i = choose|i: int| 0 <= i < after.len() && after[i] == name;
            if i < before.len() {
                assert(before.contains(name));
                let j = choose|j: int| 0 <= j < earlier.len() && earlier[j] == name;
                assert(names[j] == name);
            } else {
                assert(names[names.len() - 1] == name);
            }
        }
        if names.contains(name) && !expected.contains(name) {
            let j = choose|j: int| 0 <= j < names.len() && names[j] == name;
            if j < earlier.len() {
                assert(earlier[j] == name);
                assert(earlier.contains(name));
                let i = choose|i: int| 0 <= i < before.len() && before[i] == name;
                assert(after[i] == name);
            } else {
                assert(after[after.len() - 1] == name);
            }
        }
        if names.no_duplicates() {
            assert(earlier.no_duplicates());
            if unexpected(names.last()) {
                if before.contains(names.last()) {
                    let j = choose|j: int| 0 <= j < earlier.len() && earlier[j] == names.last();
                    assert(names[j] == names[names.len() - 1]);
                }
            }
        }
    }
}

} // verus!
