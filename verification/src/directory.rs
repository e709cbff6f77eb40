//! Immutable directories.
//!
//! A directory maps file names to entries: leaves of some payload type `L`,
//! or subdirectories. An immutable directory is either *exclusive* (owned
//! outright) or *shared* (interned, so equal trees are stored once); either
//! carries a fingerprint computed by the digest subsystem outside this
//! library, and two immutable directories count as equal exactly when their
//! fingerprints are. A *builder* is a directory under construction: a
//! mutable list of entries, or an immutable directory taken over wholesale.

use vstd::prelude::*;

verus! {

use crate::paths::str_eq;

/// One name in a directory.
#[derive(Clone, Debug, Hash, PartialEq, Eq)]
pub struct FileNameBuf {
    pub name: String,
}

/// An entry is a subdirectory or a leaf.
#[derive(Debug)]
pub enum DirectoryEntry<D, L> {
    Dir(D),
    Leaf(L),
}

/// A directory's contents together with the digest subsystem's fingerprint
/// over them.
#[derive(Debug)]
pub struct DirectoryData<L> {
    pub entries: Vec<(FileNameBuf, DirectoryEntry<ImmutableDirectory<L>, L>)>,
    pub fingerprint: u64,
}

/// An immutable directory owned outright.
#[derive(Debug)]
pub struct ExclusiveDirectory<L> {
    pub data: DirectoryData<L>,
}

/// An immutable directory that has been interned.
#[derive(Debug)]
pub struct SharedDirectory<L> {
    pub data: DirectoryData<L>,
}

/// An immutable directory: exclusive or shared.
#[derive(Debug)]
pub enum ImmutableDirectory<L> {
    Exclusive(ExclusiveDirectory<L>),
    Shared(SharedDirectory<L>),
}

/// A directory under construction.
#[derive(Debug)]
pub enum DirectoryBuilder<L> {
    Mutable(Vec<(FileNameBuf, DirectoryEntry<DirectoryBuilder<L>, L>)>),
    Immutable(ImmutableDirectory<L>),
}

/// Records which fingerprints have been interned; the sharing of the
/// underlying allocations belongs to the interning subsystem outside this
/// library.
#[derive(Debug)]
pub struct DashMapDirectoryInterner<L> {
    pub fingerprints: Vec<u64>,
    pub marker: core::marker::PhantomData<L>,
}

impl<L> DashMapDirectoryInterner<L> {
    /// An empty interner.
    pub fn new() -> (r: Self)
        ensures
            r.fingerprints@ == Seq::<u64>::empty(),
    {
        let r = DashMapDirectoryInterner {
            fingerprints: Vec::new(),
            marker: core::marker::PhantomData,
        };
        proof {
            assert(r.fingerprints@ =~= Seq::<u64>::empty());
        }
        r
    }

    /// Records `fingerprint` as interned, once.
    pub fn intern(&mut self, fingerprint: u64)
        ensures
            final(self).fingerprints@ == if old(self).fingerprints@.contains(fingerprint) {
                old(self).fingerprints@
            } else {
                old(self).fingerprints@.push(fingerprint)
            },
    {
        let mut i: usize = 0;
        while i < self.fingerprints.len()
            invariant
                i <= self.fingerprints@.len(),
                *self == *old(self),
                forall|j: int| 0 <= j < i ==> self.fingerprints@[j] != fingerprint,
            decreases self.fingerprints@.len() - i,
        {
            if self.fingerprints[i] == fingerprint {
                return ;
            }
            i += 1;
        }
        self.fingerprints.push(fingerprint);
    }
}

/// Entries converted for a builder: every subdirectory is taken over as an
/// immutable directory, every leaf moves unchanged, names and order kept.
pub open spec fn builder_entries_of<L>(
    entries: Seq<(FileNameBuf, DirectoryEntry<ImmutableDirectory<L>, L>)>,
) -> Seq<(FileNameBuf, DirectoryEntry<DirectoryBuilder<L>, L>)> {
    entries.map_values(
        |e: (FileNameBuf, DirectoryEntry<ImmutableDirectory<L>, L>)|
            (
                e.0,
                match e.1 {
                    DirectoryEntry::Dir(d) => DirectoryEntry::Dir(DirectoryBuilder::Immutable(d)),
                    DirectoryEntry::Leaf(l) => DirectoryEntry::Leaf(l),
                },
            ),
    )
}

/// Converts a directory's own entries into builder entries.
fn convert_entries<L>(
    entries: Vec<(FileNameBuf, DirectoryEntry<ImmutableDirectory<L>, L>)>,
) -> (r: Vec<(FileNameBuf, DirectoryEntry<DirectoryBuilder<L>, L>)>)
    ensures
        r@ == builder_entries_of(entries@),
{
    let ghost all = entries@;
    let mut src = entries;
    let mut out: Vec<(FileNameBuf, DirectoryEntry<DirectoryBuilder<L>, L>)> = Vec::new();
    while src.len() > 0
        invariant
            src@ =~= all.subrange(all.len() - src@.len(), all.len() as int),
            out@.len() + src@.len() == all.len(),
            out@ =~= builder_entries_of(all.subrange(0, out@.len() as int)),
        decreases src@.len(),
    {
        let ghost done = out@.len() as int;
        let (name, entry) = src.remove(0);
        let converted = match entry {
            DirectoryEntry::Dir(d) => DirectoryEntry::Dir(DirectoryBuilder::Immutable(d)),
            DirectoryEntry::Leaf(l) => DirectoryEntry::Leaf(l),
        };
        out.push((name, converted));
        proof {
            assert(all[done] == (name, entry));
            assert(out@ =~= builder_entries_of(all.subrange(0, done + 1)));
            assert(src@ =~= all.subrange(all.len() - src@.len(), all.len() as int));
        }
    }
    proof {
        assert(all.subrange(0, all.len() as int) =~= all);
    }
    out
}

impl<L> ExclusiveDirectory<L> {
    /// Interns the directory: its fingerprint is recorded and its contents
    /// become a shared directory, unchanged.
    pub fn shared(self, interner: &mut DashMapDirectoryInterner<L>) -> (r: SharedDirectory<L>)
        ensures
            r.data == self.data,
            final(interner).fingerprints@ == if old(interner).fingerprints@.contains(
                self.data.fingerprint,
            ) {
                old(interner).fingerprints@
            } else {
                old(interner).fingerprints@.push(self.data.fingerprint)
            },
    {
        interner.intern(self.data.fingerprint);
        SharedDirectory { data: self.data }
    }

    /// Reopens the directory for construction: a mutable entry list whose
    /// subdirectories are taken over as they are.
    pub fn into_builder(self) -> (r: DirectoryBuilder<L>)
        ensures
            r matches DirectoryBuilder::Mutable(es) && es@ == builder_entries_of(
                self.data.entries@,
            ),
    {
        DirectoryBuilder::Mutable(convert_entries(self.data.entries))
    }

    /// Gives up the entries, each subdirectory as a builder.
    pub fn into_entries(self) -> (r: Vec<(FileNameBuf, DirectoryEntry<DirectoryBuilder<L>, L>)>)
        ensures
            r@ == builder_entries_of(self.data.entries@),
    {
        convert_entries(self.data.entries)
    }
}

impl<L> SharedDirectory<L> {
    /// Reopens the directory for construction, taken over wholesale.
    pub fn into_builder(self) -> (r: DirectoryBuilder<L>)
        ensures
            r == DirectoryBuilder::Immutable(ImmutableDirectory::Shared(self)),
    {
        DirectoryBuilder::Immutable(ImmutableDirectory::Shared(self))
    }

    /// Gives up the entries, each subdirectory as a builder.
    pub fn into_entries(self) -> (r: Vec<(FileNameBuf, DirectoryEntry<DirectoryBuilder<L>, L>)>)
        ensures
            r@ == builder_entries_of(self.data.entries@),
    {
        convert_entries(self.data.entries)
    }
}

/// The first entry named `needle`, if any.
pub open spec fn lookup_entry<L>(
    entries: Seq<(FileNameBuf, DirectoryEntry<ImmutableDirectory<L>, L>)>,
    needle: Seq<char>,
) -> Option<DirectoryEntry<ImmutableDirectory<L>, L>>
    decreases entries.len(),
{
    if entries.len() == 0 {
        None
    } else if entries[0].0.name@ == needle {
        Some(entries[0].1)
    } else {
        lookup_entry(entries.subrange(1, entries.len() as int), needle)
    }
}

impl<L> ImmutableDirectory<L> {
    /// The directory's contents, whichever representation holds them.
    pub open spec fn data_spec(&self) -> DirectoryData<L> {
        match self {
            ImmutableDirectory::Exclusive(d) => d.data,
            ImmutableDirectory::Shared(d) => d.data,
        }
    }

    /// Interns the directory if it is not already shared.
    pub fn shared(self, interner: &mut DashMapDirectoryInterner<L>) -> (r: SharedDirectory<L>)
        ensures
            r.data == self.data_spec(),
            match self {
                ImmutableDirectory::Exclusive(d) => final(interner).fingerprints@ == if old(
                    interner,
                ).fingerprints@.contains(d.data.fingerprint) {
                    old(interner).fingerprints@
                } else {
                    old(interner).fingerprints@.push(d.data.fingerprint)
                },
                ImmutableDirectory::Shared(_) => *final(interner) == *old(interner),
            },
    {
        match self {
            ImmutableDirectory::Exclusive(dir) => dir.shared(interner),
            ImmutableDirectory::Shared(dir) => dir,
        }
    }

    /// Reopens the directory for construction.
    pub fn into_builder(self) -> (r: DirectoryBuilder<L>)
        ensures
            match self {
                ImmutableDirectory::Exclusive(d) => r matches DirectoryBuilder::Mutable(es)
                    && es@ == builder_entries_of(d.data.entries@),
                ImmutableDirectory::Shared(s) => r == DirectoryBuilder::Immutable(
                    ImmutableDirectory::Shared(s),
                ),
            },
    {
        match self {
            ImmutableDirectory::Exclusive(d) => d.into_builder(),
            ImmutableDirectory::Shared(s) => s.into_builder(),
        }
    }

    /// Gives up the entries, each subdirectory as a builder.
    pub fn into_entries(self) -> (r: Vec<(FileNameBuf, DirectoryEntry<DirectoryBuilder<L>, L>)>)
        ensures
            r@ == builder_entries_of(self.data_spec().entries@),
    {
        match self {
            ImmutableDirectory::Exclusive(dir) => dir.into_entries(),
            ImmutableDirectory::Shared(dir) => dir.into_entries(),
        }
    }

    /// The entries, in order.
    pub fn entries(&self) -> (r: &Vec<(FileNameBuf, DirectoryEntry<ImmutableDirectory<L>, L>)>)
        ensures
            r@ == self.data_spec().entries@,
    {
        match self {
            ImmutableDirectory::Exclusive(dir) => &dir.data.entries,
            ImmutableDirectory::Shared(dir) => &dir.data.entries,
        }
    }

    /// The entry named `needle`, if any.
    pub fn get(&self, needle: &FileNameBuf) -> (r: Option<
        &DirectoryEntry<ImmutableDirectory<L>, L>,
    >)
        ensures
            match r {
                Some(e) => lookup_entry(self.data_spec().entries@, needle.name@) == Some(*e),
                None => lookup_entry(self.data_spec().entries@, needle.name@) is None,
            },
    {
        let entries = self.entries();
        let ghost all = entries@;
        proof {
            assert(all.subrange(0, all.len() as int) =~= all);
        }
        let mut i: usize = 0;
        while i < entries.len()
            invariant
                i <= all.len(),
                all == entries@,
                entries@ == self.data_spec().entries@,
                lookup_entry(all.subrange(i as int, all.len() as int), needle.name@)
                    == lookup_entry(all, needle.name@),
            decreases entries@.len() - i,
        {
            proof {
                assert(all.subrange(i as int, all.len() as int).subrange(
                    1,
                    all.subrange(i as int, all.len() as int).len() as int,
                ) =~= all.subrange(i + 1, all.len() as int));
            }
            if str_eq(entries[i].0.name.as_str(), needle.name.as_str()) {
                return Some(&entries[i].1);
            }
            i += 1;
        }
        proof {
            assert(all.subrange(all.len() as int, all.len() as int) =~= Seq::<(
                FileNameBuf,
                DirectoryEntry<ImmutableDirectory<L>, L>,
            )>::empty());
        }
        None
    }

    /// The fingerprint-carrying entries are the entries themselves: the
    /// digest subsystem outside this library computes the fingerprints.
    pub fn fingerprinted_entries(&self) -> (r: &Vec<
        (FileNameBuf, DirectoryEntry<ImmutableDirectory<L>, L>),
    >)
        ensures
            r@ == self.data_spec().entries@,
    {
        self.entries()
    }

    /// The digest subsystem's fingerprint over the contents.
    pub fn fingerprint(&self) -> (r: u64)
        ensures
            r == self.data_spec().fingerprint,
    {
        match self {
            ImmutableDirectory::Exclusive(dir) => dir.data.fingerprint,
            ImmutableDirectory::Shared(dir) => dir.data.fingerprint,
        }
    }
}

impl<L> PartialEq for ImmutableDirectory<L> {
    /// Directories compare by fingerprint: the digest subsystem guarantees
    /// equal fingerprints mean equal trees.
    fn eq(&self, other: &Self) -> (r: bool) {
        self.fingerprint() == other.fingerprint()
    }
}

impl<L> vstd::std_specs::cmp::PartialEqSpecImpl for ImmutableDirectory<L> {
    open spec fn obeys_eq_spec() -> bool {
        true
    }

    open spec fn eq_spec(&self, other: &Self) -> bool {
        self.data_spec().fingerprint == other.data_spec().fingerprint
    }
}

impl<L> Eq for ImmutableDirectory<L> {

}

} // verus!
