//! Cells: the named roots that carve the project into namespaces.
//!
//! A cell name resolves, through a `CellResolver`, to the project-relative
//! directory that holds the cell's sources. External cells are materialized
//! under the output root instead; their origin decides the directory.

use vstd::prelude::*;

verus! {

use crate::paths::ProjectRelativePathBuf;
use crate::paths::str_eq;

/// Error from resolving a cell name.
#[derive(Clone, Copy, Debug, PartialEq, Eq, Structural)]
pub enum CellError {
    /// The resolver knows no cell of that name.
    UnknownCell,
}

/// The name of a cell.
#[derive(Clone, Debug, Hash, PartialEq, Eq)]
pub struct CellName {
    pub name: String,
}

impl CellName {
    /// Builds a cell name for a test fixture.
    pub fn testing_new(name: &str) -> (r: Self)
        ensures
            r.name@ == name@,
    {
        CellName { name: name.to_owned() }
    }

    /// The name as a string slice.
    pub fn as_str(&self) -> (r: &str)
        ensures
            r@ == self.name@,
    {
        self.name.as_str()
    }

    /// The name as a path segment.
    pub fn as_path(&self) -> (r: crate::paths::ForwardRelativePathBuf)
        ensures
            r@ == self.name@,
    {
        crate::paths::ForwardRelativePathBuf::unchecked_new(self.name.clone())
    }
}

/// The project-relative root directory of a cell.
#[derive(Clone, Debug, PartialEq, Eq)]
pub struct CellRootPathBuf {
    pub path: ProjectRelativePathBuf,
}

impl CellRootPathBuf {
    /// Wraps a project-relative path as a cell root.
    pub fn new(path: ProjectRelativePathBuf) -> (r: Self)
        ensures
            r.path@ == path@,
    {
        CellRootPathBuf { path }
    }
}

/// Maps cell names to their root directories.
#[derive(Clone, Debug)]
pub struct CellResolver {
    pub cells: Vec<(CellName, CellRootPathBuf)>,
}

/// The root of the first entry carrying `name`, if any.
pub open spec fn lookup_cells(cells: Seq<(CellName, CellRootPathBuf)>, name: Seq<char>) -> Option<
    CellRootPathBuf,
>
    decreases cells.len(),
{
    if cells.len() == 0 {
        None
    } else if cells[0].0.name@ == name {
        Some(cells[0].1)
    } else {
        lookup_cells(cells.subrange(1, cells.len() as int), name)
    }
}

/// `lookup_cells` of the resolver with the first `from` entries dropped.
pub open spec fn tail_resolver_lookup(r: CellResolver, from: int, name: Seq<char>) -> Option<
    CellRootPathBuf,
> {
    lookup_cells(r.cells@.subrange(from, r.cells@.len() as int), name)
}

proof fn lemma_lookup_step(r: CellResolver, i: int, name: Seq<char>)
    requires
        0 <= i <= r.cells@.len(),
    ensures
        i < r.cells@.len() && r.cells@[i].0.name@ == name ==> tail_resolver_lookup(r, i, name)
            == Some(r.cells@[i].1),
        i < r.cells@.len() && r.cells@[i].0.name@ != name ==> tail_resolver_lookup(r, i, name)
            == tail_resolver_lookup(r, i + 1, name),
        i == r.cells@.len() ==> tail_resolver_lookup(r, i, name) is None,
        tail_resolver_lookup(r, 0, name) == r.lookup_spec(name),
{
    let tail = r.cells@.subrange(i, r.cells@.len() as int);
    if i < r.cells@.len() {
        assert(tail[0] == r.cells@[i]);
        if r.cells@[i].0.name@ != name {
            assert(tail.subrange(1, tail.len() as int) =~= r.cells@.subrange(
                i + 1,
                r.cells@.len() as int,
            ));
        }
    }
    assert(r.cells@.subrange(0, r.cells@.len() as int) =~= r.cells@);
}

impl CellResolver {
    /// The root of the first entry carrying `name`, if any.
    pub open spec fn lookup_spec(&self, name: Seq<char>) -> Option<CellRootPathBuf> {
        lookup_cells(self.cells@, name)
    }

    /// A resolver that knows one cell, for test fixtures.
    pub fn testing_with_name_and_path(name: CellName, path: CellRootPathBuf) -> (r: Self)
        ensures
            r.cells@.len() == 1,
            r.cells@[0] == (name, path),
    {
        CellResolver { cells: vec![(name, path)] }
    }

    /// The root of cell `name`, or `UnknownCell`.
    pub fn get(&self, name: &CellName) -> (r: Result<&CellRootPathBuf, CellError>)
        ensures
            match r {
                Ok(root) => self.lookup_spec(name.name@) == Some(*root),
                Err(e) => self.lookup_spec(name.name@) is None && e == CellError::UnknownCell,
            },
    {
        proof {
            lemma_lookup_step(*self, 0, name.name@);
        }
        let mut i: usize = 0;
        while i < self.cells.len()
            invariant
                i <= self.cells@.len(),
                tail_resolver_lookup(*self, i as int, name.name@) == self.lookup_spec(name.name@),
            decreases self.cells@.len() - i,
        {
            proof {
                lemma_lookup_step(*self, i as int, name.name@);
            }
            if str_eq(self.cells[i].0.name.as_str(), name.name.as_str()) {
                return Ok(&self.cells[i].1);
            }
            i += 1;
        }
        proof {
            lemma_lookup_step(*self, i as int, name.name@);
        }
        Err(CellError::UnknownCell)
    }
}

/// How an external cell's contents are obtained.
#[derive(Clone, Debug, PartialEq, Eq)]
pub enum ExternalCellOrigin {
    /// Bundled with the tool itself.
    Bundled(CellName),
    /// Fetched from a git repository.
    Git(GitCellSetup),
}

/// An external cell fetched from git, pinned to one commit.
#[derive(Clone, Debug, Hash, PartialEq, Eq)]
pub struct GitCellSetup {
    pub git: String,
    /// A sha1 commit hash.
    pub commit: String,
}

} // verus!
