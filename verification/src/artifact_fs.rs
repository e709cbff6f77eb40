//! Resolving source files to project-relative paths.
//!
//! An `ArtifactFs` bundles the cell resolver, the output-path resolver and
//! the project root; `resolve_source` maps a source file of a package to the
//! project-relative path it lives at: cell root, package directory, then the
//! file's path within the package.

use vstd::prelude::*;

verus! {

use crate::buck_out_path::BuckOutPathResolver;
use crate::cells::CellError;
use crate::cells::CellName;
use crate::cells::CellResolver;
use crate::paths::CellRelativePath;
use crate::paths::ForwardRelativePathBuf;
use crate::paths::ProjectRelativePathBuf;
use crate::paths::join_seq;
use crate::target::PackageLabel;
use vstd::string::StrSliceExecFns;

/// Error from validating an absolute path string.
#[derive(Clone, Copy, Debug, PartialEq, Eq, Structural)]
pub enum AbsPathError {
    /// The string is not an absolute path.
    NotAbsolute,
}

/// An absolute, normalized filesystem path.
#[derive(Clone, Debug, Hash, PartialEq, Eq)]
pub struct AbsNormPathBuf {
    pub path: String,
}

impl AbsNormPathBuf {
    /// Accepts a nonempty path that starts at the filesystem root.
    pub fn new(path: String) -> (r: Result<Self, AbsPathError>)
        ensures
            path@.len() > 0 && path@[0] == '/' ==> (r matches Ok(p) && p.path@ == path@),
            !(path@.len() > 0 && path@[0] == '/') ==> (r matches Err(e) && e
                == AbsPathError::NotAbsolute),
    {
        if path.as_str().unicode_len() == 0 {
            return Err(AbsPathError::NotAbsolute);
        }
        if path.as_str().get_char(0) != '/' {
            return Err(AbsPathError::NotAbsolute);
        }
        Ok(AbsNormPathBuf { path })
    }
}

/// The absolute root directory of the project.
#[derive(Clone, Debug, PartialEq, Eq)]
pub struct ProjectRoot {
    pub root: AbsNormPathBuf,
}

impl ProjectRoot {
    /// Wraps a root without further checks; the caller vouches for it.
    pub fn new_unchecked(root: AbsNormPathBuf) -> (r: Self)
        ensures
            r.root == root,
    {
        ProjectRoot { root }
    }
}

/// Two adjacent separators stand at `i`.
pub open spec fn dslash_at(s: Seq<char>, i: int) -> bool {
    0 <= i && i + 1 < s.len() && s[i] == '/' && s[i + 1] == '/'
}

/// Finds the first doubled separator, if any.
fn find_dslash(s: &str) -> (r: Option<usize>)
    ensures
        match r {
            Some(k) => dslash_at(s@, k as int) && forall|j: int| 0 <= j < k ==> !dslash_at(s@, j),
            None => forall|j: int| !dslash_at(s@, j),
        },
{
    let n = s.unicode_len();
    if n == 0 {
        return None;
    }
    let mut i: usize = 0;
    while i < n - 1
        invariant
            n == s@.len(),
            0 < n,
            i <= n - 1,
            forall|j: int| 0 <= j < i ==> !dslash_at(s@, j),
        decreases n - i,
    {
        if s.get_char(i) == '/' && s.get_char(i + 1) == '/' {
            return Some(i);
        }
        i += 1;
    }
    None
}

/// A source file of one package.
#[derive(Clone, Debug, Hash, PartialEq, Eq)]
pub struct SourcePath {
    pub pkg: PackageLabel,
    pub path: ForwardRelativePathBuf,
}

impl SourcePath {
    /// Builds a source path for a test fixture: `pkg` is written
    /// `cell//package-directory`, split at the first doubled separator.
    pub fn testing_new(pkg: &str, path: &str) -> (r: Self)
        ensures
            (exists|k: int|
                {
                    &&& #[trigger] dslash_at(pkg@, k)
                    &&& forall|j: int| 0 <= j < k ==> !dslash_at(pkg@, j)
                    &&& r.pkg.cell.name@ == pkg@.subrange(0, k)
                    &&& r.pkg.path@ == pkg@.subrange(k + 2, pkg@.len() as int)
                }) || ((forall|j: int| !dslash_at(pkg@, j)) && r.pkg.cell.name@ == pkg@
                && r.pkg.path@.len() == 0),
            r.path@ == path@,
    {
        let n = pkg.unicode_len();
        let cut = find_dslash(pkg);
        match cut {
            Some(k) => {
                let cell = pkg.substring_char(0, k);
                let rest = pkg.substring_char(k + 2, n);
                let r = SourcePath {
                    pkg: PackageLabel {
                        cell: CellName { name: cell.to_owned() },
                        path: CellRelativePath::unchecked_new(rest),
                    },
                    path: ForwardRelativePathBuf::unchecked_new(path.to_owned()),
                };
                proof {
                    assert(dslash_at(pkg@, k as int) && (forall|j: int|
                        0 <= j < k ==> !dslash_at(pkg@, j)) && r.pkg.cell.name@ == pkg@.subrange(
                        0,
                        k as int,
                    ) && r.pkg.path@ == pkg@.subrange(k + 2, pkg@.len() as int));
                }
                r
            },
            None => {
                let r = SourcePath {
                    pkg: PackageLabel {
                        cell: CellName { name: pkg.to_owned() },
                        path: CellRelativePath::unchecked_new(""),
                    },
                    path: ForwardRelativePathBuf::unchecked_new(path.to_owned()),
                };
                proof {
                    reveal_strlit("");
                    assert((forall|j: int| !dslash_at(pkg@, j)) && r.pkg.cell.name@ == pkg@
                        && r.pkg.path@.len() == 0);
                }
                r
            },
        }
    }

    /// Borrows the source path.
    pub fn as_ref(&self) -> (r: &Self)
        ensures
            r == self,
    {
        self
    }
}

/// The filesystem view of build artifacts: cells, output root, project root.
#[derive(Clone, Debug)]
pub struct ArtifactFs {
    pub cell_resolver: CellResolver,
    pub buck_out_path_resolver: BuckOutPathResolver,
    pub project_root: ProjectRoot,
}

impl ArtifactFs {
    /// Bundles the three resolvers.
    pub fn new(
        cell_resolver: CellResolver,
        buck_out_path_resolver: BuckOutPathResolver,
        project_root: ProjectRoot,
    ) -> (r: Self)
        ensures
            r.cell_resolver == cell_resolver,
            r.buck_out_path_resolver == buck_out_path_resolver,
            r.project_root == project_root,
    {
        ArtifactFs { cell_resolver, buck_out_path_resolver, project_root }
    }

    /// The project-relative path of a source file: the cell's root, then the
    /// package directory, then the file. Unknown cells are an error.
    pub fn resolve_source(&self, source: &SourcePath) -> (r: Result<
        ProjectRelativePathBuf,
        CellError,
    >)
        ensures
            match r {
                Ok(p) => {
                    &&& self.cell_resolver.lookup_spec(source.pkg.cell.name@) matches Some(root)
                    &&& p@ == join_seq(join_seq(root.path@, source.pkg.path@), source.path@)
                },
                Err(e) => {
                    &&& self.cell_resolver.lookup_spec(source.pkg.cell.name@) is None
                    &&& e == CellError::UnknownCell
                },
            },
    {
        let root = self.cell_resolver.get(&source.pkg.cell)?;
        let joined = root.path.as_forward_relative_path().join(
            &source.pkg.path.as_forward_relative_path(),
        ).join(&source.path);
        Ok(ProjectRelativePathBuf::from_forward(joined))
    }
}

} // verus!
