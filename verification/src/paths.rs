//! Relative path values and their validation.
//!
//! Output locations are always *forward relative* paths: `/`-separated
//! segments that only descend, never `.`, `..` or an empty segment.
//! `ForwardRelativePathBuf::new` validates a candidate string;
//! `unchecked_new` trusts its caller, as the name says, and is how test
//! fixtures and already-validated strings enter.

use vstd::prelude::*;

verus! {

use vstd::string::StrSliceExecFns;
use vstd::string::StringExecFns;

/// Error from validating a relative path string.
#[derive(Clone, Copy, Debug, PartialEq, Eq, Structural)]
pub enum PathError {
    /// The string is not a well-formed forward relative path.
    InvalidForwardRelativePath,
}

/// Position `i` begins a path segment: it is the start of the string or
/// follows a separator.
pub open spec fn seg_start(s: Seq<char>, i: int) -> bool {
    i == 0 || s[i - 1] == '/'
}

/// Position `i` ends a path segment: it is the end of the string or holds a
/// separator.
pub open spec fn seg_end(s: Seq<char>, i: int) -> bool {
    i == s.len() || s[i] == '/'
}

/// An empty segment lies at `i`: a leading, trailing or doubled separator.
pub open spec fn empty_seg_at(s: Seq<char>, i: int) -> bool {
    seg_start(s, i) && seg_end(s, i)
}

/// The one-character segment `.` lies at `i`.
pub open spec fn dot_seg_at(s: Seq<char>, i: int) -> bool {
    seg_start(s, i) && i < s.len() && s[i] == '.' && seg_end(s, i + 1)
}

/// The two-character segment `..` lies at `i`.
pub open spec fn dotdot_seg_at(s: Seq<char>, i: int) -> bool {
    seg_start(s, i) && i + 1 < s.len() && s[i] == '.' && s[i + 1] == '.' && seg_end(s, i + 2)
}

/// A well-formed forward relative path: either empty, or `/`-separated
/// segments none of which is empty, `.` or `..`.
pub open spec fn wf_forward_rel_path(s: Seq<char>) -> bool {
    s.len() == 0 || {
        &&& forall|i: int| 0 <= i <= s.len() ==> !empty_seg_at(s, i)
        &&& forall|i: int| 0 <= i < s.len() ==> !dot_seg_at(s, i)
        &&& forall|i: int| 0 <= i < s.len() ==> !dotdot_seg_at(s, i)
    }
}

/// `a` and `b` joined with one separator; an empty side leaves the other as
/// it is.
pub open spec fn join_seq(a: Seq<char>, b: Seq<char>) -> Seq<char> {
    if a.len() == 0 {
        b
    } else if b.len() == 0 {
        a
    } else {
        a + seq!['/'] + b
    }
}

/// A relative path that only descends once validated.
#[derive(Clone, Debug, Hash, PartialEq, Eq)]
pub struct ForwardRelativePathBuf {
    s: String,
}

impl View for ForwardRelativePathBuf {
    type V = Seq<char>;

    closed spec fn view(&self) -> Seq<char> {
        self.s@
    }
}

impl ForwardRelativePathBuf {
    /// Wraps a string without validating it; the caller vouches for it.
    pub fn unchecked_new(s: String) -> (r: Self)
        ensures
            r@ == s@,
    {
        ForwardRelativePathBuf { s }
    }

    /// The empty path.
    pub fn empty() -> (r: Self)
        ensures
            r@ == Seq::<char>::empty(),
    {
        ForwardRelativePathBuf { s: String::new() }
    }

    /// Validates `s` as a forward relative path.
    pub fn new(s: &str) -> (r: Result<Self, PathError>)
        ensures
            wf_forward_rel_path(s@) ==> (r matches Ok(p) && p@ == s@),
            !wf_forward_rel_path(s@) ==> (r matches Err(e) && e
                == PathError::InvalidForwardRelativePath),
    {
        let n = s.unicode_len();
        if n == 0 {
            return Ok(ForwardRelativePathBuf { s: s.to_owned() });
        }
        if s.get_char(n - 1) == '/' {
            proof {
                assert(!wf_forward_rel_path(s@)) by {
                    assert(empty_seg_at(s@, s@.len() as int));
                }
            }
            return Err(PathError::InvalidForwardRelativePath);
        }
        let mut i: usize = 0;
        while i < n
            invariant
                n == s@.len(),
                0 < n,
                i <= n,
                s@[n - 1] != '/',
                forall|j: int| 0 <= j < i ==> !empty_seg_at(s@, j),
                forall|j: int| 0 <= j < i ==> !dot_seg_at(s@, j),
                forall|j: int| 0 <= j < i ==> !dotdot_seg_at(s@, j),
            decreases n - i,
        {
            let at_start = i == 0 || s.get_char(i - 1) == '/';
            if at_start && s.get_char(i) == '/' {
                proof {
                    assert(!wf_forward_rel_path(s@)) by {
                        assert(empty_seg_at(s@, i as int));
                    }
                }
                return Err(PathError::InvalidForwardRelativePath);
            }
            if at_start && s.get_char(i) == '.' {
                if i + 1 == n || s.get_char(i + 1) == '/' {
                    proof {
                        assert(!wf_forward_rel_path(s@)) by {
                            assert(dot_seg_at(s@, i as int));
                        }
                    }
                    return Err(PathError::InvalidForwardRelativePath);
                }
                if s.get_char(i + 1) == '.' {
                    if i + 2 == n || s.get_char(i + 2) == '/' {
                        proof {
                            assert(!wf_forward_rel_path(s@)) by {
                                assert(dotdot_seg_at(s@, i as int));
                            }
                        }
                        return Err(PathError::InvalidForwardRelativePath);
                    }
                }
            }
            i += 1;
        }
        proof {
            assert(forall|j: int| 0 <= j <= s@.len() ==> !empty_seg_at(s@, j)) by {
                assert(!empty_seg_at(s@, s@.len() as int));
            }
        }
        Ok(ForwardRelativePathBuf { s: s.to_owned() })
    }

    /// The path as a string slice.
    pub fn as_str(&self) -> (r: &str)
        ensures
            r@ == self@,
    {
        self.s.as_str()
    }

    /// Whether the path is empty.
    pub fn is_empty(&self) -> (r: bool)
        ensures
            r == (self@.len() == 0),
    {
        self.s.as_str().is_empty()
    }

    /// An equal path value.
    pub fn duplicate(&self) -> (r: Self)
        ensures
            r@ == self@,
    {
        ForwardRelativePathBuf { s: self.s.clone() }
    }

    /// Joins `other` under `self` with one separator.
    pub fn join(&self, other: &Self) -> (r: Self)
        ensures
            r@ == join_seq(self@, other@),
    {
        if self.s.as_str().is_empty() {
            ForwardRelativePathBuf { s: other.s.clone() }
        } else if other.s.as_str().is_empty() {
            ForwardRelativePathBuf { s: self.s.clone() }
        } else {
            let mut s = self.s.clone();
            s.append("/");
            s.append(other.s.as_str());
            proof {
                reveal_strlit("/");
                assert("/"@ =~= seq!['/']);
                assert(s@ =~= join_seq(self@, other@));
            }
            ForwardRelativePathBuf { s }
        }
    }
}

/// Compares two string slices character by character.
pub fn str_eq(a: &str, b: &str) -> (r: bool)
    ensures
        r == (a@ == b@),
{
    let na = a.unicode_len();
    let nb = b.unicode_len();
    if na != nb {
        return false;
    }
    let mut i: usize = 0;
    while i < na
        invariant
            na == a@.len(),
            nb == b@.len(),
            na == nb,
            i <= na,
            forall|j: int| 0 <= j < i ==> a@[j] == b@[j],
        decreases na - i,
    {
        if a.get_char(i) != b.get_char(i) {
            return false;
        }
        i += 1;
    }
    proof {
        assert(a@ =~= b@);
    }
    true
}

/// A path relative to the project root.
#[derive(Clone, Debug, Hash, PartialEq, Eq)]
pub struct ProjectRelativePathBuf {
    s: String,
}

impl View for ProjectRelativePathBuf {
    type V = Seq<char>;

    closed spec fn view(&self) -> Seq<char> {
        self.s@
    }
}

impl ProjectRelativePathBuf {
    /// Wraps a string without validating it; the caller vouches for it.
    pub fn unchecked_new(s: String) -> (r: Self)
        ensures
            r@ == s@,
    {
        ProjectRelativePathBuf { s }
    }

    /// The path as a string slice.
    pub fn as_str(&self) -> (r: &str)
        ensures
            r@ == self@,
    {
        self.s.as_str()
    }

    /// The same characters, read as a forward relative path.
    pub fn as_forward_relative_path(&self) -> (r: ForwardRelativePathBuf)
        ensures
            r@ == self@,
    {
        ForwardRelativePathBuf { s: self.s.clone() }
    }
}

impl ProjectRelativePathBuf {
    /// Re-labels a forward relative path as project relative.
    pub fn from_forward(p: ForwardRelativePathBuf) -> (r: Self)
        ensures
            r@ == p@,
    {
        ProjectRelativePathBuf { s: p.s }
    }
}

/// A path relative to a cell's root.
#[derive(Clone, Debug, Hash, PartialEq, Eq)]
pub struct CellRelativePath {
    s: String,
}

impl View for CellRelativePath {
    type V = Seq<char>;

    closed spec fn view(&self) -> Seq<char> {
        self.s@
    }
}

impl CellRelativePath {
    /// Wraps a string without validating it; the caller vouches for it.
    pub fn unchecked_new(s: &str) -> (r: Self)
        ensures
            r@ == s@,
    {
        CellRelativePath { s: s.to_owned() }
    }

    /// The path as a string slice.
    pub fn as_str(&self) -> (r: &str)
        ensures
            r@ == self@,
    {
        self.s.as_str()
    }

    /// The same characters, read as a forward relative path.
    pub fn as_forward_relative_path(&self) -> (r: ForwardRelativePathBuf)
        ensures
            r@ == self@,
    {
        ForwardRelativePathBuf { s: self.s.clone() }
    }

    /// An equal path value.
    pub fn duplicate(&self) -> (r: Self)
        ensures
            r@ == self@,
    {
        CellRelativePath { s: self.s.clone() }
    }
}

} // verus!
