//! Output locations under the output root.
//!
//! A `BuckOutPath` names one output of a rule: the owner that creates it, an
//! optional action key (set for outputs declared inside dynamic actions), and
//! a path relative to the owner's output directory. A `BuckOutPathResolver`
//! turns such values into project-relative paths under the output root.

use vstd::prelude::*;

verus! {

use crate::base_deferred_key::BaseDeferredKey;
use crate::base_deferred_key::hashed_path_chars;
use crate::base_deferred_key::unhashed_path_chars;
use crate::category::CategoryRef;
use crate::hashing::hash_of_strings;
use crate::hashing::hash_strings;
use crate::hashing::hex_of;
use crate::hashing::to_hex;
use crate::paths::CellRelativePath;
use crate::paths::ForwardRelativePathBuf;
use crate::paths::PathError;
use crate::paths::ProjectRelativePathBuf;
use crate::paths::join_seq;
use crate::paths::wf_forward_rel_path;
use crate::cells::ExternalCellOrigin;
use vstd::string::StrSliceExecFns;
use vstd::string::StringExecFns;

/// The mathematical value of an output path.
#[verifier::ext_equal]
pub struct BuckOutPathView {
    pub owner: crate::base_deferred_key::OwnerView,
    pub action_key: Option<Seq<char>>,
    pub path: Seq<char>,
}

/// A resolvable output path of a rule: who creates it and where it lies
/// relative to that owner's output directory.
#[derive(Clone, Debug, Hash, PartialEq, Eq)]
pub struct BuckOutPath {
    owner: BaseDeferredKey,
    dynamic_actions_action_key: Option<String>,
    path: ForwardRelativePathBuf,
}

impl View for BuckOutPath {
    type V = BuckOutPathView;

    closed spec fn view(&self) -> BuckOutPathView {
        BuckOutPathView {
            owner: self.owner@,
            action_key: crate::deferred::opt_view(self.dynamic_actions_action_key),
            path: self.path@,
        }
    }
}

impl BuckOutPath {
    /// An output path with no action key.
    pub fn new(owner: BaseDeferredKey, path: ForwardRelativePathBuf) -> (r: Self)
        ensures
            r.owner_view() == owner@,
            r.action_key_view() is None,
            r.path_view() == path@,
    {
        Self::with_dynamic_actions_action_key(owner, path, None)
    }

    /// An output path, with an action key when the output was declared
    /// inside a dynamic action.
    pub fn with_dynamic_actions_action_key(
        owner: BaseDeferredKey,
        path: ForwardRelativePathBuf,
        dynamic_actions_action_key: Option<String>,
    ) -> (r: Self)
        ensures
            r.owner_view() == owner@,
            match dynamic_actions_action_key {
                Some(k) => r.action_key_view() == Some(k@),
                None => r.action_key_view() is None,
            },
            r.path_view() == path@,
    {
        BuckOutPath { owner, dynamic_actions_action_key, path }
    }

    /// The owner, as a spec-level value.
    pub open spec fn owner_view(&self) -> crate::base_deferred_key::OwnerView {
        self@.owner
    }

    /// The action key's characters, if one is set.
    pub open spec fn action_key_view(&self) -> Option<Seq<char>> {
        self@.action_key
    }

    /// The relative path's characters.
    pub open spec fn path_view(&self) -> Seq<char> {
        self@.path
    }

    /// An equal output path, built field by field.
    pub fn duplicate(&self) -> (r: Self)
        ensures
            r@ == self@,
    {
        BuckOutPath {
            owner: self.owner.duplicate(),
            dynamic_actions_action_key: crate::deferred::dup_opt_string(
                &self.dynamic_actions_action_key,
            ),
            path: self.path.duplicate(),
        }
    }

    /// The same location, re-keyed under the given action identity.
    pub fn with_action_key(&self, key: Option<String>) -> (r: Self)
        ensures
            r@ == (BuckOutPathView {
                owner: self@.owner,
                action_key: crate::deferred::opt_view(key),
                path: self@.path,
            }),
    {
        BuckOutPath {
            owner: self.owner.duplicate(),
            dynamic_actions_action_key: key,
            path: self.path.duplicate(),
        }
    }

    /// The owner responsible for creating this path.
    pub fn owner(&self) -> (r: &BaseDeferredKey)
        ensures
            r@ == self.owner_view(),
    {
        &self.owner
    }

    /// The action key, set only for outputs inside dynamic actions.
    pub fn dynamic_actions_action_key(&self) -> (r: Option<&str>)
        ensures
            match r {
                Some(k) => self.action_key_view() == Some(k@),
                None => self.action_key_view() is None,
            },
    {
        match &self.dynamic_actions_action_key {
            Some(k) => Some(k.as_str()),
            None => None,
        }
    }

    /// The path relative to the owner's output directory.
    pub fn path(&self) -> (r: &ForwardRelativePathBuf)
        ensures
            r@ == self.path_view(),
    {
        &self.path
    }

    /// The byte length of the relative path.
    pub fn len(&self) -> (r: usize)
        ensures
            r == vstd::utf8::encode_utf8(self.path_view()).len() as usize,
    {
        self.path.as_str().len()
    }
}

/// The prefix an identifier may never carry, because replacements of
/// unusable identifiers start with it.
pub open spec fn make_sensible_prefix() -> Seq<char> {
    seq!['_', 'b', 'u', 'c', 'k', '_']
}

/// A character that would make a poor path segment.
pub open spec fn is_bad_path_char(c: char) -> bool {
    c == '<' || c == '>' || c == ';' || c == ':' || c == '"' || c == '\'' || c == '\n' || c == '\r'
        || c == '\t' || c == '?' || c == '*' || c == ' '
}

/// An identifier usable as-is in a scratch path: it does not carry the
/// replacement prefix, stays short, avoids troublesome characters, and is a
/// well-formed forward relative path.
pub open spec fn sensible_identifier(s: Seq<char>) -> bool {
    &&& !(s.len() >= 6 && s.subrange(0, 6) == make_sensible_prefix())
    &&& s.len() <= 50
    &&& forall|i: int| 0 <= i < s.len() ==> !is_bad_path_char(#[trigger] s[i])
    &&& wf_forward_rel_path(s)
}

/// The scratch path for a category and an optional identifier: a sensible
/// identifier is kept, any other is replaced by a hash carrying the
/// replacement prefix.
pub open spec fn scratch_path_chars(category: Seq<char>, identifier: Option<Seq<char>>) -> Seq<
    char,
> {
    match identifier {
        None => category,
        Some(id) => if sensible_identifier(id) {
            join_seq(category, id)
        } else {
            join_seq(
                category,
                make_sensible_prefix() + hex_of(hash_of_strings(seq![id]) as int),
            )
        },
    }
}

/// Whether `s` may stand in a scratch path as it is.
fn is_sensible(s: &str) -> (r: bool)
    ensures
        r == sensible_identifier(s@),
{
    let n = s.unicode_len();
    if n >= 6 {
        let head = s.substring_char(0, 6);
        if crate::paths::str_eq(head, "_buck_") {
            proof {
                reveal_strlit("_buck_");
                assert("_buck_"@ =~= make_sensible_prefix());
            }
            return false;
        }
        proof {
            reveal_strlit("_buck_");
            assert("_buck_"@ =~= make_sensible_prefix());
        }
    }
    if n > 50 {
        return false;
    }
    let mut i: usize = 0;
    while i < n
        invariant
            n == s@.len(),
            i <= n,
            forall|j: int| 0 <= j < i ==> !is_bad_path_char(#[trigger] s@[j]),
        decreases n - i,
    {
        let c = s.get_char(i);
        if c == '<' || c == '>' || c == ';' || c == ':' || c == '"' || c == '\'' || c == '\n' || c
            == '\r' || c == '\t' || c == '?' || c == '*' || c == ' ' {
            return false;
        }
        i += 1;
    }
    match ForwardRelativePathBuf::new(s) {
        Ok(_) => true,
        Err(_) => false,
    }
}

/// A temporary ("scratch") location of an action.
#[derive(Clone, Debug, PartialEq, Eq)]
pub struct BuckOutScratchPath {
    /// The owner responsible for creating this path.
    pub owner: BaseDeferredKey,
    /// The path relative to that owner.
    pub path: ForwardRelativePathBuf,
    /// The identifier of the action itself.
    pub action_key: String,
}

impl BuckOutScratchPath {
    /// The scratch path of an action: the category, then the identifier if
    /// it makes a usable path segment, or a hash of it if not.
    pub fn new(
        owner: BaseDeferredKey,
        category: CategoryRef,
        identifier: Option<&str>,
        action_key: String,
    ) -> (r: Result<Self, PathError>)
        ensures
            wf_forward_rel_path(category.s@) ==> (r matches Ok(p) && p.owner == owner
                && p.action_key@ == action_key@ && p.path@ == scratch_path_chars(
                category.s@,
                match identifier {
                    Some(id) => Some(id@),
                    None => None,
                },
            )),
            !wf_forward_rel_path(category.s@) ==> (r matches Err(e) && e
                == PathError::InvalidForwardRelativePath),
    {
        let path = match ForwardRelativePathBuf::new(category.as_str()) {
            Ok(p) => p,
            Err(e) => {
                return Err(e);
            },
        };
        let path = match identifier {
            Some(v) => {
                if is_sensible(v) {
                    path.join(&ForwardRelativePathBuf::unchecked_new(v.to_owned()))
                } else {
                    let mut writes: Vec<&str> = Vec::new();
                    writes.push(v);
                    proof {
                        assert(writes@.map_values(|p: &str| p@) =~= seq![v@]);
                    }
                    let h = hash_strings(&writes);
                    let mut replacement = String::from_str("_buck_");
                    replacement.append(to_hex(h).as_str());
                    proof {
                        reveal_strlit("_buck_");
                        assert(replacement@ =~= make_sensible_prefix() + hex_of(
                            hash_of_strings(seq![v@]) as int,
                        ));
                    }
                    path.join(&ForwardRelativePathBuf::unchecked_new(replacement))
                }
            },
            None => path,
        };
        Ok(Self { owner, path, action_key })
    }
}

/// A test's output location: a base directory shared by a set of tests, and
/// the test's own path under it.
#[derive(Clone, Debug, Hash, PartialEq, Eq)]
pub struct BuckOutTestPath {
    base: ForwardRelativePathBuf,
    path: ForwardRelativePathBuf,
}

impl BuckOutTestPath {
    /// Pairs a base directory with a path under it.
    pub fn new(base: ForwardRelativePathBuf, path: ForwardRelativePathBuf) -> (r: Self)
        ensures
            r.base_view() == base@,
            r.path_view() == path@,
    {
        BuckOutTestPath { base, path }
    }

    /// The base directory's characters.
    pub closed spec fn base_view(&self) -> Seq<char> {
        self.base@
    }

    /// The test path's characters.
    pub closed spec fn path_view(&self) -> Seq<char> {
        self.path@
    }

    /// Gives up the path under the base directory.
    pub fn into_path(self) -> (r: ForwardRelativePathBuf)
        ensures
            r@ == self.path_view(),
    {
        self.path
    }
}

/// Resolves output locations to project-relative paths under one output
/// root.
#[derive(Clone, Debug, PartialEq, Eq)]
pub struct BuckOutPathResolver {
    root: ProjectRelativePathBuf,
}

impl BuckOutPathResolver {
    /// A resolver for the given output root (conventionally `buck-out/v2`).
    pub fn new(buck_out: ProjectRelativePathBuf) -> (r: Self)
        ensures
            r.root_view() == buck_out@,
    {
        BuckOutPathResolver { root: buck_out }
    }

    /// The output root's characters.
    pub closed spec fn root_view(&self) -> Seq<char> {
        self.root@
    }

    /// The output root.
    pub fn root(&self) -> (r: &ProjectRelativePathBuf)
        ensures
            r@ == self.root_view(),
    {
        &self.root
    }

    /// Where a generated output lives: under `gen`, with the owner's hashed
    /// layout spread out.
    pub fn resolve_gen(&self, path: &BuckOutPath) -> (r: ProjectRelativePathBuf)
        ensures
            r@ == hashed_path_chars(
                path.owner_view(),
                self.root_view(),
                seq!['g', 'e', 'n'],
                path.action_key_view(),
                path.path_view(),
                false,
            ),
    {
        let r = self.prefixed_path_for_owner(
            &ForwardRelativePathBuf::unchecked_new("gen".to_owned()),
            path.owner(),
            path.dynamic_actions_action_key(),
            path.path(),
            false,
        );
        proof {
            reveal_strlit("gen");
            assert("gen"@ =~= seq!['g', 'e', 'n']);
        }
        r
    }

    /// Where an offline-cache copy of an output lives.
    pub fn resolve_offline_cache(&self, path: &BuckOutPath) -> (r: ProjectRelativePathBuf)
        ensures
            r@ == hashed_path_chars(
                path.owner_view(),
                self.root_view(),
                seq!['o', 'f', 'f', 'l', 'i', 'n', 'e', '-', 'c', 'a', 'c', 'h', 'e'],
                path.action_key_view(),
                path.path_view(),
                false,
            ),
    {
        let r = self.prefixed_path_for_owner(
            &ForwardRelativePathBuf::unchecked_new("offline-cache".to_owned()),
            path.owner(),
            path.dynamic_actions_action_key(),
            path.path(),
            false,
        );
        proof {
            reveal_strlit("offline-cache");
            assert("offline-cache"@ =~= seq![
                'o',
                'f',
                'f',
                'l',
                'i',
                'n',
                'e',
                '-',
                'c',
                'a',
                'c',
                'h',
                'e',
            ]);
        }
        r
    }

    /// Where an external cell's materialized sources live: under
    /// `external_cells`, by origin kind, then the origin's own segment.
    pub fn resolve_external_cell_source(
        &self,
        path: &CellRelativePath,
        origin: ExternalCellOrigin,
    ) -> (r: ProjectRelativePathBuf)
        ensures
            r@ == join_seq(
                join_seq(
                    join_seq(
                        join_seq(
                            self.root_view(),
                            seq![
                                'e',
                                'x',
                                't',
                                'e',
                                'r',
                                'n',
                                'a',
                                'l',
                                '_',
                                'c',
                                'e',
                                'l',
                                'l',
                                's',
                            ],
                        ),
                        match origin {
                            ExternalCellOrigin::Bundled(_) => seq!['b', 'u', 'n', 'd', 'l', 'e', 'd'],
                            ExternalCellOrigin::Git(_) => seq!['g', 'i', 't'],
                        },
                    ),
                    match origin {
                        ExternalCellOrigin::Bundled(cell) => cell.name@,
                        ExternalCellOrigin::Git(setup) => setup.commit@,
                    },
                ),
                path@,
            ),
    {
        let kind = match &origin {
            ExternalCellOrigin::Bundled(_) => ForwardRelativePathBuf::unchecked_new(
                "bundled".to_owned(),
            ),
            ExternalCellOrigin::Git(_) => ForwardRelativePathBuf::unchecked_new("git".to_owned()),
        };
        let ident = match &origin {
            ExternalCellOrigin::Bundled(cell) => cell.as_path(),
            ExternalCellOrigin::Git(setup) => ForwardRelativePathBuf::unchecked_new(
                setup.commit.clone(),
            ),
        };
        let r = self.root.as_forward_relative_path().join(
            &ForwardRelativePathBuf::unchecked_new("external_cells".to_owned()),
        ).join(&kind).join(&ident).join(&path.as_forward_relative_path());
        proof {
            reveal_strlit("external_cells");
            reveal_strlit("bundled");
            reveal_strlit("git");
            assert("external_cells"@ =~= seq![
                'e',
                'x',
                't',
                'e',
                'r',
                'n',
                'a',
                'l',
                '_',
                'c',
                'e',
                'l',
                'l',
                's',
            ]);
            assert("bundled"@ =~= seq!['b', 'u', 'n', 'd', 'l', 'e', 'd']);
            assert("git"@ =~= seq!['g', 'i', 't']);
        }
        ProjectRelativePathBuf::from_forward(r)
    }

    /// Where an action's scratch directory lives: under `tmp`, with the
    /// fully hashed layout, since scratch identities can be very long.
    pub fn resolve_scratch(&self, path: &BuckOutScratchPath) -> (r: ProjectRelativePathBuf)
        ensures
            r@ == hashed_path_chars(
                path.owner@,
                self.root_view(),
                seq!['t', 'm', 'p'],
                Some(path.action_key@),
                path.path@,
                true,
            ),
    {
        let r = self.prefixed_path_for_owner(
            &ForwardRelativePathBuf::unchecked_new("tmp".to_owned()),
            &path.owner,
            Some(path.action_key.as_str()),
            &path.path,
            true,
        );
        proof {
            reveal_strlit("tmp");
            assert("tmp"@ =~= seq!['t', 'm', 'p']);
        }
        r
    }

    /// Where a test's outputs live: under `test`, with no owner segment.
    pub fn resolve_test(&self, path: &BuckOutTestPath) -> (r: ProjectRelativePathBuf)
        ensures
            r@ == join_seq(
                join_seq(join_seq(self.root_view(), seq!['t', 'e', 's', 't']), path.base_view()),
                path.path_view(),
            ),
    {
        let r = self.root.as_forward_relative_path().join(
            &ForwardRelativePathBuf::unchecked_new("test".to_owned()),
        ).join(&path.base).join(&path.path);
        proof {
            reveal_strlit("test");
            assert("test"@ =~= seq!['t', 'e', 's', 't']);
        }
        ProjectRelativePathBuf::from_forward(r)
    }

    fn prefixed_path_for_owner(
        &self,
        prefix: &ForwardRelativePathBuf,
        owner: &BaseDeferredKey,
        action_key: Option<&str>,
        path: &ForwardRelativePathBuf,
        fully_hash_path: bool,
    ) -> (r: ProjectRelativePathBuf)
        ensures
            r@ == hashed_path_chars(
                owner@,
                self.root_view(),
                prefix@,
                match action_key {
                    Some(k) => Some(k@),
                    None => None,
                },
                path@,
                fully_hash_path,
            ),
    {
        owner.make_hashed_path(&self.root, prefix, action_key, path, fully_hash_path)
    }

    /// The exact, unhashed location of a target's `gen` symlink, ignoring
    /// configuration and action key; `None` where the owner has no unhashed
    /// location.
    pub fn unhashed_gen(&self, path: &BuckOutPath) -> (r: Option<ProjectRelativePathBuf>)
        ensures
            match r {
                Some(p) => unhashed_path_chars(path.owner_view()) matches Some(u) && p@ == join_seq(
                    join_seq(join_seq(self.root_view(), seq!['g', 'e', 'n']), u),
                    path.path_view(),
                ),
                None => unhashed_path_chars(path.owner_view()) is None,
            },
    {
        let unhashed = match path.owner().make_unhashed_path() {
            Some(u) => u,
            None => {
                return None;
            },
        };
        let r = self.root.as_forward_relative_path().join(
            &ForwardRelativePathBuf::unchecked_new("gen".to_owned()),
        ).join(&unhashed).join(path.path());
        proof {
            reveal_strlit("gen");
            assert("gen"@ =~= seq!['g', 'e', 'n']);
        }
        Some(ProjectRelativePathBuf::from_forward(r))
    }
}

} // verus!
