//! Owners of deferred computations.
//!
//! A deferred node is requested by an *owner*: a configured target label, a
//! script-evaluation-session (bxl) label, or an anonymous-target label. The
//! owner decides which implicit dependency edges a dynamic lambda gets, which
//! owners are compatible with the mechanism at all, and where on disk the
//! owner's outputs live.
//!
//! Output paths bury everything configuration-dependent in a hash segment:
//! the configuration's name always, and additionally the package, target
//! name, action key and path when the caller asks for a fully hashed layout
//! (scratch paths, which would otherwise grow past filesystem limits).

use vstd::prelude::*;

verus! {

use crate::hashing::hash_hex;
use crate::hashing::hash_hex_of_strings;
use crate::paths::ForwardRelativePathBuf;
use crate::paths::ProjectRelativePathBuf;
use crate::paths::join_seq;
use crate::target::CfgTargetView;
use crate::target::ConfiguredTargetLabel;
use vstd::string::StringExecFns;

/// The resolved choice of execution platform for an owner.
#[derive(Clone, Debug, Hash, PartialEq, Eq)]
pub struct ExecutionPlatformResolution {
    pub platform: String,
}

impl View for ExecutionPlatformResolution {
    type V = Seq<char>;

    open spec fn view(&self) -> Seq<char> {
        self.platform@
    }
}

impl ExecutionPlatformResolution {
    /// An equal resolution value.
    pub fn duplicate(&self) -> (r: Self)
        ensures
            r@ == self@,
    {
        ExecutionPlatformResolution { platform: self.platform.clone() }
    }
}

/// A script-evaluation-session (bxl) label: such a session carries its own
/// execution platform resolution.
#[derive(Clone, Debug, Hash, PartialEq, Eq)]
pub struct BxlKey {
    pub label: String,
    pub execution_platform: ExecutionPlatformResolution,
}

/// The mathematical value of a session label.
#[verifier::ext_equal]
pub struct BxlKeyView {
    pub label: Seq<char>,
    pub platform: Seq<char>,
}

impl View for BxlKey {
    type V = BxlKeyView;

    open spec fn view(&self) -> BxlKeyView {
        BxlKeyView { label: self.label@, platform: self.execution_platform@ }
    }
}

/// An anonymous-target label.
#[derive(Clone, Debug, Hash, PartialEq, Eq)]
pub struct AnonTargetKey {
    pub label: String,
}

impl View for AnonTargetKey {
    type V = Seq<char>;

    open spec fn view(&self) -> Seq<char> {
        self.label@
    }
}

/// Who requested a deferred computation.
#[derive(Clone, Debug, Hash, PartialEq, Eq)]
pub enum BaseDeferredKey {
    /// A configured build-target label.
    TargetLabel(ConfiguredTargetLabel),
    /// A script-evaluation-session label.
    BxlLabel(BxlKey),
    /// An anonymous-target label.
    AnonTarget(AnonTargetKey),
}

/// The mathematical value of an owner.
#[verifier::ext_equal]
pub enum OwnerView {
    TargetLabel(CfgTargetView),
    BxlLabel(BxlKeyView),
    AnonTarget(Seq<char>),
}

impl View for BaseDeferredKey {
    type V = OwnerView;

    open spec fn view(&self) -> OwnerView {
        match self {
            BaseDeferredKey::TargetLabel(t) => OwnerView::TargetLabel(t@),
            BaseDeferredKey::BxlLabel(b) => OwnerView::BxlLabel(b@),
            BaseDeferredKey::AnonTarget(a) => OwnerView::AnonTarget(a@),
        }
    }
}

/// `name` wrapped in double underscores, as target names appear on disk.
pub open spec fn wrap_underscores(name: Seq<char>) -> Seq<char> {
    seq!['_', '_'] + name + seq!['_', '_']
}

/// The directory segment an action key occupies on disk.
pub open spec fn action_key_dir(k: Seq<char>) -> Seq<char> {
    seq!['_', '_', 'a', 'c', 't', 'i', 'o', 'n', '_', '_'] + k + seq!['_', '_']
}

/// What is written into the output hash for a target-label owner.
pub open spec fn target_hash_writes(
    t: CfgTargetView,
    action_key: Option<Seq<char>>,
    path: Seq<char>,
    fully_hash_path: bool,
) -> Seq<Seq<char>> {
    if fully_hash_path {
        seq![t.cfg, t.pkg, t.name] + (match action_key {
            Some(k) => seq![k],
            None => Seq::<Seq<char>>::empty(),
        }) + seq![path]
    } else {
        seq![t.cfg]
    }
}

/// What is written into the output hash for a session or anonymous owner.
pub open spec fn label_hash_writes(
    label: Seq<char>,
    action_key: Option<Seq<char>>,
    path: Seq<char>,
    fully_hash_path: bool,
) -> Seq<Seq<char>> {
    if fully_hash_path {
        seq![label] + (match action_key {
            Some(k) => seq![k],
            None => Seq::<Seq<char>>::empty(),
        }) + seq![path]
    } else {
        seq![label]
    }
}

/// The tail of a hashed path after the hash segment: the visible package and
/// target segments for the spread layout, or just the path when everything
/// identifying is already in the hash.
pub open spec fn target_tail_chars(
    t: CfgTargetView,
    head: Seq<char>,
    action_key: Option<Seq<char>>,
    path: Seq<char>,
    fully_hash_path: bool,
) -> Seq<char> {
    if fully_hash_path {
        join_seq(head, path)
    } else {
        let with_pkg = join_seq(join_seq(head, t.pkg), wrap_underscores(t.name));
        match action_key {
            Some(k) => join_seq(join_seq(with_pkg, action_key_dir(k)), path),
            None => join_seq(with_pkg, path),
        }
    }
}

/// The tail for session and anonymous owners, which have no package segment.
pub open spec fn label_tail_chars(
    head: Seq<char>,
    action_key: Option<Seq<char>>,
    path: Seq<char>,
    fully_hash_path: bool,
) -> Seq<char> {
    if fully_hash_path {
        join_seq(head, path)
    } else {
        match action_key {
            Some(k) => join_seq(join_seq(head, action_key_dir(k)), path),
            None => join_seq(head, path),
        }
    }
}

/// The full hashed path of an owner's output under `base/prefix`.
pub open spec fn hashed_path_chars(
    owner: OwnerView,
    base: Seq<char>,
    prefix: Seq<char>,
    action_key: Option<Seq<char>>,
    path: Seq<char>,
    fully_hash_path: bool,
) -> Seq<char> {
    match owner {
        OwnerView::TargetLabel(t) => {
            let head = join_seq(
                join_seq(join_seq(base, prefix), t.cell),
                hash_hex_of_strings(target_hash_writes(t, action_key, path, fully_hash_path)),
            );
            target_tail_chars(t, head, action_key, path, fully_hash_path)
        },
        OwnerView::BxlLabel(b) => {
            let head = join_seq(
                join_seq(join_seq(base, prefix), seq!['b', 'x', 'l']),
                hash_hex_of_strings(label_hash_writes(b.label, action_key, path, fully_hash_path)),
            );
            label_tail_chars(head, action_key, path, fully_hash_path)
        },
        OwnerView::AnonTarget(a) => {
            let head = join_seq(
                join_seq(join_seq(base, prefix), seq!['a', 'n', 'o', 'n']),
                hash_hex_of_strings(label_hash_writes(a, action_key, path, fully_hash_path)),
            );
            label_tail_chars(head, action_key, path, fully_hash_path)
        },
    }
}

/// The spread, hash-free path of a target-label owner, if it has one.
pub open spec fn unhashed_path_chars(owner: OwnerView) -> Option<Seq<char>> {
    match owner {
        OwnerView::TargetLabel(t) => Some(
            join_seq(join_seq(t.cell, t.pkg), wrap_underscores(t.name)),
        ),
        _ => None,
    }
}

/// Builds `__name__` as it appears on disk.
fn wrap_underscores_exec(name: &str) -> (r: ForwardRelativePathBuf)
    ensures
        r@ == wrap_underscores(name@),
{
    let mut s = String::from_str("__");
    s.append(name);
    s.append("__");
    proof {
        reveal_strlit("__");
        assert(s@ =~= wrap_underscores(name@));
    }
    ForwardRelativePathBuf::unchecked_new(s)
}

/// Builds `__action__<k>__` as it appears on disk.
fn action_key_dir_exec(k: &str) -> (r: ForwardRelativePathBuf)
    ensures
        r@ == action_key_dir(k@),
{
    let mut s = String::from_str("__action__");
    s.append(k);
    s.append("__");
    proof {
        reveal_strlit("__action__");
        reveal_strlit("__");
        assert(s@ =~= action_key_dir(k@));
    }
    ForwardRelativePathBuf::unchecked_new(s)
}

impl BaseDeferredKey {
    /// An equal owner, built field by field.
    pub fn duplicate(&self) -> (r: Self)
        ensures
            r@ == self@,
    {
        match self {
            BaseDeferredKey::TargetLabel(t) => BaseDeferredKey::TargetLabel(t.duplicate()),
            BaseDeferredKey::BxlLabel(b) => BaseDeferredKey::BxlLabel(
                BxlKey {
                    label: b.label.clone(),
                    execution_platform: b.execution_platform.duplicate(),
                },
            ),
            BaseDeferredKey::AnonTarget(a) => BaseDeferredKey::AnonTarget(
                AnonTargetKey { label: a.label.clone() },
            ),
        }
    }

    /// Where an output of this owner lives under `base/prefix`: a hash
    /// segment buries the configuration (and, fully hashed, everything else
    /// identifying), the rest stays readable.
    pub fn make_hashed_path(
        &self,
        base: &ProjectRelativePathBuf,
        prefix: &ForwardRelativePathBuf,
        action_key: Option<&str>,
        path: &ForwardRelativePathBuf,
        fully_hash_path: bool,
    ) -> (r: ProjectRelativePathBuf)
        ensures
            r@ == hashed_path_chars(
                self@,
                base@,
                prefix@,
                match action_key {
                    Some(k) => Some(k@),
                    None => None,
                },
                path@,
                fully_hash_path,
            ),
    {
        let ghost key_view: Option<Seq<char>> = match action_key {
            Some(k) => Some(k@),
            None => None,
        };
        match self {
            BaseDeferredKey::TargetLabel(t) => {
                let mut writes: Vec<&str> = Vec::new();
                writes.push(t.cfg.full_name.as_str());
                if fully_hash_path {
                    writes.push(t.pkg.path.as_str());
                    writes.push(t.name.as_str());
                    match action_key {
                        Some(k) => writes.push(k),
                        None => (),
                    }
                    writes.push(path.as_str());
                }
                proof {
                    assert(writes@.map_values(|p: &str| p@) =~= target_hash_writes(
                        t@,
                        key_view,
                        path@,
                        fully_hash_path,
                    ));
                }
                let hash = ForwardRelativePathBuf::unchecked_new(hash_hex(&writes));
                let head = base.as_forward_relative_path().join(prefix).join(
                    &t.pkg.cell.as_path(),
                ).join(&hash);
                let r = if fully_hash_path {
                    head.join(path)
                } else {
                    let with_pkg = head.join(&t.pkg.path.as_forward_relative_path()).join(
                        &wrap_underscores_exec(t.name.as_str()),
                    );
                    match action_key {
                        Some(k) => with_pkg.join(&action_key_dir_exec(k)).join(path),
                        None => with_pkg.join(path),
                    }
                };
                ProjectRelativePathBuf::from_forward(r)
            },
            BaseDeferredKey::BxlLabel(b) => {
                let r = label_hashed_path(
                    b.label.as_str(),
                    "bxl",
                    base,
                    prefix,
                    action_key,
                    path,
                    fully_hash_path,
                );
                proof {
                    reveal_strlit("bxl");
                    assert("bxl"@ =~= seq!['b', 'x', 'l']);
                }
                r
            },
            BaseDeferredKey::AnonTarget(a) => {
                let r = label_hashed_path(
                    a.label.as_str(),
                    "anon",
                    base,
                    prefix,
                    action_key,
                    path,
                    fully_hash_path,
                );
                proof {
                    reveal_strlit("anon");
                    assert("anon"@ =~= seq!['a', 'n', 'o', 'n']);
                }
                r
            },
        }
    }

    /// The spread, hash-free location of a target-label owner's outputs;
    /// session and anonymous owners have none.
    pub fn make_unhashed_path(&self) -> (r: Option<ForwardRelativePathBuf>)
        ensures
            match r {
                Some(p) => unhashed_path_chars(self@) == Some(p@),
                None => unhashed_path_chars(self@) is None,
            },
    {
        match self {
            BaseDeferredKey::TargetLabel(t) => Some(
                t.pkg.cell.as_path().join(&t.pkg.path.as_forward_relative_path()).join(
                    &wrap_underscores_exec(t.name.as_str()),
                ),
            ),
            _ => None,
        }
    }
}

/// The hashed path of a session or anonymous owner: its kind's marker
/// segment, the hash, then the tail.
fn label_hashed_path(
    label: &str,
    marker: &str,
    base: &ProjectRelativePathBuf,
    prefix: &ForwardRelativePathBuf,
    action_key: Option<&str>,
    path: &ForwardRelativePathBuf,
    fully_hash_path: bool,
) -> (r: ProjectRelativePathBuf)
    ensures
        r@ == ({
            let key_view = match action_key {
                Some(k) => Some(k@),
                None => None,
            };
            let head = join_seq(
                join_seq(join_seq(base@, prefix@), marker@),
                hash_hex_of_strings(label_hash_writes(label@, key_view, path@, fully_hash_path)),
            );
            label_tail_chars(head, key_view, path@, fully_hash_path)
        }),
{
    let ghost key_view: Option<Seq<char>> = match action_key {
        Some(k) => Some(k@),
        None => None,
    };
    let mut writes: Vec<&str> = Vec::new();
    writes.push(label);
    if fully_hash_path {
        match action_key {
            Some(k) => writes.push(k),
            None => (),
        }
        writes.push(path.as_str());
    }
    proof {
        assert(writes@.map_values(|p: &str| p@) =~= label_hash_writes(
            label@,
            key_view,
            path@,
            fully_hash_path,
        ));
    }
    let hash = ForwardRelativePathBuf::unchecked_new(hash_hex(&writes));
    let head = base.as_forward_relative_path().join(prefix).join(
        &ForwardRelativePathBuf::unchecked_new(marker.to_owned()),
    ).join(&hash);
    let r = if fully_hash_path {
        head.join(path)
    } else {
        match action_key {
            Some(k) => head.join(&action_key_dir_exec(k)).join(path),
            None => head.join(path),
        }
    };
    ProjectRelativePathBuf::from_forward(r)
}

} // verus!
