//! Deferred nodes: keys, handles, dependency edges and the registry.
//!
//! A *deferred node* is a unit of work registered before it can run. Its key
//! is assigned by the graph-construction registry that accumulates newly
//! declared nodes; a typed handle carries the key together with the static
//! type of the eventual value. A node waits on *dependency edges*: another
//! deferred node, an artifact that must be materialized, or a configured
//! target whose metadata must be resolved first.

use vstd::prelude::*;

verus! {

use crate::base_deferred_key::BaseDeferredKey;
use crate::base_deferred_key::ExecutionPlatformResolution;
use crate::base_deferred_key::OwnerView;
use crate::paths::str_eq;
use crate::target::CfgTargetView;
use crate::target::ConfiguredTargetLabel;

/// The characters of an optional string.
pub open spec fn opt_view(o: Option<String>) -> Option<Seq<char>> {
    match o {
        Some(s) => Some(s@),
        None => None,
    }
}

/// Clones an optional string.
pub fn dup_opt_string(o: &Option<String>) -> (r: Option<String>)
    ensures
        opt_view(r) == opt_view(*o),
{
    match o {
        Some(s) => Some(s.clone()),
        None => None,
    }
}

/// The mathematical value of a deferred key.
#[verifier::ext_equal]
pub struct KeyView {
    pub owner: OwnerView,
    pub action_key: Option<Seq<char>>,
    pub id: int,
}

/// Identifies a registered deferred node: the owner the node's graph is
/// rooted at, the action identity it is nested under (if any), and the
/// number the registry assigned.
#[derive(Clone, Debug, Hash, PartialEq, Eq)]
pub struct DeferredKey {
    pub owner: BaseDeferredKey,
    pub action_key: Option<String>,
    pub id: usize,
}

impl View for DeferredKey {
    type V = KeyView;

    open spec fn view(&self) -> KeyView {
        KeyView { owner: self.owner@, action_key: opt_view(self.action_key), id: self.id as int }
    }
}

impl DeferredKey {
    /// An equal key, built field by field.
    pub fn duplicate(&self) -> (r: Self)
        ensures
            r@ == self@,
    {
        DeferredKey {
            owner: self.owner.duplicate(),
            action_key: dup_opt_string(&self.action_key),
            id: self.id,
        }
    }
}

/// An opaque, typed handle to a deferred node's eventual value: holding one
/// never implies the value has been computed.
#[derive(Debug, Hash, PartialEq, Eq)]
pub struct DeferredData<T> {
    pub key: DeferredKey,
    pub ty: core::marker::PhantomData<T>,
}

impl<T> View for DeferredData<T> {
    type V = KeyView;

    open spec fn view(&self) -> KeyView {
        self.key@
    }
}

impl<T> DeferredData<T> {
    /// Wraps a key as a typed handle.
    pub fn new(key: DeferredKey) -> (r: Self)
        ensures
            r@ == key@,
    {
        DeferredData { key, ty: core::marker::PhantomData }
    }

    /// The node's key.
    pub fn deferred_key(&self) -> (r: &DeferredKey)
        ensures
            r@ == self@,
    {
        &self.key
    }

    /// An equal handle.
    pub fn duplicate(&self) -> (r: Self)
        ensures
            r@ == self@,
    {
        DeferredData { key: self.key.duplicate(), ty: core::marker::PhantomData }
    }
}

/// What a node's `execute` resolves to: a concrete value, or a redirect to
/// another node's key that the caller must follow.
#[derive(Debug)]
pub enum DeferredValue<T> {
    Ready(T),
    Deferred(DeferredData<T>),
}

/// The identity of a materializable artifact.
#[derive(Clone, Debug, Hash, PartialEq, Eq)]
pub struct Artifact {
    pub name: String,
}

impl View for Artifact {
    type V = Seq<char>;

    open spec fn view(&self) -> Seq<char> {
        self.name@
    }
}

impl Artifact {
    /// An equal artifact identity.
    pub fn duplicate(&self) -> (r: Self)
        ensures
            r@ == self@,
    {
        Artifact { name: self.name.clone() }
    }
}

/// The mathematical value of a dependency edge.
#[verifier::ext_equal]
pub enum InputView {
    Deferred(KeyView),
    MaterializedArtifact(Seq<char>),
    ConfiguredTarget(CfgTargetView),
}

/// What a deferred node waits on: another node's value, an artifact on
/// disk, or a configured target's resolved metadata.
#[derive(Clone, Debug, Hash, PartialEq, Eq)]
pub enum DeferredInput {
    Deferred(DeferredKey),
    MaterializedArtifact(Artifact),
    ConfiguredTarget(ConfiguredTargetLabel),
}

impl View for DeferredInput {
    type V = InputView;

    open spec fn view(&self) -> InputView {
        match self {
            DeferredInput::Deferred(k) => InputView::Deferred(k@),
            DeferredInput::MaterializedArtifact(a) => InputView::MaterializedArtifact(a@),
            DeferredInput::ConfiguredTarget(t) => InputView::ConfiguredTarget(t@),
        }
    }
}

impl DeferredInput {
    /// An equal edge.
    pub fn duplicate(&self) -> (r: Self)
        ensures
            r@ == self@,
    {
        match self {
            DeferredInput::Deferred(k) => DeferredInput::Deferred(k.duplicate()),
            DeferredInput::MaterializedArtifact(a) => DeferredInput::MaterializedArtifact(
                a.duplicate(),
            ),
            DeferredInput::ConfiguredTarget(t) => DeferredInput::ConfiguredTarget(t.duplicate()),
        }
    }
}

/// The views of a sequence of edges.
pub open spec fn inputs_view(s: Seq<DeferredInput>) -> Seq<InputView> {
    s.map_values(|x: DeferredInput| x@)
}

/// The mathematical value of a graph-construction registry.
#[verifier::ext_equal]
pub struct RegistryView {
    pub base: OwnerView,
    pub action_key: Option<Seq<char>>,
    pub registered: Seq<KeyView>,
}

/// The mutable context of one graph-construction pass: it owns the key
/// space rooted at `base` and assigns each newly declared node the next
/// number. Exactly one registry is live for a context at any time; it moves
/// by ownership transfer, never by shared reference.
#[derive(Clone, Debug)]
pub struct DeferredRegistry {
    base: BaseDeferredKey,
    action_key: Option<String>,
    registered: Vec<DeferredKey>,
}

impl View for DeferredRegistry {
    type V = RegistryView;

    closed spec fn view(&self) -> RegistryView {
        RegistryView {
            base: self.base@,
            action_key: opt_view(self.action_key),
            registered: self.registered@.map_values(|k: DeferredKey| k@),
        }
    }
}

/// Every registered key is rooted at the registry's own base and holds the
/// number it was assigned in order.
pub open spec fn registry_view_wf(rv: RegistryView) -> bool {
    forall|j: int|
        0 <= j < rv.registered.len() ==> (#[trigger] rv.registered[j]).owner == rv.base
            && rv.registered[j].id == j
}

impl DeferredRegistry {
    /// Every registered key is rooted at the registry's own base and holds
    /// the number it was assigned in order.
    pub open spec fn wf(&self) -> bool {
        registry_view_wf(self@)
    }

    /// The action identity everything declared here is nested under.
    pub fn action_key_ref(&self) -> (r: &Option<String>)
        ensures
            opt_view(*r) == self@.action_key,
    {
        &self.action_key
    }

    /// A fresh, empty registry rooted at `base`.
    pub fn new(base: BaseDeferredKey) -> (r: Self)
        ensures
            r@ == (RegistryView {
                base: base@,
                action_key: None,
                registered: Seq::<KeyView>::empty(),
            }),
            r.wf(),
    {
        let r = DeferredRegistry { base, action_key: None, registered: Vec::new() };
        proof {
            assert(r@.registered =~= Seq::<KeyView>::empty());
        }
        r
    }

    /// Marks every node declared from here on as nested under the given
    /// action identity.
    pub fn set_action_key(&mut self, key: String)
        ensures
            final(self)@ == (RegistryView { action_key: Some(key@), ..old(self)@ }),
            old(self).wf() ==> final(self).wf(),
    {
        self.action_key = Some(key);
        proof {
            assert(self@.registered =~= old(self)@.registered);
        }
    }

    /// Declares a new node: assigns it the next key of this registry's key
    /// space and records it. The key is fresh: no earlier key carries its
    /// number.
    pub fn declare(&mut self) -> (r: DeferredKey)
        requires
            old(self).wf(),
        ensures
            final(self).wf(),
            r@ == (KeyView {
                owner: old(self)@.base,
                action_key: old(self)@.action_key,
                id: old(self)@.registered.len() as int,
            }),
            final(self)@ == (RegistryView {
                registered: old(self)@.registered.push(r@),
                ..old(self)@
            }),
            forall|j: int| 0 <= j < old(self)@.registered.len() ==> old(self)@.registered[j] != r@,
    {
        let id = self.registered.len();
        let key = DeferredKey {
            owner: self.base.duplicate(),
            action_key: dup_opt_string(&self.action_key),
            id,
        };
        let r = key.duplicate();
        self.registered.push(key);
        proof {
            assert(self@.registered =~= old(self)@.registered.push(r@));
        }
        r
    }

    /// The base the registry's key space is rooted at.
    pub fn base(&self) -> (r: &BaseDeferredKey)
        ensures
            r@ == self@.base,
    {
        &self.base
    }

    /// How many nodes have been declared.
    pub fn len(&self) -> (r: usize)
        ensures
            r == self@.registered.len(),
    {
        self.registered.len()
    }
}

/// The mathematical value of an execution context.
#[verifier::ext_equal]
pub struct CtxView {
    pub registry: RegistryView,
    pub action_key: Seq<char>,
    pub configured_targets: Seq<(CfgTargetView, Seq<char>)>,
    pub materialized: Seq<(Seq<char>, Seq<char>)>,
    pub digest_config: u64,
}

/// What the surrounding incremental engine hands a node for one execution:
/// the live registry slot, the node's action identity, and the values
/// reachable from the node's declared dependency edges — the execution
/// platform of resolved targets and the on-disk location of materialized
/// artifacts.
#[derive(Debug)]
pub struct DeferredCtx {
    pub registry: DeferredRegistry,
    pub action_key: String,
    pub configured_targets: Vec<(ConfiguredTargetLabel, ExecutionPlatformResolution)>,
    pub materialized: Vec<(Artifact, String)>,
    pub digest_config: u64,
}

impl View for DeferredCtx {
    type V = CtxView;

    open spec fn view(&self) -> CtxView {
        CtxView {
            registry: self.registry@,
            action_key: self.action_key@,
            configured_targets: self.configured_targets@.map_values(
                |e: (ConfiguredTargetLabel, ExecutionPlatformResolution)| (e.0@, e.1@),
            ),
            materialized: self.materialized@.map_values(|e: (Artifact, String)| (e.0@, e.1@)),
            digest_config: self.digest_config,
        }
    }
}

/// The first execution platform recorded for `t`, if any.
pub open spec fn lookup_platform(entries: Seq<(CfgTargetView, Seq<char>)>, t: CfgTargetView)
    -> Option<Seq<char>>
    decreases entries.len(),
{
    if entries.len() == 0 {
        None
    } else if entries[0].0 == t {
        Some(entries[0].1)
    } else {
        lookup_platform(entries.subrange(1, entries.len() as int), t)
    }
}

/// The first materialized location recorded for artifact `a`, if any.
pub open spec fn lookup_materialized(entries: Seq<(Seq<char>, Seq<char>)>, a: Seq<char>) -> Option<
    Seq<char>,
>
    decreases entries.len(),
{
    if entries.len() == 0 {
        None
    } else if entries[0].0 == a {
        Some(entries[0].1)
    } else {
        lookup_materialized(entries.subrange(1, entries.len() as int), a)
    }
}

/// Compares two configured target labels by value.
pub fn label_eq(a: &ConfiguredTargetLabel, b: &ConfiguredTargetLabel) -> (r: bool)
    ensures
        r == (a@ == b@),
{
    let r = str_eq(a.pkg.cell.name.as_str(), b.pkg.cell.name.as_str()) && str_eq(
        a.pkg.path.as_str(),
        b.pkg.path.as_str(),
    ) && str_eq(a.name.as_str(), b.name.as_str()) && str_eq(
        a.cfg.full_name.as_str(),
        b.cfg.full_name.as_str(),
    );
    r
}

impl DeferredCtx {
    /// The recorded execution platform of a configured target.
    pub fn get_configured_target(&self, t: &ConfiguredTargetLabel) -> (r: Option<
        &ExecutionPlatformResolution,
    >)
        ensures
            match r {
                Some(p) => lookup_platform(self@.configured_targets, t@) == Some(p@),
                None => lookup_platform(self@.configured_targets, t@) is None,
            },
    {
        let ghost all = self@.configured_targets;
        proof {
            assert(all.subrange(0, all.len() as int) =~= all);
        }
        let mut i: usize = 0;
        while i < self.configured_targets.len()
            invariant
                all == self@.configured_targets,
                i <= all.len(),
                lookup_platform(all.subrange(i as int, all.len() as int), t@) == lookup_platform(
                    all,
                    t@,
                ),
            decreases self.configured_targets@.len() - i,
        {
            proof {
                assert(all.subrange(i as int, all.len() as int).subrange(
                    1,
                    all.subrange(i as int, all.len() as int).len() as int,
                ) =~= all.subrange(i + 1, all.len() as int));
            }
            if label_eq(&self.configured_targets[i].0, t) {
                return Some(&self.configured_targets[i].1);
            }
            i += 1;
        }
        proof {
            assert(all.subrange(all.len() as int, all.len() as int) =~= Seq::<(
                CfgTargetView,
                Seq<char>,
            )>::empty());
        }
        None
    }

    /// The recorded on-disk location of a materialized artifact.
    pub fn get_materialized_artifact(&self, a: &Artifact) -> (r: Option<&String>)
        ensures
            match r {
                Some(p) => lookup_materialized(self@.materialized, a@) == Some(p@),
                None => lookup_materialized(self@.materialized, a@) is None,
            },
    {
        let ghost all = self@.materialized;
        proof {
            assert(all.subrange(0, all.len() as int) =~= all);
        }
        let mut i: usize = 0;
        while i < self.materialized.len()
            invariant
                all == self@.materialized,
                i <= all.len(),
                lookup_materialized(all.subrange(i as int, all.len() as int), a@)
                    == lookup_materialized(all, a@),
            decreases self.materialized@.len() - i,
        {
            proof {
                assert(all.subrange(i as int, all.len() as int).subrange(
                    1,
                    all.subrange(i as int, all.len() as int).len() as int,
                ) =~= all.subrange(i + 1, all.len() as int));
            }
            if str_eq(self.materialized[i].0.name.as_str(), a.name.as_str()) {
                return Some(&self.materialized[i].1);
            }
            i += 1;
        }
        proof {
            assert(all.subrange(all.len() as int, all.len() as int) =~= Seq::<(
                Seq<char>,
                Seq<char>,
            )>::empty());
        }
        None
    }

    /// The action identity of the node being executed.
    pub fn get_action_key(&self) -> (r: &String)
        ensures
            r@ == self@.action_key,
    {
        &self.action_key
    }

    /// The digest configuration the engine evaluates under.
    pub fn digest_config(&self) -> (r: u64)
        ensures
            r == self@.digest_config,
    {
        self.digest_config
    }
}

} // verus!
