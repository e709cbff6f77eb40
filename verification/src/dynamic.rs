//! Dynamic lambdas and their placeholder actions.
//!
//! A *dynamic lambda* is a deferred node that captures a callback and a list
//! of promised output artifacts. Executing it builds a nested sub-graph: the
//! execution context's registry is swapped out for a throwaway placeholder,
//! a fresh analysis registry rooted at the lambda's owner takes ownership of
//! the context's old registry (so nested keys continue its key space), the
//! callback runs against it, and the finalized registry is swapped back.
//! Every promised output must have been bound by the callback to a concrete
//! action; the ordered list of those actions' keys is the lambda's result.
//!
//! A *dynamic action* is a thin placeholder pointing at one indexed slot of
//! a lambda's result; resolving it only ever redirects to the key found at
//! that slot.
//!
//! The callback itself is untrusted user code run by an outside evaluator.
//! What the library sees of it is a `CallbackScript`: the sequence of
//! registrations it performed through the evaluation context, and its return
//! value, which must be empty.

use vstd::prelude::*;

verus! {

use crate::base_deferred_key::BaseDeferredKey;
use crate::base_deferred_key::ExecutionPlatformResolution;
use crate::base_deferred_key::OwnerView;
use crate::buck_out_path::BuckOutPath;
use crate::buck_out_path::BuckOutPathView;
use crate::deferred::Artifact;
use crate::deferred::CtxView;
use crate::deferred::DeferredCtx;
use crate::deferred::DeferredData;
use crate::deferred::DeferredInput;
use crate::deferred::DeferredKey;
use crate::deferred::DeferredRegistry;
use crate::deferred::DeferredValue;
use crate::deferred::InputView;
use crate::deferred::KeyView;
use crate::deferred::RegistryView;
use crate::deferred::inputs_view;
use crate::deferred::lookup_materialized;
use crate::deferred::lookup_platform;
use crate::index_set::input_set_contents;
use crate::index_set::input_set_get_index;
use crate::index_set::input_set_insert;
use crate::index_set::input_set_len;
use crate::index_set::input_set_new;

/// What kind of filesystem object an output is.
#[derive(Clone, Copy, Debug, PartialEq, Eq, Structural)]
pub enum OutputType {
    File,
    Directory,
    FileOrDirectory,
}

/// The key of a registered action node.
#[derive(Clone, Debug, Hash, PartialEq, Eq)]
pub struct ActionKey {
    pub key: DeferredKey,
}

impl View for ActionKey {
    type V = KeyView;

    open spec fn view(&self) -> KeyView {
        self.key@
    }
}

/// A node that performs a registered action; dynamic actions redirect to
/// nodes of this type.
#[derive(Debug)]
pub struct RegisteredAction {
    pub key: ActionKey,
}

impl ActionKey {
    /// An equal key.
    pub fn duplicate(&self) -> (r: Self)
        ensures
            r@ == self@,
    {
        ActionKey { key: self.key.duplicate() }
    }

    /// The key as a typed handle on the action's node.
    pub fn deferred_data(&self) -> (r: DeferredData<RegisteredAction>)
        ensures
            r@ == self@,
    {
        DeferredData::new(self.key.duplicate())
    }
}

/// The mathematical value of a promised output artifact.
#[verifier::ext_equal]
pub struct BuildArtifactView {
    pub path: BuckOutPathView,
    pub key: KeyView,
    pub output_type: OutputType,
}

/// An output artifact a rule has promised to produce, bound to the action
/// that produces it.
#[derive(Clone, Debug)]
pub struct BuildArtifact {
    pub path: BuckOutPath,
    pub key: ActionKey,
    pub output_type: OutputType,
}

impl View for BuildArtifact {
    type V = BuildArtifactView;

    open spec fn view(&self) -> BuildArtifactView {
        BuildArtifactView { path: self.path@, key: self.key@, output_type: self.output_type }
    }
}

impl BuildArtifact {
    /// An equal artifact, built field by field.
    pub fn duplicate(&self) -> (r: Self)
        ensures
            r@ == self@,
    {
        BuildArtifact {
            path: self.path.duplicate(),
            key: self.key.duplicate(),
            output_type: self.output_type,
        }
    }
}

/// The views of a sequence of promised outputs.
pub open spec fn build_artifact_views(s: Seq<BuildArtifact>) -> Seq<BuildArtifactView> {
    s.map_values(|b: BuildArtifact| b@)
}

/// The span-start description of a lambda's execution: who owns it.
#[derive(Debug)]
pub struct DynamicLambdaStart {
    pub owner: BaseDeferredKey,
}

/// The mathematical value of a declared artifact.
#[verifier::ext_equal]
pub struct DeclaredArtifactView {
    pub path: BuckOutPathView,
    pub output_type: OutputType,
    pub bound: Option<KeyView>,
}

/// An artifact declared during one graph-construction pass; unbound until
/// some registered action claims to produce it.
#[derive(Clone, Debug)]
pub struct DeclaredArtifact {
    pub path: BuckOutPath,
    pub output_type: OutputType,
    pub bound: Option<ActionKey>,
}

impl View for DeclaredArtifact {
    type V = DeclaredArtifactView;

    open spec fn view(&self) -> DeclaredArtifactView {
        DeclaredArtifactView {
            path: self.path@,
            output_type: self.output_type,
            bound: match self.bound {
                Some(k) => Some(k@),
                None => None,
            },
        }
    }
}

/// The internal, should-be-unreachable failures of the mechanism.
#[derive(Clone, Copy, Debug, PartialEq, Eq, Structural)]
pub enum InternalErrorKind {
    /// `bind` was called on an already bound lambda.
    AttributesLambdaAlreadySet,
    /// The lambda was executed without ever being bound.
    AttributesLambdaNotSet,
    /// A callback operation named an artifact handle that does not exist.
    InvalidOutputHandle,
    /// A callback operation bound an artifact that was already bound.
    OutputAlreadyBound,
    /// A promised output was never bound by the callback.
    UnboundOutput,
    /// A dynamic action's single edge is not a deferred-node edge.
    WrongDynamicActionInput,
    /// A dynamic action's lambda has no value under its key.
    MissingDeferredData,
    /// A dynamic action's slot index lies past its lambda's output list.
    UnexpectedIndex,
}

/// The mathematical value of an execution error.
#[verifier::ext_equal]
pub enum ErrView {
    AnonTargetIncompatible,
    LambdaMustReturnNone(Seq<char>),
    Internal(InternalErrorKind),
}

/// Why a dynamic lambda or dynamic action failed.
#[derive(Clone, Debug, PartialEq, Eq)]
pub enum DynamicLambdaError {
    /// Anonymous-target owners are incompatible with this mechanism.
    AnonTargetIncompatible,
    /// The callback returned a value; the string describes it.
    LambdaMustReturnNone(String),
    /// An engine-internal invariant was broken.
    Internal(InternalErrorKind),
}

impl View for DynamicLambdaError {
    type V = ErrView;

    open spec fn view(&self) -> ErrView {
        match self {
            DynamicLambdaError::AnonTargetIncompatible => ErrView::AnonTargetIncompatible,
            DynamicLambdaError::LambdaMustReturnNone(d) => ErrView::LambdaMustReturnNone(d@),
            DynamicLambdaError::Internal(k) => ErrView::Internal(*k),
        }
    }
}

/// The diagnostic text of an internal failure.
pub open spec fn internal_message_chars(k: InternalErrorKind) -> Seq<char> {
    match k {
        InternalErrorKind::AttributesLambdaAlreadySet => "`attributes_lambda` field already set"@,
        InternalErrorKind::AttributesLambdaNotSet => "attributes_lambda not set"@,
        InternalErrorKind::InvalidOutputHandle => "callback bound an unknown artifact"@,
        InternalErrorKind::OutputAlreadyBound => "callback bound an artifact twice"@,
        InternalErrorKind::UnboundOutput => "a declared output was never bound"@,
        InternalErrorKind::WrongDynamicActionInput => "DynamicAction must have a single Deferred as its input"@,
        InternalErrorKind::MissingDeferredData => "no value under the DynamicAction's key"@,
        InternalErrorKind::UnexpectedIndex => "Unexpected index in DynamicAction"@,
    }
}

/// The diagnostic text of an execution error.
pub open spec fn message_chars(e: ErrView) -> Seq<char> {
    match e {
        ErrView::AnonTargetIncompatible => "dynamic_output and anon_target cannot be used together (yet)"@,
        ErrView::LambdaMustReturnNone(d) => "dynamic_output lambda must return `None`, got: `"@
            + d + "`"@,
        ErrView::Internal(k) => internal_message_chars(k),
    }
}

impl DynamicLambdaError {
    /// The error as user-facing diagnostic text.
    pub fn message(&self) -> (r: String)
        ensures
            r@ == message_chars(self@),
    {
        match self {
            DynamicLambdaError::AnonTargetIncompatible => String::from_str(
                "dynamic_output and anon_target cannot be used together (yet)",
            ),
            DynamicLambdaError::LambdaMustReturnNone(d) => {
                let mut s = String::from_str("dynamic_output lambda must return `None`, got: `");
                s.append(d.as_str());
                s.append("`");
                proof {
                    assert(s@ =~= message_chars(self@));
                }
                s
            },
            DynamicLambdaError::Internal(k) => match k {
                InternalErrorKind::AttributesLambdaAlreadySet => String::from_str(
                    "`attributes_lambda` field already set",
                ),
                InternalErrorKind::AttributesLambdaNotSet => String::from_str(
                    "attributes_lambda not set",
                ),
                InternalErrorKind::InvalidOutputHandle => String::from_str(
                    "callback bound an unknown artifact",
                ),
                InternalErrorKind::OutputAlreadyBound => String::from_str(
                    "callback bound an artifact twice",
                ),
                InternalErrorKind::UnboundOutput => String::from_str(
                    "a declared output was never bound",
                ),
                InternalErrorKind::WrongDynamicActionInput => String::from_str(
                    "DynamicAction must have a single Deferred as its input",
                ),
                InternalErrorKind::MissingDeferredData => String::from_str(
                    "no value under the DynamicAction's key",
                ),
                InternalErrorKind::UnexpectedIndex => String::from_str(
                    "Unexpected index in DynamicAction",
                ),
            },
        }
    }

    /// An equal error, built field by field.
    pub fn duplicate(&self) -> (r: Self)
        ensures
            r@ == self@,
    {
        match self {
            DynamicLambdaError::AnonTargetIncompatible => DynamicLambdaError::AnonTargetIncompatible,
            DynamicLambdaError::LambdaMustReturnNone(d) => DynamicLambdaError::LambdaMustReturnNone(
                d.clone(),
            ),
            DynamicLambdaError::Internal(k) => DynamicLambdaError::Internal(*k),
        }
    }
}

/// What a callback returned: nothing, or a value described for diagnostics.
#[derive(Clone, Debug, PartialEq, Eq)]
pub enum CallbackReturn {
    NoneValue,
    Value(String),
}

/// One registration a callback performed through its evaluation context.
#[derive(Clone, Debug)]
pub enum CallbackOp {
    /// Declare a further output artifact in the nested registry.
    DeclareArtifact { path: BuckOutPath, output_type: OutputType },
    /// Register an action producing the artifacts with the given handles.
    RegisterAction { bound_outputs: Vec<usize> },
}

/// The observable behavior of one callback invocation: the registrations it
/// performed, in order, and its return value.
#[derive(Clone, Debug)]
pub struct CallbackScript {
    pub ops: Vec<CallbackOp>,
    pub return_value: CallbackReturn,
}

/// What `bind` captures: the rule's attributes, its plugins, and the
/// callback, each frozen by the evaluator that produced them.
#[derive(Clone, Debug)]
pub struct DynamicLambdaParams {
    pub attributes: String,
    pub plugins: String,
    pub lambda: CallbackScript,
}

/// The mathematical value of an analysis registry.
#[verifier::ext_equal]
pub struct AnalysisRegistryView {
    pub owner: OwnerView,
    pub execution_platform: Seq<char>,
    pub deferred: RegistryView,
    pub declared: Seq<DeclaredArtifactView>,
}

/// The registry of one nested graph-construction pass: it owns the
/// surrounding context's deferred registry for the duration of the pass, so
/// nested keys continue the same key space, and accumulates the artifacts
/// declared by the callback.
#[derive(Debug)]
pub struct AnalysisRegistry {
    owner: BaseDeferredKey,
    execution_platform: ExecutionPlatformResolution,
    deferred: DeferredRegistry,
    declared: Vec<DeclaredArtifact>,
}

impl View for AnalysisRegistry {
    type V = AnalysisRegistryView;

    closed spec fn view(&self) -> AnalysisRegistryView {
        AnalysisRegistryView {
            owner: self.owner@,
            execution_platform: self.execution_platform@,
            deferred: self.deferred@,
            declared: self.declared@.map_values(|d: DeclaredArtifact| d@),
        }
    }
}

/// Declaring an artifact: it enters the registry's list, re-keyed under the
/// registry's action identity, unbound.
pub open spec fn spec_declare_artifact(
    reg: AnalysisRegistryView,
    path: BuckOutPathView,
    output_type: OutputType,
) -> AnalysisRegistryView {
    AnalysisRegistryView {
        declared: reg.declared.push(
            DeclaredArtifactView {
                path: BuckOutPathView {
                    owner: path.owner,
                    action_key: reg.deferred.action_key,
                    path: path.path,
                },
                output_type,
                bound: None,
            },
        ),
        ..reg
    }
}

/// Binding the handles of `bound`, one at a time, to action key `key`:
/// stops at the first handle that does not exist or is already bound,
/// returning the state reached and the error.
pub open spec fn spec_apply_binds(
    declared: Seq<DeclaredArtifactView>,
    bound: Seq<usize>,
    key: KeyView,
) -> (Seq<DeclaredArtifactView>, Option<InternalErrorKind>)
    decreases bound.len(),
{
    if bound.len() == 0 {
        (declared, None)
    } else {
        let h = bound[0] as int;
        if h >= declared.len() {
            (declared, Some(InternalErrorKind::InvalidOutputHandle))
        } else if declared[h].bound is Some {
            (declared, Some(InternalErrorKind::OutputAlreadyBound))
        } else {
            spec_apply_binds(
                declared.update(h, DeclaredArtifactView { bound: Some(key), ..declared[h] }),
                bound.subrange(1, bound.len() as int),
                key,
            )
        }
    }
}

/// Registering an action: a fresh key of the nested key space, then the
/// requested bindings.
pub open spec fn spec_register_action(reg: AnalysisRegistryView, bound: Seq<usize>) -> (
    AnalysisRegistryView,
    Option<InternalErrorKind>,
    KeyView,
) {
    let key = KeyView {
        owner: reg.deferred.base,
        action_key: reg.deferred.action_key,
        id: reg.deferred.registered.len() as int,
    };
    let deferred2 = RegistryView { registered: reg.deferred.registered.push(key), ..reg.deferred };
    let (declared2, err) = spec_apply_binds(reg.declared, bound, key);
    (AnalysisRegistryView { deferred: deferred2, declared: declared2, ..reg }, err, key)
}

/// One callback registration applied to the registry.
pub open spec fn spec_apply_op(reg: AnalysisRegistryView, op: CallbackOp) -> (
    AnalysisRegistryView,
    Option<InternalErrorKind>,
) {
    match op {
        CallbackOp::DeclareArtifact { path, output_type } => (
            spec_declare_artifact(reg, path@, output_type),
            None,
        ),
        CallbackOp::RegisterAction { bound_outputs } => {
            let (reg2, err, _key) = spec_register_action(reg, bound_outputs@);
            (reg2, err)
        },
    }
}

/// A whole callback invocation applied to the registry: registrations in
/// order, stopping at the first failure.
pub open spec fn spec_apply_ops(reg: AnalysisRegistryView, ops: Seq<CallbackOp>) -> (
    AnalysisRegistryView,
    Option<InternalErrorKind>,
)
    decreases ops.len(),
{
    if ops.len() == 0 {
        (reg, None)
    } else {
        let (reg2, err) = spec_apply_op(reg, ops[0]);
        match err {
            Some(k) => (reg2, Some(k)),
            None => spec_apply_ops(reg2, ops.subrange(1, ops.len() as int)),
        }
    }
}

impl AnalysisRegistry {
    /// Takes ownership of the context's deferred registry for a nested pass
    /// rooted at `owner`, which must be the registry's own base: the nested
    /// pass continues the same key space rather than opening a second one.
    pub fn new_from_owner_and_deferred(
        owner: BaseDeferredKey,
        execution_platform: ExecutionPlatformResolution,
        deferred: DeferredRegistry,
    ) -> (r: Self)
        requires
            deferred@.base == owner@,
        ensures
            r@ == (AnalysisRegistryView {
                owner: owner@,
                execution_platform: execution_platform@,
                deferred: deferred@,
                declared: Seq::<DeclaredArtifactView>::empty(),
            }),
    {
        let r = AnalysisRegistry {
            owner,
            execution_platform,
            deferred,
            declared: Vec::new(),
        };
        proof {
            assert(r@.declared =~= Seq::<DeclaredArtifactView>::empty());
        }
        r
    }

    /// Marks everything declared from here on as nested under the given
    /// action identity.
    pub fn set_action_key(&mut self, key: String)
        ensures
            final(self)@ == (AnalysisRegistryView {
                deferred: RegistryView { action_key: Some(key@), ..old(self)@.deferred },
                ..old(self)@
            }),
    {
        self.deferred.set_action_key(key);
        proof {
            assert(self@.declared =~= old(self)@.declared);
        }
    }

    /// Declares one artifact, returning its handle.
    pub fn declare_dynamic_output(&mut self, path: &BuckOutPath, output_type: OutputType) -> (h:
        usize)
        ensures
            final(self)@ == spec_declare_artifact(old(self)@, path@, output_type),
            h == old(self)@.declared.len(),
    {
        let h = self.declared.len();
        let action_key = crate::deferred::dup_opt_string(self.deferred.action_key_ref());
        let declared = DeclaredArtifact {
            path: path.with_action_key(action_key),
            output_type,
            bound: None,
        };
        self.declared.push(declared);
        proof {
            assert(self@.declared =~= spec_declare_artifact(old(self)@, path@, output_type)
                .declared);
        }
        h
    }

    /// Registers an action producing the artifacts named by `bound_outputs`:
    /// assigns the action a fresh key of the nested key space and binds each
    /// handle to it. A handle that does not exist or is already bound is an
    /// internal error; bindings made before the failing one stand, as the
    /// whole pass is discarded on failure.
    #[verifier::loop_isolation(false)]
    pub fn register_action(&mut self, bound_outputs: &Vec<usize>) -> (r: Result<
        ActionKey,
        InternalErrorKind,
    >)
        requires
            old(self).wf(),
        ensures
            final(self).wf(),
            ({
                let (reg2, err, key) = spec_register_action(old(self)@, bound_outputs@);
                &&& final(self)@ == reg2
                &&& match r {
                    Ok(k) => err is None && k@ == key,
                    Err(e) => err == Some(e),
                }
            }),
    {
        let ghost reg0 = self@;
        let key = self.deferred.declare();
        let key = ActionKey { key };
        let ghost key_v = key@;
        let ghost reg1 = self@;
        let ghost declared0 = self@.declared;
        proof {
            assert(key_v == spec_register_action(reg0, bound_outputs@).2);
            assert(reg1.deferred == spec_register_action(reg0, bound_outputs@).0.deferred);
            assert(bound_outputs@.subrange(0, bound_outputs@.len() as int) =~= bound_outputs@);
        }
        let mut i: usize = 0;
        while i < bound_outputs.len()
            invariant
                i <= bound_outputs@.len(),
                spec_apply_binds(declared0, bound_outputs@, key_v) == spec_apply_binds(
                    self@.declared,
                    bound_outputs@.subrange(i as int, bound_outputs@.len() as int),
                    key_v,
                ),
                declared0 == reg0.declared,
                reg1.deferred == spec_register_action(reg0, bound_outputs@).0.deferred,
                key_v == spec_register_action(reg0, bound_outputs@).2,
                self@.owner == reg1.owner,
                self@.execution_platform == reg1.execution_platform,
                self@.deferred == reg1.deferred,
                self.wf(),
                key@ == key_v,
            decreases bound_outputs@.len() - i,
        {
            let ghost rest = bound_outputs@.subrange(i as int, bound_outputs@.len() as int);
            proof {
                assert(rest[0] == bound_outputs@[i as int]);
                lemma_subrange_step(bound_outputs@, i as int);
            }
            let h = bound_outputs[i];
            if h >= self.declared.len() {
                proof {
                    assert(spec_apply_binds(self@.declared, rest, key_v) == (
                        self@.declared,
                        Some(InternalErrorKind::InvalidOutputHandle),
                    ));
                }
                return Err(InternalErrorKind::InvalidOutputHandle);
            }
            let already = match &self.declared[h].bound {
                Some(_) => true,
                None => false,
            };
            if already {
                proof {
                    assert(spec_apply_binds(self@.declared, rest, key_v) == (
                        self@.declared,
                        Some(InternalErrorKind::OutputAlreadyBound),
                    ));
                }
                return Err(InternalErrorKind::OutputAlreadyBound);
            }
            let ghost decl_before = self@.declared;
            let path = self.declared[h].path.duplicate();
            let output_type = self.declared[h].output_type;
            self.declared[h] = DeclaredArtifact { path, output_type, bound: Some(key.duplicate()) };
            proof {
                assert(self@.declared =~= decl_before.update(
                    h as int,
                    DeclaredArtifactView { bound: Some(key_v), ..decl_before[h as int] },
                ));
            }
            i += 1;
        }
        proof {
            assert(bound_outputs@.subrange(
                bound_outputs@.len() as int,
                bound_outputs@.len() as int,
            ) =~= Seq::<usize>::empty());
        }
        Ok(key)
    }

    /// Every key of the nested key space is rooted at the registry's owner
    /// and numbered in order.
    pub open spec fn wf(&self) -> bool {
        &&& crate::deferred::registry_view_wf(self@.deferred)
        &&& self@.deferred.base == self@.owner
    }

    /// Ends the nested pass: gives back the deferred registry, to be swapped
    /// into the surrounding context, and the declared artifacts with their
    /// final bindings.
    pub fn finalize(self) -> (r: (DeferredRegistry, Vec<DeclaredArtifact>))
        ensures
            r.0@ == self@.deferred,
            r.1@.map_values(|d: DeclaredArtifact| d@) == self@.declared,
            self.wf() ==> r.0.wf(),
    {
        (self.deferred, self.declared)
    }
}

proof fn lemma_subrange_step(s: Seq<usize>, i: int)
    requires
        0 <= i < s.len(),
    ensures
        s.subrange(i, s.len() as int).subrange(1, s.subrange(i, s.len() as int).len() as int)
            =~= s.subrange(i + 1, s.len() as int),
{
}

/// Appends `x` unless an equal edge is already present.
pub open spec fn push_dedup(s: Seq<InputView>, x: InputView) -> Seq<InputView> {
    if s.contains(x) {
        s
    } else {
        s.push(x)
    }
}

/// Appends each of `xs` in order, dropping duplicates.
pub open spec fn fold_dedup(s: Seq<InputView>, xs: Seq<InputView>) -> Seq<InputView>
    decreases xs.len(),
{
    if xs.len() == 0 {
        s
    } else {
        fold_dedup(push_dedup(s, xs[0]), xs.subrange(1, xs.len() as int))
    }
}

proof fn lemma_fold_dedup_push(s: Seq<InputView>, xs: Seq<InputView>, x: InputView)
    ensures
        fold_dedup(s, xs.push(x)) == push_dedup(fold_dedup(s, xs), x),
    decreases xs.len(),
{
    if xs.len() == 0 {
        assert(xs.push(x)[0] == x);
        assert(xs.push(x).subrange(1, xs.push(x).len() as int) =~= Seq::<InputView>::empty());
        assert(fold_dedup(s, xs) == s);
        assert(fold_dedup(s, xs.push(x)) == fold_dedup(
            push_dedup(s, x),
            Seq::<InputView>::empty(),
        ));
        assert(fold_dedup(push_dedup(s, x), Seq::<InputView>::empty()) == push_dedup(s, x));
    } else {
        let tail = xs.subrange(1, xs.len() as int);
        assert(xs.push(x)[0] == xs[0]);
        assert(xs.push(x).subrange(1, xs.push(x).len() as int) =~= tail.push(x));
        assert(fold_dedup(s, xs.push(x)) == fold_dedup(push_dedup(s, xs[0]), tail.push(x)));
        assert(fold_dedup(s, xs) == fold_dedup(push_dedup(s, xs[0]), tail));
        lemma_fold_dedup_push(push_dedup(s, xs[0]), tail, x);
    }
}

/// The implicit edges an owner brings: a target-label owner waits on its own
/// configured target's resolution; session owners resolve their platform
/// themselves; anonymous owners fail before any edge matters.
pub open spec fn initial_inputs(owner: OwnerView) -> Seq<InputView> {
    match owner {
        OwnerView::TargetLabel(t) => seq![InputView::ConfiguredTarget(t)],
        _ => Seq::<InputView>::empty(),
    }
}

/// The dependency edges of a lambda: the owner's implicit edge, then one
/// materialized-artifact edge per requested artifact, first occurrence kept.
pub open spec fn lambda_input_views(owner: OwnerView, artifacts: Seq<Seq<char>>) -> Seq<
    InputView,
> {
    fold_dedup(
        initial_inputs(owner),
        artifacts.map_values(|a: Seq<char>| InputView::MaterializedArtifact(a)),
    )
}

/// The lambda captured by a dynamic-output declaration, alongside the other
/// required data: its owner, the dependency edges it waits on, the output
/// artifacts it promises to bind, and — once `bind` is called — the callback
/// with its frozen attributes.
#[derive(Debug)]
pub struct DynamicLambda {
    owner: BaseDeferredKey,
    dynamic: indexmap::IndexSet<DeferredInput>,
    outputs: Vec<BuildArtifact>,
    attributes_lambda: Option<DynamicLambdaParams>,
}

impl DynamicLambda {
    /// The owner, as a spec-level value.
    pub closed spec fn owner_view(&self) -> OwnerView {
        self.owner@
    }

    /// The dependency edges, in insertion order.
    pub closed spec fn dynamic_contents(&self) -> Seq<DeferredInput> {
        input_set_contents(self.dynamic)
    }

    /// The promised output artifacts, in declaration order.
    pub closed spec fn outputs_seq(&self) -> Seq<BuildArtifact> {
        self.outputs@
    }

    /// The captured callback and attributes, once bound.
    pub closed spec fn params_opt(&self) -> Option<DynamicLambdaParams> {
        self.attributes_lambda
    }

    /// The lambda's edges are artifact and target edges only, never edges on
    /// other deferred nodes.
    pub open spec fn wf(&self) -> bool {
        forall|j: int|
            0 <= j < self.dynamic_contents().len() ==> !((
            #[trigger] self.dynamic_contents()[j])@ is Deferred)
    }

    /// Declares a dynamic lambda: a target-label owner adds an implicit edge
    /// on its configured target, then each requested artifact becomes a
    /// materialized-artifact edge, duplicates dropped. The lambda starts
    /// unbound.
    #[verifier::loop_isolation(false)]
    pub fn new(owner: BaseDeferredKey, dynamic: Vec<Artifact>, outputs: Vec<BuildArtifact>) -> (r:
        Self)
        ensures
            r.owner_view() == owner@,
            inputs_view(r.dynamic_contents()) == lambda_input_views(
                owner@,
                dynamic@.map_values(|a: Artifact| a@),
            ),
            r.outputs_seq() == outputs@,
            r.params_opt() is None,
            r.wf(),
    {
        let ghost arts: Seq<InputView> = dynamic@.map_values(|a: Artifact| a@).map_values(
            |a: Seq<char>| InputView::MaterializedArtifact(a),
        );
        let mut depends = input_set_new();
        match &owner {
            BaseDeferredKey::TargetLabel(t) => {
                let e = DeferredInput::ConfiguredTarget(t.duplicate());
                proof {
                    assert(inputs_view(input_set_contents(depends)) =~= Seq::<InputView>::empty());
                }
                input_set_insert(&mut depends, e);
                proof {
                    assert(inputs_view(input_set_contents(depends)) =~= initial_inputs(owner@));
                }
            },
            _ => {
                proof {
                    assert(inputs_view(input_set_contents(depends)) =~= initial_inputs(owner@));
                }
            },
        }
        let mut i: usize = 0;
        while i < dynamic.len()
            invariant
                i <= dynamic@.len(),
                arts == dynamic@.map_values(|a: Artifact| a@).map_values(
                    |a: Seq<char>| InputView::MaterializedArtifact(a),
                ),
                inputs_view(input_set_contents(depends)) == fold_dedup(
                    initial_inputs(owner@),
                    arts.subrange(0, i as int),
                ),
                forall|j: int|
                    0 <= j < input_set_contents(depends).len() ==> !((
                    #[trigger] input_set_contents(depends)[j])@ is Deferred),
            decreases dynamic@.len() - i,
        {
            let e = DeferredInput::MaterializedArtifact(dynamic[i].duplicate());
            let ghost before = input_set_contents(depends);
            input_set_insert(&mut depends, e);
            proof {
                assert(arts.subrange(0, i + 1) =~= arts.subrange(0, i as int).push(
                    arts[i as int],
                ));
                lemma_fold_dedup_push(
                    initial_inputs(owner@),
                    arts.subrange(0, i as int),
                    arts[i as int],
                );
                if inputs_view(before).contains(e@) {
                } else {
                    assert(inputs_view(before.push(e)) =~= inputs_view(before).push(e@));
                }
            }
            i += 1;
        }
        proof {
            assert(arts.subrange(0, arts.len() as int) =~= arts);
        }
        DynamicLambda { owner, dynamic: depends, outputs, attributes_lambda: None }
    }

    /// The declared dependency edges, in insertion order.
    pub fn inputs(&self) -> (r: Vec<DeferredInput>)
        ensures
            inputs_view(r@) == inputs_view(self.dynamic_contents()),
    {
        let n = input_set_len(&self.dynamic);
        let mut r: Vec<DeferredInput> = Vec::new();
        let mut i: usize = 0;
        while i < n
            invariant
                i <= n,
                n == self.dynamic_contents().len(),
                r@.len() == i,
                forall|j: int|
                    0 <= j < i ==> (#[trigger] r@[j])@ == self.dynamic_contents()[j]@,
            decreases n - i,
        {
            match input_set_get_index(&self.dynamic, i) {
                Some(x) => {
                    r.push(x.duplicate());
                },
                None => {
                    proof {
                        assert(false);
                    }
                },
            }
            i += 1;
        }
        proof {
            assert forall|j: int| 0 <= j < r@.len() implies inputs_view(r@)[j] == inputs_view(
                self.dynamic_contents(),
            )[j] by {
                assert(inputs_view(r@)[j] == r@[j]@);
                assert(inputs_view(self.dynamic_contents())[j] == self.dynamic_contents()[j]@);
            }
            assert(inputs_view(r@) =~= inputs_view(self.dynamic_contents()));
        }
        r
    }

    /// The promised outputs, for a caller that wants to know what this node
    /// will produce.
    pub fn provide_outputs(&self) -> (r: Vec<BuildArtifact>)
        ensures
            build_artifact_views(r@) == build_artifact_views(self.outputs_seq()),
    {
        let mut r: Vec<BuildArtifact> = Vec::new();
        let mut i: usize = 0;
        while i < self.outputs.len()
            invariant
                i <= self.outputs@.len(),
                r@.len() == i,
                forall|j: int| 0 <= j < i ==> (#[trigger] r@[j])@ == self.outputs@[j]@,
            decreases self.outputs@.len() - i,
        {
            r.push(self.outputs[i].duplicate());
            i += 1;
        }
        proof {
            assert forall|j: int| 0 <= j < r@.len() implies build_artifact_views(r@)[j]
                == build_artifact_views(self.outputs@)[j] by {
                assert(build_artifact_views(r@)[j] == r@[j]@);
                assert(build_artifact_views(self.outputs@)[j] == self.outputs@[j]@);
            }
            assert(build_artifact_views(r@) =~= build_artifact_views(self.outputs@));
        }
        r
    }

    /// The tracing span this node starts, for observability; carries only
    /// the owner.
    pub fn span(&self) -> (r: Option<DynamicLambdaStart>)
        ensures
            r matches Some(s) && s.owner@ == self.owner_view(),
    {
        Some(DynamicLambdaStart { owner: self.owner.duplicate() })
    }

    /// Captures the callback; a lambda is bound exactly once, a second bind
    /// is a fatal internal error.
    pub fn bind(&mut self, attributes_lambda: DynamicLambdaParams) -> (r: Result<
        (),
        DynamicLambdaError,
    >)
        ensures
            old(self).params_opt() is None ==> {
                &&& r is Ok
                &&& final(self).params_opt() == Some(attributes_lambda)
                &&& final(self).owner_view() == old(self).owner_view()
                &&& final(self).dynamic_contents() == old(self).dynamic_contents()
                &&& final(self).outputs_seq() == old(self).outputs_seq()
            },
            old(self).params_opt() is Some ==> {
                &&& r matches Err(e) && e@ == ErrView::Internal(
                    InternalErrorKind::AttributesLambdaAlreadySet,
                )
                &&& *final(self) == *old(self)
            },
    {
        match &self.attributes_lambda {
            Some(_) => Err(
                DynamicLambdaError::Internal(InternalErrorKind::AttributesLambdaAlreadySet),
            ),
            None => {
                self.attributes_lambda = Some(attributes_lambda);
                Ok(())
            },
        }
    }
}

/// The throwaway registry left in the context's slot while a nested pass
/// owns the real one: empty, rooted at the lambda's owner.
pub open spec fn placeholder_registry(owner: OwnerView) -> RegistryView {
    RegistryView { base: owner, action_key: None, registered: Seq::<KeyView>::empty() }
}

/// The execution platform an owner resolves to: target-label owners read the
/// already-resolved configured target, session owners carry their own.
pub open spec fn platform_of(owner: OwnerView, ctx: CtxView) -> Option<Seq<char>> {
    match owner {
        OwnerView::TargetLabel(t) => lookup_platform(ctx.configured_targets, t),
        OwnerView::BxlLabel(b) => Some(b.platform),
        OwnerView::AnonTarget(_) => None,
    }
}

/// The promised outputs as they stand in the nested registry before the
/// callback runs: re-keyed under the lambda's action identity, unbound.
pub open spec fn seed_declared(outputs: Seq<BuildArtifactView>, action_key: Seq<char>) -> Seq<
    DeclaredArtifactView,
> {
    outputs.map_values(
        |b: BuildArtifactView|
            DeclaredArtifactView {
                path: BuckOutPathView {
                    owner: b.path.owner,
                    action_key: Some(action_key),
                    path: b.path.path,
                },
                output_type: b.output_type,
                bound: None,
            },
    )
}

/// The nested registry as the callback first sees it: rooted at the lambda's
/// owner, continuing the context's key space under the lambda's action
/// identity, with every promised output declared in order.
pub open spec fn nested_registry_start(
    owner: OwnerView,
    outputs: Seq<BuildArtifactView>,
    ctx: CtxView,
) -> AnalysisRegistryView {
    AnalysisRegistryView {
        owner,
        execution_platform: match platform_of(owner, ctx) {
            Some(p) => p,
            None => Seq::<char>::empty(),
        },
        deferred: RegistryView { action_key: Some(ctx.action_key), ..ctx.registry },
        declared: seed_declared(outputs, ctx.action_key),
    }
}

/// The on-disk location recorded for artifact `a`, empty if none is.
pub open spec fn mat_of(mats: Seq<(Seq<char>, Seq<char>)>, a: Seq<char>) -> Seq<char> {
    match lookup_materialized(mats, a) {
        Some(p) => p,
        None => Seq::<char>::empty(),
    }
}

/// The input mapping handed to the callback: one entry per materialized-
/// artifact edge, in edge order, pairing the artifact with its location;
/// configuration edges only order evaluation and are skipped.
/// The entry an edge contributes to the input mapping: one pair for a
/// materialized-artifact edge, nothing for any other.
pub open spec fn input_mapping_entry(x: DeferredInput, mats: Seq<(Seq<char>, Seq<char>)>) -> Seq<
    (Seq<char>, Seq<char>),
> {
    match x {
        DeferredInput::MaterializedArtifact(a) => seq![(a@, mat_of(mats, a@))],
        _ => Seq::<(Seq<char>, Seq<char>)>::empty(),
    }
}

pub open spec fn input_mapping(
    contents: Seq<DeferredInput>,
    mats: Seq<(Seq<char>, Seq<char>)>,
) -> Seq<(Seq<char>, Seq<char>)>
    decreases contents.len(),
{
    if contents.len() == 0 {
        Seq::<(Seq<char>, Seq<char>)>::empty()
    } else {
        input_mapping_entry(contents[0], mats) + input_mapping(
            contents.subrange(1, contents.len() as int),
            mats,
        )
    }
}

proof fn lemma_input_mapping_snoc(
    contents: Seq<DeferredInput>,
    x: DeferredInput,
    mats: Seq<(Seq<char>, Seq<char>)>,
)
    ensures
        input_mapping(contents.push(x), mats) == input_mapping(contents, mats)
            + input_mapping_entry(x, mats),
    decreases contents.len(),
{
    let tailp = contents.push(x).subrange(1, contents.push(x).len() as int);
    if contents.len() == 0 {
        assert(contents.push(x)[0] == x);
        assert(tailp =~= Seq::<DeferredInput>::empty());
        assert(input_mapping(tailp, mats) == Seq::<(Seq<char>, Seq<char>)>::empty());
        assert(input_mapping(contents.push(x), mats) == input_mapping_entry(x, mats)
            + Seq::<(Seq<char>, Seq<char>)>::empty());
        assert(input_mapping(contents, mats) + input_mapping_entry(x, mats)
            =~= input_mapping_entry(x, mats) + Seq::<(Seq<char>, Seq<char>)>::empty());
    } else {
        let tail = contents.subrange(1, contents.len() as int);
        assert(contents.push(x)[0] == contents[0]);
        assert(tailp =~= tail.push(x));
        lemma_input_mapping_snoc(tail, x, mats);
        assert(input_mapping(contents.push(x), mats) == input_mapping_entry(contents[0], mats) + (
        input_mapping(tail, mats) + input_mapping_entry(x, mats)));
        assert(input_mapping(contents, mats) == input_mapping_entry(contents[0], mats)
            + input_mapping(tail, mats));
        assert(input_mapping_entry(contents[0], mats) + (input_mapping(tail, mats)
            + input_mapping_entry(x, mats)) =~= (input_mapping_entry(contents[0], mats)
            + input_mapping(tail, mats)) + input_mapping_entry(x, mats));
    }
}

proof fn lemma_apply_ops_snoc(reg: AnalysisRegistryView, ops: Seq<CallbackOp>, op: CallbackOp)
    requires
        spec_apply_ops(reg, ops).1 is None,
    ensures
        spec_apply_ops(reg, ops.push(op)) == spec_apply_op(spec_apply_ops(reg, ops).0, op),
    decreases ops.len(),
{
    let tailp = ops.push(op).subrange(1, ops.push(op).len() as int);
    if ops.len() == 0 {
        assert(ops.push(op)[0] == op);
        assert(tailp =~= Seq::<CallbackOp>::empty());
        let (reg2, err) = spec_apply_op(reg, op);
        if err is Some {
        } else {
            assert(spec_apply_ops(reg2, tailp) == (reg2, None::<InternalErrorKind>));
        }
    } else {
        let tail = ops.subrange(1, ops.len() as int);
        assert(ops.push(op)[0] == ops[0]);
        assert(tailp =~= tail.push(op));
        let (reg2, err) = spec_apply_op(reg, ops[0]);
        assert(err is None) by {
            if err is Some {
                assert(spec_apply_ops(reg, ops).1 == err);
            }
        }
        lemma_apply_ops_snoc(reg2, tail, op);
    }
}

/// A nested registry stays well-formed under any sequence of callback
/// registrations.
pub open spec fn analysis_view_wf(ar: AnalysisRegistryView) -> bool {
    &&& crate::deferred::registry_view_wf(ar.deferred)
    &&& ar.deferred.base == ar.owner
}

proof fn lemma_apply_ops_wf(reg: AnalysisRegistryView, ops: Seq<CallbackOp>)
    requires
        analysis_view_wf(reg),
    ensures
        analysis_view_wf(spec_apply_ops(reg, ops).0),
    decreases ops.len(),
{
    if ops.len() > 0 {
        let (reg2, err) = spec_apply_op(reg, ops[0]);
        assert(analysis_view_wf(reg2)) by {
            match ops[0] {
                CallbackOp::DeclareArtifact { .. } => {},
                CallbackOp::RegisterAction { .. } => {},
            }
        }
        match err {
            Some(_) => {},
            None => {
                lemma_apply_ops_wf(reg2, ops.subrange(1, ops.len() as int));
            },
        }
    }
}

/// Runs the callback against the nested registry: its registrations in
/// order, then the check that it returned nothing. Any non-empty return
/// value is a declared error carrying the value's description; a failing
/// registration is an internal error. Either way the registrations made
/// before the failure stand, and the whole pass is discarded by the caller.
pub fn invoke_dynamic_output_lambda(registry: &mut AnalysisRegistry, script: &CallbackScript) -> (r:
    Result<(), DynamicLambdaError>)
    requires
        old(registry).wf(),
    ensures
        final(registry).wf(),
        ({
            let (reg2, err) = spec_apply_ops(old(registry)@, script.ops@);
            &&& final(registry)@ == reg2
            &&& match err {
                Some(k) => r matches Err(e) && e@ == ErrView::Internal(k),
                None => match script.return_value {
                    CallbackReturn::NoneValue => r is Ok,
                    CallbackReturn::Value(d) => (r matches Err(e) && e@
                        == ErrView::LambdaMustReturnNone(d@)),
                },
            }
        }),
{
    let ghost start = registry@;
    let mut i: usize = 0;
    proof {
        assert(script.ops@.subrange(0, 0) =~= Seq::<CallbackOp>::empty());
    }
    while i < script.ops.len()
        invariant
            i <= script.ops@.len(),
            old(registry)@ == start,
            spec_apply_ops(start, script.ops@.subrange(0, i as int)) == (
                registry@,
                None::<InternalErrorKind>,
            ),
            registry.wf(),
        decreases script.ops@.len() - i,
    {
        let ghost pre = script.ops@.subrange(0, i as int);
        proof {
            assert(pre.push(script.ops@[i as int]) =~= script.ops@.subrange(0, i + 1));
        }
        match &script.ops[i] {
            CallbackOp::DeclareArtifact { path, output_type } => {
                registry.declare_dynamic_output(path, *output_type);
                proof {
                    lemma_apply_ops_snoc(start, pre, script.ops@[i as int]);
                }
            },
            CallbackOp::RegisterAction { bound_outputs } => {
                let res = registry.register_action(bound_outputs);
                proof {
                    lemma_apply_ops_snoc(start, pre, script.ops@[i as int]);
                }
                match res {
                    Ok(_) => (),
                    Err(k) => {
                        proof {
                            assert(script.ops@.subrange(0, script.ops@.len() as int)
                                =~= script.ops@);
                            lemma_apply_ops_prefix_err(
                                start,
                                script.ops@,
                                i as int,
                                registry@,
                                k,
                            );
                        }
                        return Err(DynamicLambdaError::Internal(k));
                    },
                }
            },
        }
        i += 1;
    }
    proof {
        assert(script.ops@.subrange(0, script.ops@.len() as int) =~= script.ops@);
    }
    match &script.return_value {
        CallbackReturn::NoneValue => Ok(()),
        CallbackReturn::Value(d) => Err(DynamicLambdaError::LambdaMustReturnNone(d.clone())),
    }
}

/// The views of a sequence of (artifact, location) pairs.
pub open spec fn artifact_mapping_views(s: Seq<(Artifact, String)>) -> Seq<(Seq<char>, Seq<char>)> {
    s.map_values(|e: (Artifact, String)| (e.0@, e.1@))
}

/// The views of a sequence of action keys.
pub open spec fn action_key_views(s: Seq<ActionKey>) -> Seq<KeyView> {
    s.map_values(|k: ActionKey| k@)
}

/// The keys bound to the first `n` declared artifacts, in order; an unbound
/// one is the internal error the specification calls unreachable.
pub open spec fn collect_outputs(declared: Seq<DeclaredArtifactView>, n: int) -> Result<
    Seq<KeyView>,
    InternalErrorKind,
>
    decreases n,
{
    if n <= 0 {
        Ok(Seq::<KeyView>::empty())
    } else {
        match collect_outputs(declared, n - 1) {
            Err(k) => Err(k),
            Ok(ks) => {
                if n - 1 >= declared.len() {
                    Err(InternalErrorKind::InvalidOutputHandle)
                } else {
                    match declared[n - 1].bound {
                        None => Err(InternalErrorKind::UnboundOutput),
                        Some(k) => Ok(ks.push(k)),
                    }
                }
            },
        }
    }
}

proof fn lemma_collect_err_mono(declared: Seq<DeclaredArtifactView>, m: int, n: int)
    requires
        0 <= m <= n,
        collect_outputs(declared, m) is Err,
    ensures
        collect_outputs(declared, n) == collect_outputs(declared, m),
    decreases n - m,
{
    if m < n {
        lemma_collect_err_mono(declared, m, n - 1);
    }
}

/// What executing a lambda does, as a function of the lambda and the
/// context it is handed: the result (the ordered keys of its bound outputs,
/// or the error), and the registry the context is left holding. The
/// context's registry is swapped for a placeholder while the nested pass
/// owns it; a failure before the swap leaves the registry as it was, a
/// failure during the callback leaves the placeholder, and from
/// finalization on the context holds the nested pass's registry — a valid
/// registry in every case.
pub open spec fn execute_model(l: DynamicLambda, ctx: CtxView) -> (Result<Seq<KeyView>, ErrView>, RegistryView) {
    match l.params_opt() {
        None => (
            Err(ErrView::Internal(InternalErrorKind::AttributesLambdaNotSet)),
            ctx.registry,
        ),
        Some(p) => {
            if l.owner_view() is AnonTarget {
                (Err(ErrView::AnonTargetIncompatible), ctx.registry)
            } else {
                let start = nested_registry_start(
                    l.owner_view(),
                    build_artifact_views(l.outputs_seq()),
                    ctx,
                );
                let (reg2, err) = spec_apply_ops(start, p.lambda.ops@);
                match err {
                    Some(k) => (
                        Err(ErrView::Internal(k)),
                        placeholder_registry(l.owner_view()),
                    ),
                    None => match p.lambda.return_value {
                        CallbackReturn::Value(d) => (
                            Err(ErrView::LambdaMustReturnNone(d@)),
                            placeholder_registry(l.owner_view()),
                        ),
                        CallbackReturn::NoneValue => {
                            match collect_outputs(reg2.declared, l.outputs_seq().len() as int) {
                                Err(k) => (Err(ErrView::Internal(k)), reg2.deferred),
                                Ok(keys) => (Ok(keys), reg2.deferred),
                            }
                        },
                    },
                }
            }
        },
    }
}

/// Data used to construct the evaluation context for the dynamic lambda:
/// the frozen attributes and plugins, the owner, the digest configuration,
/// the materialized input mapping, the handles of the promised outputs, and
/// the nested registry the callback will register into.
pub struct DynamicLambdaCtxData {
    pub attributes: String,
    pub plugins: String,
    pub key: BaseDeferredKey,
    pub digest_config: u64,
    pub artifacts: Vec<(Artifact, String)>,
    pub declared_outputs: Vec<usize>,
    pub registry: AnalysisRegistry,
}

/// Sets up the data needed to evaluate a dynamic lambda's callback. The
/// lambda must be bound and its owner must not be anonymous; then the
/// context's registry slot is swapped for a placeholder, a nested registry
/// rooted at the lambda's owner takes the old one over, every promised
/// output is declared into it, and the callback's input mapping is built
/// from the materialized artifacts, skipping configuration edges. On either
/// error the context is left untouched.
#[verifier::loop_isolation(false)]
pub fn dynamic_lambda_ctx_data(
    dynamic_lambda: &DynamicLambda,
    deferred_ctx: &mut DeferredCtx,
) -> (r: Result<DynamicLambdaCtxData, DynamicLambdaError>)
    requires
        dynamic_lambda.wf(),
        old(deferred_ctx).registry.wf(),
        old(deferred_ctx)@.registry.base == dynamic_lambda.owner_view(),
        (dynamic_lambda.owner_view() matches OwnerView::TargetLabel(t) ==> lookup_platform(
            old(deferred_ctx)@.configured_targets,
            t,
        ) is Some),
        forall|j: int|
            0 <= j < dynamic_lambda.dynamic_contents().len() ==> ((
            #[trigger] dynamic_lambda.dynamic_contents()[j]) matches
                DeferredInput::MaterializedArtifact(a) ==> lookup_materialized(
                old(deferred_ctx)@.materialized,
                a@,
            ) is Some),
    ensures
        match r {
            Err(e) => {
                &&& *final(deferred_ctx) == *old(deferred_ctx)
                &&& (dynamic_lambda.params_opt() is None ==> e@ == ErrView::Internal(
                    InternalErrorKind::AttributesLambdaNotSet,
                ))
                &&& (dynamic_lambda.params_opt() is Some
                    && dynamic_lambda.owner_view() is AnonTarget ==> e@
                    == ErrView::AnonTargetIncompatible)
                &&& (dynamic_lambda.params_opt() is None
                    || dynamic_lambda.owner_view() is AnonTarget)
            },
            Ok(data) => {
                &&& dynamic_lambda.params_opt() matches Some(p) && data.attributes@
                    == p.attributes@ && data.plugins@ == p.plugins@
                &&& !(dynamic_lambda.owner_view() is AnonTarget)
                &&& data.key@ == dynamic_lambda.owner_view()
                &&& data.digest_config == old(deferred_ctx)@.digest_config
                &&& artifact_mapping_views(data.artifacts@) == input_mapping(
                    dynamic_lambda.dynamic_contents(),
                    old(deferred_ctx)@.materialized,
                )
                &&& data.declared_outputs@.len() == dynamic_lambda.outputs_seq().len()
                &&& (forall|j: int|
                    0 <= j < data.declared_outputs@.len() ==> #[trigger] data.declared_outputs@[j]
                        == j)
                &&& data.registry@ == nested_registry_start(
                    dynamic_lambda.owner_view(),
                    build_artifact_views(dynamic_lambda.outputs_seq()),
                    old(deferred_ctx)@,
                )
                &&& data.registry.wf()
                &&& final(deferred_ctx)@ == (CtxView {
                    registry: placeholder_registry(dynamic_lambda.owner_view()),
                    ..old(deferred_ctx)@
                })
                &&& final(deferred_ctx).registry.wf()
            },
        },
{
    let attributes: String;
    let plugins: String;
    match &dynamic_lambda.attributes_lambda {
        Some(p) => {
            attributes = p.attributes.clone();
            plugins = p.plugins.clone();
        },
        None => {
            return Err(DynamicLambdaError::Internal(InternalErrorKind::AttributesLambdaNotSet));
        },
    }
    let execution_platform: ExecutionPlatformResolution = match &dynamic_lambda.owner {
        BaseDeferredKey::TargetLabel(t) => {
            match deferred_ctx.get_configured_target(t) {
                Some(p) => p.duplicate(),
                None => {
                    proof {
                        assert(false);
                    }
                    ExecutionPlatformResolution { platform: String::new() }
                },
            }
        },
        BaseDeferredKey::BxlLabel(b) => b.execution_platform.duplicate(),
        BaseDeferredKey::AnonTarget(_) => {
            return Err(DynamicLambdaError::AnonTargetIncompatible);
        },
    };
    // The context's registry slot is exchanged for a throwaway placeholder:
    // the nested pass needs ownership of the real registry, and the slot
    // must keep holding a valid one whatever happens to the callback.
    let mut fake_registry = DeferredRegistry::new(dynamic_lambda.owner.duplicate());
    core::mem::swap(&mut deferred_ctx.registry, &mut fake_registry);
    let deferred = fake_registry;
    let mut registry = AnalysisRegistry::new_from_owner_and_deferred(
        dynamic_lambda.owner.duplicate(),
        execution_platform,
        deferred,
    );
    registry.set_action_key(deferred_ctx.action_key.clone());

    let ghost mats = old(deferred_ctx)@.materialized;
    let ghost contents = dynamic_lambda.dynamic_contents();
    let mut artifacts: Vec<(Artifact, String)> = Vec::new();
    let n = input_set_len(&dynamic_lambda.dynamic);
    let mut i: usize = 0;
    proof {
        assert(contents.subrange(0, 0) =~= Seq::<DeferredInput>::empty());
    }
    while i < n
        invariant
            i <= n,
            artifact_mapping_views(artifacts@) == input_mapping(
                contents.subrange(0, i as int),
                mats,
            ),
        decreases n - i,
    {
        let ghost pre = contents.subrange(0, i as int);
        proof {
            assert(pre.push(contents[i as int]) =~= contents.subrange(0, i + 1));
            lemma_input_mapping_snoc(pre, contents[i as int], mats);
        }
        match input_set_get_index(&dynamic_lambda.dynamic, i) {
            Some(x) => {
                match x {
                    DeferredInput::MaterializedArtifact(a) => {
                        let path: String = match deferred_ctx.get_materialized_artifact(a) {
                            Some(p) => p.clone(),
                            None => {
                                proof {
                                    assert(false);
                                }
                                String::new()
                            },
                        };
                        let ghost before = artifacts@;
                        artifacts.push((a.duplicate(), path));
                        proof {
                            assert(artifact_mapping_views(artifacts@) =~= artifact_mapping_views(
                                before,
                            ) + input_mapping_entry(contents[i as int], mats));
                        }
                    },
                    DeferredInput::ConfiguredTarget(_) => {
                        proof {
                            assert(artifact_mapping_views(artifacts@) =~= artifact_mapping_views(
                                artifacts@,
                            ) + input_mapping_entry(contents[i as int], mats));
                        }
                    },
                    DeferredInput::Deferred(_) => {
                        proof {
                            assert(false);
                        }
                    },
                }
            },
            None => {
                proof {
                    assert(false);
                }
            },
        }
        i += 1;
    }
    proof {
        assert(contents.subrange(0, contents.len() as int) =~= contents);
    }

    let ghost ak = old(deferred_ctx)@.action_key;
    let ghost outs = build_artifact_views(dynamic_lambda.outputs_seq());
    let mut declared_outputs: Vec<usize> = Vec::new();
    let m = dynamic_lambda.outputs.len();
    let mut j: usize = 0;
    proof {
        assert(registry@.declared =~= seed_declared(
            build_artifact_views(dynamic_lambda.outputs@.subrange(0, 0)),
            ak,
        ));
    }
    while j < m
        invariant
            j <= m,
            registry@.owner == dynamic_lambda.owner_view(),
            registry@.execution_platform == (match platform_of(
                dynamic_lambda.owner_view(),
                old(deferred_ctx)@,
            ) {
                Some(p) => p,
                None => Seq::<char>::empty(),
            }),
            registry@.deferred == (RegistryView {
                action_key: Some(ak),
                ..old(deferred_ctx)@.registry
            }),
            registry@.declared == seed_declared(
                build_artifact_views(dynamic_lambda.outputs@.subrange(0, j as int)),
                ak,
            ),
            declared_outputs@.len() == j,
            forall|p: int| 0 <= p < j ==> #[trigger] declared_outputs@[p] == p,
        decreases m - j,
    {
        let x = &dynamic_lambda.outputs[j];
        let ghost before = registry@.declared;
        let h = registry.declare_dynamic_output(&x.path, x.output_type);
        declared_outputs.push(h);
        proof {
            assert(registry@.declared =~= seed_declared(
                build_artifact_views(dynamic_lambda.outputs@.subrange(0, j + 1)),
                ak,
            ));
        }
        j += 1;
    }
    proof {
        assert(dynamic_lambda.outputs@.subrange(0, dynamic_lambda.outputs@.len() as int)
            =~= dynamic_lambda.outputs@);
        assert(registry@ =~~= nested_registry_start(
            dynamic_lambda.owner_view(),
            build_artifact_views(dynamic_lambda.outputs_seq()),
            old(deferred_ctx)@,
        ));
        assert(final(deferred_ctx)@ =~~= (CtxView {
            registry: placeholder_registry(dynamic_lambda.owner_view()),
            ..old(deferred_ctx)@
        }));
    }
    Ok(
        DynamicLambdaCtxData {
            attributes,
            plugins,
            key: dynamic_lambda.owner.duplicate(),
            digest_config: deferred_ctx.digest_config(),
            artifacts,
            declared_outputs,
            registry,
        },
    )
}

/// The `Output` from a dynamic lambda: the keys of the actions the callback
/// bound its promised outputs to, in declaration order. A dynamic action's
/// slot index is an index into this list.
#[derive(Debug)]
pub struct DynamicLambdaOutput {
    output: Vec<ActionKey>,
}

impl View for DynamicLambdaOutput {
    type V = Seq<KeyView>;

    closed spec fn view(&self) -> Seq<KeyView> {
        action_key_views(self.output@)
    }
}

impl DynamicLambdaOutput {
    /// How many outputs the lambda resolved.
    pub fn len(&self) -> (r: usize)
        ensures
            r == self@.len(),
    {
        self.output.len()
    }

    /// The key at one slot, in declaration order.
    pub fn get(&self, i: usize) -> (r: Option<&ActionKey>)
        ensures
            match r {
                Some(k) => i < self@.len() && k@ == self@[i as int],
                None => i >= self@.len(),
            },
    {
        if i < self.output.len() {
            Some(&self.output[i])
        } else {
            None
        }
    }

    /// An equal output list.
    pub fn duplicate(&self) -> (r: Self)
        ensures
            r@ == self@,
    {
        let mut output: Vec<ActionKey> = Vec::new();
        let mut i: usize = 0;
        while i < self.output.len()
            invariant
                i <= self.output@.len(),
                output@.len() == i,
                forall|j: int| 0 <= j < i ==> (#[trigger] output@[j])@ == self.output@[j]@,
            decreases self.output@.len() - i,
        {
            output.push(self.output[i].duplicate());
            i += 1;
        }
        let r = DynamicLambdaOutput { output };
        proof {
            assert forall|j: int| 0 <= j < r@.len() implies r@[j] == self@[j] by {
                assert(r@[j] == r.output@[j]@);
                assert(self@[j] == self.output@[j]@);
            }
            assert(r@ =~= self@);
        }
        r
    }
}

impl DynamicLambda {
    /// Executes the lambda against the context the engine supplies: swaps
    /// the nested registry in, runs the captured callback, swaps the
    /// finalized registry back, and requires every promised output to have
    /// been bound. The result is the ordered list of the bound actions'
    /// keys, one per promised output, cached by the engine under the
    /// lambda's own key. Whatever happens, the context is left holding a
    /// well-formed registry.
    ///
    /// Session-label owners take the same nested-registry path: what
    /// differs for them — the session-scoped environment the callback runs
    /// in — belongs to the outside evaluator, which hands back the
    /// callback's script either way.
    #[verifier::loop_isolation(false)]
    pub fn execute(&self, deferred_ctx: &mut DeferredCtx) -> (r: Result<
        DynamicLambdaOutput,
        DynamicLambdaError,
    >)
        requires
            self.wf(),
            old(deferred_ctx).registry.wf(),
            old(deferred_ctx)@.registry.base == self.owner_view(),
            (self.owner_view() matches OwnerView::TargetLabel(t) ==> lookup_platform(
                old(deferred_ctx)@.configured_targets,
                t,
            ) is Some),
            forall|j: int|
                0 <= j < self.dynamic_contents().len() ==> ((
                #[trigger] self.dynamic_contents()[j]) matches
                    DeferredInput::MaterializedArtifact(a) ==> lookup_materialized(
                    old(deferred_ctx)@.materialized,
                    a@,
                ) is Some),
        ensures
            ({
                let (res, reg) = execute_model(*self, old(deferred_ctx)@);
                &&& final(deferred_ctx)@ == (CtxView { registry: reg, ..old(deferred_ctx)@ })
                &&& match r {
                    Ok(o) => res matches Ok(ks) && o@ == ks,
                    Err(e) => res matches Err(ev) && e@ == ev,
                }
            }),
            r matches Ok(o) ==> o@.len() == self.outputs_seq().len(),
    {
        proof {
            lemma_collect_len_all();
        }
        let data = match dynamic_lambda_ctx_data(self, deferred_ctx) {
            Ok(d) => d,
            Err(e) => {
                return Err(e);
            },
        };
        let DynamicLambdaCtxData { declared_outputs, mut registry, .. } = data;
        let script: &CallbackScript = match &self.attributes_lambda {
            Some(p) => &p.lambda,
            None => {
                proof {
                    assert(false);
                }
                return Err(
                    DynamicLambdaError::Internal(InternalErrorKind::AttributesLambdaNotSet),
                );
            },
        };
        match invoke_dynamic_output_lambda(&mut registry, script) {
            Ok(()) => (),
            Err(e) => {
                return Err(e);
            },
        }
        let (nested, declared) = registry.finalize();
        // The nested pass is over: its registry, holding everything the
        // callback registered, replaces the placeholder in the context.
        deferred_ctx.registry = nested;
        let ghost dv = declared@.map_values(|d: DeclaredArtifact| d@);
        let mut output: Vec<ActionKey> = Vec::new();
        let m = declared_outputs.len();
        let mut j: usize = 0;
        proof {
            assert(collect_outputs(dv, 0) == Ok::<Seq<KeyView>, InternalErrorKind>(
                action_key_views(output@),
            )) by {
                assert(action_key_views(output@) =~= Seq::<KeyView>::empty());
            }
        }
        while j < m
            invariant
                j <= m,
                m == self.outputs_seq().len(),
                dv == declared@.map_values(|d: DeclaredArtifact| d@),
                collect_outputs(dv, j as int) == Ok::<Seq<KeyView>, InternalErrorKind>(
                    action_key_views(output@),
                ),
                declared_outputs@.len() == m,
                forall|p: int| 0 <= p < m ==> #[trigger] declared_outputs@[p] == p,
            decreases m - j,
        {
            let h = declared_outputs[j];
            if h >= declared.len() {
                proof {
                    lemma_collect_err_mono(dv, j + 1, m as int);
                }
                return Err(DynamicLambdaError::Internal(InternalErrorKind::InvalidOutputHandle));
            }
            match &declared[h].bound {
                None => {
                    proof {
                        lemma_collect_err_mono(dv, j + 1, m as int);
                    }
                    return Err(DynamicLambdaError::Internal(InternalErrorKind::UnboundOutput));
                },
                Some(k) => {
                    let ghost before = output@;
                    output.push(k.duplicate());
                    proof {
                        assert(action_key_views(output@) =~= action_key_views(before).push(
                            dv[j as int].bound->Some_0,
                        ));
                    }
                },
            }
            j += 1;
        }
        Ok(DynamicLambdaOutput { output })
    }
}

/// `collect_outputs` returns exactly one key per requested output: the one
/// its declared artifact is bound to.
pub proof fn lemma_collect_len_all()
    ensures
        forall|declared: Seq<DeclaredArtifactView>, n: int|
            (#[trigger] collect_outputs(declared, n)) is Ok ==> collect_outputs(
                declared,
                n,
            )->Ok_0.len() == (if n >= 0 {
                n
            } else {
                0
            }),
{
    assert forall|declared: Seq<DeclaredArtifactView>, n: int|
        (#[trigger] collect_outputs(declared, n)) is Ok implies collect_outputs(
        declared,
        n,
    )->Ok_0.len() == (if n >= 0 {
        n
    } else {
        0
    }) by {
        lemma_collect_len(declared, n);
    }
}

proof fn lemma_collect_len(declared: Seq<DeclaredArtifactView>, n: int)
    ensures
        collect_outputs(declared, n) matches Ok(ks) ==> ks.len() == (if n >= 0 {
            n
        } else {
            0
        }),
    decreases n,
{
    if n > 0 {
        lemma_collect_len(declared, n - 1);
    }
}

/// What resolving a dynamic action does: with its single deferred edge and
/// the lambda's cached output list, it only ever redirects to the key at
/// its slot; a missing edge or an out-of-range slot is an internal error
/// that the promised-output invariant makes unreachable.
pub open spec fn action_execute_model(input: InputView, index: int, output: Seq<KeyView>)
    -> Result<KeyView, ErrView> {
    if !(input is Deferred) {
        Err(ErrView::Internal(InternalErrorKind::WrongDynamicActionInput))
    } else if index >= output.len() {
        Err(ErrView::Internal(InternalErrorKind::UnexpectedIndex))
    } else {
        Ok(output[index])
    }
}

/// The placeholder node declared for one promised output of a dynamic
/// lambda: a single dependency edge on the lambda, and the slot of the
/// lambda's output list to forward to. Immutable after construction.
#[derive(Debug)]
pub struct DynamicAction {
    input: DeferredInput,
    output_artifact_index: usize,
}

impl DynamicAction {
    /// The single dependency edge, as a spec-level value.
    pub closed spec fn input_view(&self) -> InputView {
        self.input@
    }

    /// The slot of the lambda's output list this action forwards to.
    pub closed spec fn index(&self) -> int {
        self.output_artifact_index as int
    }

    /// A placeholder forwarding to slot `output_artifact_index` of the
    /// lambda behind `deferred`.
    pub fn new(deferred: &DeferredData<DynamicLambdaOutput>, output_artifact_index: usize) -> (r:
        Self)
        ensures
            r.input_view() == InputView::Deferred(deferred@),
            r.index() == output_artifact_index,
    {
        DynamicAction {
            input: DeferredInput::Deferred(deferred.deferred_key().duplicate()),
            output_artifact_index,
        }
    }

    /// The declared dependency edges: exactly the one lambda edge.
    pub fn inputs(&self) -> (r: &DeferredInput)
        ensures
            r@ == self.input_view(),
    {
        &self.input
    }

    /// The slot this action forwards to.
    pub fn output_artifact_index(&self) -> (r: usize)
        ensures
            r as int == self.index(),
    {
        self.output_artifact_index
    }

    /// Resolves the placeholder against the lambda's cached output: always
    /// a redirect to the key at this action's slot, never a concrete value.
    pub fn execute(&self, val: &DynamicLambdaOutput) -> (r: Result<
        DeferredValue<RegisteredAction>,
        DynamicLambdaError,
    >)
        ensures
            match r {
                Ok(v) => v matches DeferredValue::Deferred(d) && action_execute_model(
                    self.input_view(),
                    self.index(),
                    val@,
                ) == Ok::<KeyView, ErrView>(d@),
                Err(e) => action_execute_model(self.input_view(), self.index(), val@) == Err::<
                    KeyView,
                    ErrView,
                >(e@),
            },
    {
        match &self.input {
            DeferredInput::Deferred(_) => (),
            _ => {
                return Err(
                    DynamicLambdaError::Internal(InternalErrorKind::WrongDynamicActionInput),
                );
            },
        }
        match val.get(self.output_artifact_index) {
            None => Err(DynamicLambdaError::Internal(InternalErrorKind::UnexpectedIndex)),
            Some(key) => Ok(DeferredValue::Deferred(key.deferred_data())),
        }
    }
}

/// After a successful execution a lambda with `n` declared outputs resolves
/// exactly `n` keys, and slot order matches declaration order: slot `j`
/// holds the key of the action its `j`-th declared output was bound to.
pub proof fn lemma_outputs_in_declaration_order(
    declared: Seq<DeclaredArtifactView>,
    n: int,
    ks: Seq<KeyView>,
)
    requires
        collect_outputs(declared, n) == Ok::<Seq<KeyView>, InternalErrorKind>(ks),
    ensures
        ks.len() == (if n >= 0 {
            n
        } else {
            0
        }),
        forall|j: int| 0 <= j < ks.len() ==> 0 <= j < declared.len() && declared[j].bound == Some(ks[j]),
    decreases n,
{
    if n > 0 {
        match collect_outputs(declared, n - 1) {
            Err(_) => {},
            Ok(ks0) => {
                lemma_outputs_in_declaration_order(declared, n - 1, ks0);
            },
        }
    }
}

/// A callback that returns a non-empty value never executes silently to
/// success: with any owner and context, the lambda's execution fails —
/// with the declared must-return-nothing error when the callback's own
/// registrations went through.
pub proof fn lemma_nonempty_return_never_succeeds(l: DynamicLambda, ctx: CtxView, d: String)
    requires
        l.params_opt() matches Some(p) && p.lambda.return_value == CallbackReturn::Value(d),
    ensures
        execute_model(l, ctx).0 is Err,
        ({
            let start = nested_registry_start(
                l.owner_view(),
                build_artifact_views(l.outputs_seq()),
                ctx,
            );
            !(l.owner_view() is AnonTarget) && spec_apply_ops(
                start,
                l.params_opt()->Some_0.lambda.ops@,
            ).1 is None ==> execute_model(l, ctx).0 == Err::<Seq<KeyView>, ErrView>(
                ErrView::LambdaMustReturnNone(d@),
            )
        }),
{
}

/// A lambda owned by an anonymous target fails immediately: the result is
/// the declared incompatibility error (or the unbound-lambda error), and
/// the context's registry is left exactly as it was — the callback is
/// never invoked.
pub proof fn lemma_anon_owner_fails_without_callback(l: DynamicLambda, ctx: CtxView)
    requires
        l.owner_view() is AnonTarget,
    ensures
        execute_model(l, ctx).0 is Err,
        execute_model(l, ctx).1 == ctx.registry,
        l.params_opt() is Some ==> execute_model(l, ctx).0 == Err::<Seq<KeyView>, ErrView>(
            ErrView::AnonTargetIncompatible,
        ),
{
}

/// Whether or not the callback succeeded, the context ends up holding a
/// well-formed registry: its own untouched one before the swap, the valid
/// placeholder while the nested pass owns the real one, or the finalized
/// nested registry after the swap back.
pub proof fn lemma_registry_restored(l: DynamicLambda, ctx: CtxView)
    requires
        crate::deferred::registry_view_wf(ctx.registry),
        ctx.registry.base == l.owner_view(),
    ensures
        crate::deferred::registry_view_wf(execute_model(l, ctx).1),
{
    match l.params_opt() {
        None => {},
        Some(p) => {
            if l.owner_view() is AnonTarget {
            } else {
                let start = nested_registry_start(
                    l.owner_view(),
                    build_artifact_views(l.outputs_seq()),
                    ctx,
                );
                assert(analysis_view_wf(start));
                lemma_apply_ops_wf(start, p.lambda.ops@);
            }
        },
    }
}

proof fn lemma_apply_ops_prefix_err(
    start: AnalysisRegistryView,
    ops: Seq<CallbackOp>,
    i: int,
    reg2: AnalysisRegistryView,
    k: InternalErrorKind,
)
    requires
        0 <= i < ops.len(),
        spec_apply_ops(start, ops.subrange(0, i)).1 is None,
        spec_apply_op(spec_apply_ops(start, ops.subrange(0, i)).0, ops[i]) == (reg2, Some(k)),
    ensures
        spec_apply_ops(start, ops) == (reg2, Some(k)),
    decreases i + 1,
{
    if i == 0 {
        assert(ops.subrange(0, 0) =~= Seq::<CallbackOp>::empty());
        assert(spec_apply_op(start, ops[0]) == (reg2, Some(k)));
    } else {
        let pre = ops.subrange(0, i);
        let first = ops[0];
        let (m1, e1) = spec_apply_op(start, first);
        assert(pre[0] == first);
        assert(e1 is None) by {
            if e1 is Some {
                assert(spec_apply_ops(start, pre).1 == e1);
            }
        }
        let pre_tail = pre.subrange(1, pre.len() as int);
        let tail = ops.subrange(1, ops.len() as int);
        assert(pre_tail =~= tail.subrange(0, i - 1));
        assert(tail[i - 1] == ops[i]);
        lemma_apply_ops_prefix_err(m1, tail, i - 1, reg2, k);
    }
}

} // verus!
