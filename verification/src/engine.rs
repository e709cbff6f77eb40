//! The per-key memoization the incremental engine provides.
//!
//! Scheduling is driven by an engine outside this library: it decides when a
//! node's declared inputs are ready and deduplicates concurrent requests for
//! the same key, so each key is evaluated at most once and every caller
//! shares the one cached result. This module holds that memoization as the
//! library's own state: a result cache keyed by deferred keys, with a
//! counter of how often a lambda's callback was actually invoked. Resolving
//! a cached key returns the cached result and invokes nothing.

use vstd::prelude::*;

verus! {

use crate::deferred::DeferredCtx;
use crate::deferred::DeferredInput;
use crate::deferred::DeferredKey;
use crate::deferred::DeferredValue;
use crate::deferred::InputView;
use crate::deferred::KeyView;
use crate::deferred::CtxView;
use crate::deferred::lookup_materialized;
use crate::deferred::lookup_platform;
use crate::base_deferred_key::BaseDeferredKey;
use crate::base_deferred_key::OwnerView;
use crate::dynamic::DynamicAction;
use crate::dynamic::DynamicLambda;
use crate::dynamic::DynamicLambdaError;
use crate::dynamic::DynamicLambdaOutput;
use crate::dynamic::ErrView;
use crate::dynamic::InternalErrorKind;
use crate::dynamic::RegisteredAction;
use crate::dynamic::action_execute_model;
use crate::dynamic::execute_model;
use crate::paths::str_eq;

/// The view of one cached result.
pub type CachedResultView = Result<Seq<KeyView>, ErrView>;

/// The mathematical value of the result cache.
#[verifier::ext_equal]
pub struct CacheView {
    pub entries: Seq<(KeyView, CachedResultView)>,
    pub invocations: int,
}

/// The view of an execution result.
pub open spec fn res_view(r: Result<DynamicLambdaOutput, DynamicLambdaError>) -> CachedResultView {
    match r {
        Ok(o) => Ok(o@),
        Err(e) => Err(e@),
    }
}

/// The first result cached under `k`, if any.
pub open spec fn cache_lookup(entries: Seq<(KeyView, CachedResultView)>, k: KeyView) -> Option<
    CachedResultView,
>
    decreases entries.len(),
{
    if entries.len() == 0 {
        None
    } else if entries[0].0 == k {
        Some(entries[0].1)
    } else {
        cache_lookup(entries.subrange(1, entries.len() as int), k)
    }
}

/// What resolving a lambda under `key` does to the cache: a cached key is
/// answered from the cache with nothing invoked; an uncached one is
/// executed — one callback invocation — and its result cached, success or
/// failure alike.
pub open spec fn resolve_lambda_model(
    cache: CacheView,
    key: KeyView,
    l: DynamicLambda,
    ctx: CtxView,
) -> (CacheView, CachedResultView, bool) {
    match cache_lookup(cache.entries, key) {
        Some(res) => (cache, res, false),
        None => {
            let (res, _reg) = execute_model(l, ctx);
            (
                CacheView {
                    entries: cache.entries.push((key, res)),
                    invocations: cache.invocations + 1,
                },
                res,
                true,
            )
        },
    }
}

/// What resolving a dynamic action does, given the cache: follow its single
/// deferred edge to the lambda's cached result and redirect to the slot. A
/// dependent of a failed lambda receives the lambda's own failure; a lambda
/// never evaluated at all is the internal error the engine's scheduling
/// makes unreachable.
pub open spec fn resolve_action_model(
    entries: Seq<(KeyView, CachedResultView)>,
    input: InputView,
    index: int,
) -> Result<KeyView, ErrView> {
    match input {
        InputView::Deferred(k) => match cache_lookup(entries, k) {
            Some(Ok(out)) => action_execute_model(input, index, out),
            Some(Err(e)) => Err(e),
            None => Err(ErrView::Internal(InternalErrorKind::MissingDeferredData)),
        },
        _ => Err(ErrView::Internal(InternalErrorKind::WrongDynamicActionInput)),
    }
}

/// Compares two deferred keys by value.
pub fn deferred_key_eq(a: &DeferredKey, b: &DeferredKey) -> (r: bool)
    ensures
        r == (a@ == b@),
{
    let owners_eq = match (&a.owner, &b.owner) {
        (BaseDeferredKey::TargetLabel(x), BaseDeferredKey::TargetLabel(y)) => crate::deferred::label_eq(
            x,
            y,
        ),
        (BaseDeferredKey::BxlLabel(x), BaseDeferredKey::BxlLabel(y)) => str_eq(
            x.label.as_str(),
            y.label.as_str(),
        ) && str_eq(
            x.execution_platform.platform.as_str(),
            y.execution_platform.platform.as_str(),
        ),
        (BaseDeferredKey::AnonTarget(x), BaseDeferredKey::AnonTarget(y)) => str_eq(
            x.label.as_str(),
            y.label.as_str(),
        ),
        _ => false,
    };
    if !owners_eq {
        return false;
    }
    let keys_eq = match (&a.action_key, &b.action_key) {
        (Some(x), Some(y)) => str_eq(x.as_str(), y.as_str()),
        (None, None) => true,
        _ => false,
    };
    keys_eq && a.id == b.id
}

/// The result cache of the surrounding engine, modelled as library state:
/// at most one evaluation per key ever happens against it, and every later
/// resolution of that key observes the one cached result.
#[derive(Debug)]
pub struct EvaluationCache {
    entries: Vec<(DeferredKey, Result<DynamicLambdaOutput, DynamicLambdaError>)>,
    invocations: u64,
}

impl View for EvaluationCache {
    type V = CacheView;

    closed spec fn view(&self) -> CacheView {
        CacheView {
            entries: self.entries@.map_values(
                |e: (DeferredKey, Result<DynamicLambdaOutput, DynamicLambdaError>)|
                    (e.0@, res_view(e.1)),
            ),
            invocations: self.invocations as int,
        }
    }
}

impl EvaluationCache {
    /// An empty cache: nothing resolved, nothing invoked.
    pub fn new() -> (r: Self)
        ensures
            r@.entries == Seq::<(KeyView, CachedResultView)>::empty(),
            r@.invocations == 0,
    {
        let r = EvaluationCache { entries: Vec::new(), invocations: 0 };
        proof {
            assert(r@.entries =~= Seq::<(KeyView, CachedResultView)>::empty());
        }
        r
    }

    /// How often a callback was invoked through this cache.
    pub fn invocations(&self) -> (r: u64)
        ensures
            r == self@.invocations,
    {
        self.invocations
    }

    /// The cached result under `key`, if any.
    fn find(&self, key: &DeferredKey) -> (r: Option<
        &Result<DynamicLambdaOutput, DynamicLambdaError>,
    >)
        ensures
            match r {
                Some(res) => cache_lookup(self@.entries, key@) == Some(res_view(*res)),
                None => cache_lookup(self@.entries, key@) is None,
            },
    {
        let ghost all = self@.entries;
        proof {
            assert(all.subrange(0, all.len() as int) =~= all);
        }
        let mut i: usize = 0;
        while i < self.entries.len()
            invariant
                i <= all.len(),
                all == self@.entries,
                cache_lookup(all.subrange(i as int, all.len() as int), key@) == cache_lookup(
                    all,
                    key@,
                ),
            decreases self.entries@.len() - i,
        {
            proof {
                assert(all.subrange(i as int, all.len() as int).subrange(
                    1,
                    all.subrange(i as int, all.len() as int).len() as int,
                ) =~= all.subrange(i + 1, all.len() as int));
            }
            if deferred_key_eq(&self.entries[i].0, key) {
                return Some(&self.entries[i].1);
            }
            i += 1;
        }
        proof {
            assert(all.subrange(all.len() as int, all.len() as int) =~= Seq::<(
                KeyView,
                CachedResultView,
            )>::empty());
        }
        None
    }

    /// Resolves the lambda registered under `key`: at most one execution per
    /// key — a cached key is answered from the cache, with the context
    /// untouched and no callback invocation; an uncached one is executed
    /// exactly once and its result, success or failure, is cached for every
    /// later caller.
    pub fn resolve_lambda(
        &mut self,
        key: &DeferredKey,
        lambda: &DynamicLambda,
        deferred_ctx: &mut DeferredCtx,
    ) -> (r: Result<DynamicLambdaOutput, DynamicLambdaError>)
        requires
            old(self)@.invocations < u64::MAX,
            cache_lookup(old(self)@.entries, key@) is None ==> {
                &&& lambda.wf()
                &&& old(deferred_ctx).registry.wf()
                &&& old(deferred_ctx)@.registry.base == lambda.owner_view()
                &&& (lambda.owner_view() matches OwnerView::TargetLabel(t) ==> lookup_platform(
                    old(deferred_ctx)@.configured_targets,
                    t,
                ) is Some)
                &&& (forall|j: int|
                    0 <= j < lambda.dynamic_contents().len() ==> ((
                    #[trigger] lambda.dynamic_contents()[j]) matches
                        DeferredInput::MaterializedArtifact(a) ==> lookup_materialized(
                        old(deferred_ctx)@.materialized,
                        a@,
                    ) is Some))
            },
        ensures
            ({
                let (c2, res, invoked) = resolve_lambda_model(
                    old(self)@,
                    key@,
                    *lambda,
                    old(deferred_ctx)@,
                );
                &&& final(self)@ == c2
                &&& res_view(r) == res
                &&& (invoked ==> final(deferred_ctx)@ == (CtxView {
                    registry: execute_model(*lambda, old(deferred_ctx)@).1,
                    ..old(deferred_ctx)@
                }))
                &&& (!invoked ==> *final(deferred_ctx) == *old(deferred_ctx))
            }),
    {
        match self.find(key) {
            Some(res) => {
                let r = match res {
                    Ok(o) => Ok(o.duplicate()),
                    Err(e) => Err(e.duplicate()),
                };
                return r;
            },
            None => (),
        }
        let result = lambda.execute(deferred_ctx);
        let cached = match &result {
            Ok(o) => Ok(o.duplicate()),
            Err(e) => Err(e.duplicate()),
        };
        let ghost before = self@.entries;
        self.entries.push((key.duplicate(), cached));
        self.invocations = self.invocations + 1;
        proof {
            assert(self@.entries =~= before.push(
                (key@, res_view(result)),
            ));
        }
        result
    }

    /// Resolves a dynamic action placeholder: follows its single deferred
    /// edge to the lambda's cached output and redirects to the action's
    /// slot. A missing or failed lambda result is an internal error.
    pub fn resolve_action(&self, action: &DynamicAction) -> (r: Result<
        DeferredValue<RegisteredAction>,
        DynamicLambdaError,
    >)
        ensures
            match r {
                Ok(v) => v matches DeferredValue::Deferred(d) && resolve_action_model(
                    self@.entries,
                    action.input_view(),
                    action.index(),
                ) == Ok::<KeyView, ErrView>(d@),
                Err(e) => resolve_action_model(self@.entries, action.input_view(), action.index())
                    == Err::<KeyView, ErrView>(e@),
            },
    {
        let key = match action.inputs() {
            DeferredInput::Deferred(k) => k,
            _ => {
                return Err(
                    DynamicLambdaError::Internal(InternalErrorKind::WrongDynamicActionInput),
                );
            },
        };
        match self.find(key) {
            Some(Ok(out)) => action.execute(out),
            Some(Err(e)) => Err(e.duplicate()),
            None => Err(DynamicLambdaError::Internal(InternalErrorKind::MissingDeferredData)),
        }
    }
}

proof fn lemma_cache_lookup_push(
    entries: Seq<(KeyView, CachedResultView)>,
    p: (KeyView, CachedResultView),
    k: KeyView,
)
    ensures
        cache_lookup(entries, k) is Some ==> cache_lookup(entries.push(p), k) == cache_lookup(
            entries,
            k,
        ),
        cache_lookup(entries, k) is None && p.0 == k ==> cache_lookup(entries.push(p), k) == Some(
            p.1,
        ),
        cache_lookup(entries, k) is None && p.0 != k ==> cache_lookup(entries.push(p), k) is None,
    decreases entries.len(),
{
    let t = entries.push(p).subrange(1, entries.push(p).len() as int);
    if entries.len() == 0 {
        assert(entries.push(p)[0] == p);
        assert(t =~= Seq::<(KeyView, CachedResultView)>::empty());
        assert(t.len() == 0);
        assert(cache_lookup(t, k) is None);
        if p.0 == k {
            assert(cache_lookup(entries.push(p), k) == Some(p.1));
        } else {
            assert(cache_lookup(entries.push(p), k) == cache_lookup(t, k));
        }
    } else {
        let tail = entries.subrange(1, entries.len() as int);
        assert(entries.push(p)[0] == entries[0]);
        assert(t =~= tail.push(p));
        lemma_cache_lookup_push(tail, p, k);
        if entries[0].0 == k {
            assert(cache_lookup(entries.push(p), k) == Some(entries[0].1));
        } else {
            assert(cache_lookup(entries.push(p), k) == cache_lookup(t, k));
            assert(cache_lookup(t, k) == cache_lookup(tail.push(p), k));
            assert(cache_lookup(entries, k) == cache_lookup(tail, k));
        }
    }
}

/// Launching any number of resolutions of the same lambda key, one after
/// the other, triggers at most one callback invocation: after the first
/// resolution the key is cached, and every later resolution returns the
/// very same result while invoking nothing.
pub proof fn lemma_at_most_one_invocation(
    cache: CacheView,
    key: KeyView,
    l: DynamicLambda,
    ctx1: CtxView,
    ctx2: CtxView,
)
    ensures
        ({
            let (c1, res1, inv1) = resolve_lambda_model(cache, key, l, ctx1);
            let (c2, res2, inv2) = resolve_lambda_model(c1, key, l, ctx2);
            &&& !inv2
            &&& res2 == res1
            &&& c2 == c1
            &&& c1.invocations <= cache.invocations + 1
        }),
{
    let (c1, res1, inv1) = resolve_lambda_model(cache, key, l, ctx1);
    match cache_lookup(cache.entries, key) {
        Some(_) => {},
        None => {
            let (res, _reg) = execute_model(l, ctx1);
            lemma_cache_lookup_push(cache.entries, (key, res), key);
        },
    }
}

/// Resolving a dynamic action placeholder pointing at slot `index` of a
/// lambda whose cached output holds `out` always redirects to
/// `out[index]`; the result depends only on the cached output and the
/// slot, so repeated resolution — from this cache or any cache agreeing on
/// the lambda's key — yields the same key.
pub proof fn lemma_action_redirects_to_slot(
    entries1: Seq<(KeyView, CachedResultView)>,
    entries2: Seq<(KeyView, CachedResultView)>,
    k: KeyView,
    out: Seq<KeyView>,
    index: int,
)
    requires
        cache_lookup(entries1, k) == Some(Ok::<Seq<KeyView>, ErrView>(out)),
        cache_lookup(entries2, k) == Some(Ok::<Seq<KeyView>, ErrView>(out)),
        0 <= index < out.len(),
    ensures
        resolve_action_model(entries1, InputView::Deferred(k), index) == Ok::<KeyView, ErrView>(
            out[index],
        ),
        resolve_action_model(entries1, InputView::Deferred(k), index) == resolve_action_model(
            entries2,
            InputView::Deferred(k),
            index,
        ),
{
}

} // verus!
