use action_graph::ActionKey;
use action_graph::AnonTargetKey;
use action_graph::Artifact;
use action_graph::BaseDeferredKey;
use action_graph::BuckOutPath;
use action_graph::BuildArtifact;
use action_graph::CallbackOp;
use action_graph::CallbackReturn;
use action_graph::CallbackScript;
use action_graph::CellName;
use action_graph::CellRelativePath;
use action_graph::ConfigurationData;
use action_graph::DeferredCtx;
use action_graph::DeferredData;
use action_graph::DeferredInput;
use action_graph::DeferredKey;
use action_graph::DeferredRegistry;
use action_graph::DeferredValue;
use action_graph::DynamicAction;
use action_graph::DynamicLambda;
use action_graph::DynamicLambdaError;
use action_graph::DynamicLambdaParams;
use action_graph::EvaluationCache;
use action_graph::ExecutionPlatformResolution;
use action_graph::ForwardRelativePathBuf;
use action_graph::InternalErrorKind;
use action_graph::OutputType;
use action_graph::PackageLabel;
use action_graph::TargetLabel;
use action_graph::TargetNameRef;

fn testing_owner() -> BaseDeferredKey {
    let pkg = PackageLabel::new(
        CellName::testing_new("foo"),
        CellRelativePath::unchecked_new("baz-package"),
    );
    let target = TargetLabel::new(pkg, TargetNameRef::unchecked_new("target-name"));
    BaseDeferredKey::TargetLabel(target.configure(ConfigurationData::testing_new()))
}

fn configured_label_of(owner: &BaseDeferredKey) -> action_graph::ConfiguredTargetLabel {
    match owner {
        BaseDeferredKey::TargetLabel(t) => t.duplicate(),
        _ => panic!("expected a target-label owner"),
    }
}

fn promised_output(owner: &BaseDeferredKey, path: &str, id: usize) -> BuildArtifact {
    BuildArtifact {
        path: BuckOutPath::new(
            owner.duplicate(),
            ForwardRelativePathBuf::unchecked_new(path.to_owned()),
        ),
        key: ActionKey {
            key: DeferredKey {
                owner: owner.duplicate(),
                action_key: None,
                id,
            },
        },
        output_type: OutputType::File,
    }
}

fn testing_ctx(owner: &BaseDeferredKey) -> DeferredCtx {
    DeferredCtx {
        registry: DeferredRegistry::new(owner.duplicate()),
        action_key: "dyn_key".to_owned(),
        configured_targets: vec![(
            configured_label_of(owner),
            ExecutionPlatformResolution {
                platform: "platform-linux".to_owned(),
            },
        )],
        materialized: vec![(
            Artifact {
                name: "in.txt".to_owned(),
            },
            "buck-out/materialized/in.txt".to_owned(),
        )],
        digest_config: 7,
    }
}

fn bound_lambda(owner: &BaseDeferredKey, outputs: Vec<BuildArtifact>, script: CallbackScript) -> DynamicLambda {
    let mut lambda = DynamicLambda::new(
        owner.duplicate(),
        vec![Artifact {
            name: "in.txt".to_owned(),
        }],
        outputs,
    );
    lambda
        .bind(DynamicLambdaParams {
            attributes: "attrs".to_owned(),
            plugins: "plugins".to_owned(),
            lambda: script,
        })
        .unwrap();
    lambda
}

fn lambda_key(owner: &BaseDeferredKey) -> DeferredKey {
    DeferredKey {
        owner: owner.duplicate(),
        action_key: None,
        id: 0,
    }
}

#[test]
fn lambda_binds_both_outputs_in_order() {
    // The lambda declares two outputs; the callback binds each, in order,
    // to a freshly registered action.
    let owner = testing_owner();
    let outputs = vec![
        promised_output(&owner, "out/a.txt", 0),
        promised_output(&owner, "out/b.txt", 1),
    ];
    let script = CallbackScript {
        ops: vec![
            CallbackOp::RegisterAction {
                bound_outputs: vec![0],
            },
            CallbackOp::RegisterAction {
                bound_outputs: vec![1],
            },
        ],
        return_value: CallbackReturn::NoneValue,
    };
    let lambda = bound_lambda(&owner, outputs, script);
    let mut ctx = testing_ctx(&owner);
    let mut cache = EvaluationCache::new();
    let key = lambda_key(&owner);

    let out = cache.resolve_lambda(&key, &lambda, &mut ctx).unwrap();

    // One key per declared output, slot order matching declaration order.
    assert_eq!(out.len(), 2);
    let x = out.get(0).unwrap();
    let y = out.get(1).unwrap();
    // The nested keys continue the context's key space, rooted at the
    // lambda's owner and nested under its action identity.
    assert_eq!(x.key.id, 0);
    assert_eq!(y.key.id, 1);
    assert_eq!(x.key.action_key.as_deref(), Some("dyn_key"));
    assert_eq!(y.key.action_key.as_deref(), Some("dyn_key"));
    assert_eq!(x.key.owner, owner);
    assert_ne!(x.key, y.key);

    // The parent slot now holds the finalized nested registry: both
    // registered actions are in it.
    assert_eq!(ctx.registry.len(), 2);

    // Each placeholder redirects to its slot, and repeated resolution
    // yields the same key.
    let action0 = DynamicAction::new(&DeferredData::new(key.duplicate()), 0);
    let action1 = DynamicAction::new(&DeferredData::new(key.duplicate()), 1);
    let r0 = match cache.resolve_action(&action0).unwrap() {
        DeferredValue::Deferred(d) => d.deferred_key().duplicate(),
        DeferredValue::Ready(_) => panic!("a dynamic action must redirect, never return a value"),
    };
    let r0again = match cache.resolve_action(&action0).unwrap() {
        DeferredValue::Deferred(d) => d.deferred_key().duplicate(),
        DeferredValue::Ready(_) => panic!("a dynamic action must redirect, never return a value"),
    };
    let r1 = match cache.resolve_action(&action1).unwrap() {
        DeferredValue::Deferred(d) => d.deferred_key().duplicate(),
        DeferredValue::Ready(_) => panic!("a dynamic action must redirect, never return a value"),
    };
    assert_eq!(r0, x.key);
    assert_eq!(r0, r0again);
    assert_eq!(r1, y.key);
}

#[test]
fn lambda_must_return_none() {
    // The callback returns a value: execution fails with the declared
    // error, and the placeholder action never resolves.
    let owner = testing_owner();
    let outputs = vec![promised_output(&owner, "out/a.txt", 0)];
    let script = CallbackScript {
        ops: vec![CallbackOp::RegisterAction {
            bound_outputs: vec![0],
        }],
        return_value: CallbackReturn::Value("record(...)".to_owned()),
    };
    let lambda = bound_lambda(&owner, outputs, script);
    let mut ctx = testing_ctx(&owner);
    let mut cache = EvaluationCache::new();
    let key = lambda_key(&owner);

    let err = cache.resolve_lambda(&key, &lambda, &mut ctx).unwrap_err();
    assert_eq!(
        err,
        DynamicLambdaError::LambdaMustReturnNone("record(...)".to_owned())
    );

    // A dependent awaiting the failed lambda receives the same failure.
    let action = DynamicAction::new(&DeferredData::new(key.duplicate()), 0);
    assert_eq!(
        cache.resolve_action(&action).unwrap_err(),
        DynamicLambdaError::LambdaMustReturnNone("record(...)".to_owned())
    );

    // The parent's registry slot still holds a valid (placeholder)
    // registry.
    assert_eq!(ctx.registry.len(), 0);
}

#[test]
fn unbound_output_is_an_internal_error() {
    // Two declared outputs, but the callback binds only one.
    let owner = testing_owner();
    let outputs = vec![
        promised_output(&owner, "out/a.txt", 0),
        promised_output(&owner, "out/b.txt", 1),
    ];
    let script = CallbackScript {
        ops: vec![CallbackOp::RegisterAction {
            bound_outputs: vec![0],
        }],
        return_value: CallbackReturn::NoneValue,
    };
    let lambda = bound_lambda(&owner, outputs, script);
    let mut ctx = testing_ctx(&owner);
    let mut cache = EvaluationCache::new();

    let err = cache
        .resolve_lambda(&lambda_key(&owner), &lambda, &mut ctx)
        .unwrap_err();
    assert_eq!(
        err,
        DynamicLambdaError::Internal(InternalErrorKind::UnboundOutput)
    );
}

#[test]
fn anon_target_owner_fails_immediately() {
    let owner = BaseDeferredKey::AnonTarget(AnonTargetKey {
        label: "anon//:t".to_owned(),
    });
    let outputs = vec![promised_output(&owner, "out/a.txt", 0)];
    let script = CallbackScript {
        ops: vec![CallbackOp::RegisterAction {
            bound_outputs: vec![0],
        }],
        return_value: CallbackReturn::NoneValue,
    };
    let lambda = bound_lambda(&owner, outputs, script);
    let mut ctx = DeferredCtx {
        registry: DeferredRegistry::new(owner.duplicate()),
        action_key: "dyn_key".to_owned(),
        configured_targets: vec![],
        materialized: vec![(
            Artifact {
                name: "in.txt".to_owned(),
            },
            "buck-out/materialized/in.txt".to_owned(),
        )],
        digest_config: 7,
    };
    let mut cache = EvaluationCache::new();

    let err = cache
        .resolve_lambda(&lambda_key(&owner), &lambda, &mut ctx)
        .unwrap_err();
    assert_eq!(err, DynamicLambdaError::AnonTargetIncompatible);
    // The context's registry was never swapped or touched.
    assert_eq!(ctx.registry.len(), 0);
}

#[test]
fn concurrent_resolutions_share_one_invocation() {
    // Resolving the same lambda key again answers from the cache: the
    // callback ran exactly once and both callers observe the same list.
    let owner = testing_owner();
    let outputs = vec![promised_output(&owner, "out/a.txt", 0)];
    let script = CallbackScript {
        ops: vec![CallbackOp::RegisterAction {
            bound_outputs: vec![0],
        }],
        return_value: CallbackReturn::NoneValue,
    };
    let lambda = bound_lambda(&owner, outputs, script);
    let mut ctx = testing_ctx(&owner);
    let mut cache = EvaluationCache::new();
    let key = lambda_key(&owner);

    let first = cache.resolve_lambda(&key, &lambda, &mut ctx).unwrap();
    assert_eq!(cache.invocations(), 1);

    let second = cache.resolve_lambda(&key, &lambda, &mut ctx).unwrap();
    assert_eq!(cache.invocations(), 1);
    assert_eq!(first.len(), second.len());
    assert_eq!(
        first.get(0).unwrap().key,
        second.get(0).unwrap().key
    );
}

#[test]
fn declared_errors_carry_their_diagnostics() {
    let must_return =
        DynamicLambdaError::LambdaMustReturnNone("record(...)".to_owned());
    assert_eq!(
        must_return.message(),
        "dynamic_output lambda must return `None`, got: `record(...)`"
    );
    assert_eq!(
        DynamicLambdaError::AnonTargetIncompatible.message(),
        "dynamic_output and anon_target cannot be used together (yet)"
    );
    assert_eq!(
        DynamicLambdaError::Internal(InternalErrorKind::AttributesLambdaAlreadySet).message(),
        "`attributes_lambda` field already set"
    );
}

#[test]
fn binding_a_lambda_twice_is_an_internal_error() {
    let owner = testing_owner();
    let mut lambda = DynamicLambda::new(owner.duplicate(), vec![], vec![]);
    let params = || DynamicLambdaParams {
        attributes: "attrs".to_owned(),
        plugins: "plugins".to_owned(),
        lambda: CallbackScript {
            ops: vec![],
            return_value: CallbackReturn::NoneValue,
        },
    };
    lambda.bind(params()).unwrap();
    let err = lambda.bind(params()).unwrap_err();
    assert_eq!(
        err,
        DynamicLambdaError::Internal(InternalErrorKind::AttributesLambdaAlreadySet)
    );
}

#[test]
fn executing_an_unbound_lambda_is_an_internal_error() {
    let owner = testing_owner();
    let lambda = DynamicLambda::new(owner.duplicate(), vec![], vec![]);
    let mut ctx = testing_ctx(&owner);
    let mut cache = EvaluationCache::new();
    let err = cache
        .resolve_lambda(&lambda_key(&owner), &lambda, &mut ctx)
        .unwrap_err();
    assert_eq!(
        err,
        DynamicLambdaError::Internal(InternalErrorKind::AttributesLambdaNotSet)
    );
}

#[test]
fn lambda_inputs_dedup_and_keep_order() {
    // A target-label owner gets an implicit configured-target edge first;
    // requested artifacts follow in order with duplicates dropped.
    let owner = testing_owner();
    let lambda = DynamicLambda::new(
        owner.duplicate(),
        vec![
            Artifact {
                name: "a.txt".to_owned(),
            },
            Artifact {
                name: "a.txt".to_owned(),
            },
            Artifact {
                name: "b.txt".to_owned(),
            },
        ],
        vec![],
    );
    let inputs = lambda.inputs();
    assert_eq!(inputs.len(), 3);
    match &inputs[0] {
        DeferredInput::ConfiguredTarget(t) => {
            assert_eq!(t.name, "target-name");
        }
        other => panic!("expected the implicit configured-target edge, got {:?}", other),
    }
    match (&inputs[1], &inputs[2]) {
        (DeferredInput::MaterializedArtifact(a), DeferredInput::MaterializedArtifact(b)) => {
            assert_eq!(a.name, "a.txt");
            assert_eq!(b.name, "b.txt");
        }
        other => panic!("expected two artifact edges, got {:?}", other),
    }
}

#[test]
fn callback_declared_artifacts_join_the_nested_graph() {
    // The callback may declare further artifacts and bind them with the
    // promised one in a single action.
    let owner = testing_owner();
    let outputs = vec![promised_output(&owner, "out/a.txt", 0)];
    let script = CallbackScript {
        ops: vec![
            CallbackOp::DeclareArtifact {
                path: BuckOutPath::new(
                    owner.duplicate(),
                    ForwardRelativePathBuf::unchecked_new("out/extra.txt".to_owned()),
                ),
                output_type: OutputType::File,
            },
            CallbackOp::RegisterAction {
                bound_outputs: vec![0, 1],
            },
        ],
        return_value: CallbackReturn::NoneValue,
    };
    let lambda = bound_lambda(&owner, outputs, script);
    let mut ctx = testing_ctx(&owner);
    let mut cache = EvaluationCache::new();

    let out = cache
        .resolve_lambda(&lambda_key(&owner), &lambda, &mut ctx)
        .unwrap();
    assert_eq!(out.len(), 1);
    assert_eq!(ctx.registry.len(), 1);
}

#[test]
fn binding_an_output_twice_is_an_internal_error() {
    let owner = testing_owner();
    let outputs = vec![promised_output(&owner, "out/a.txt", 0)];
    let script = CallbackScript {
        ops: vec![CallbackOp::RegisterAction {
            bound_outputs: vec![0, 0],
        }],
        return_value: CallbackReturn::NoneValue,
    };
    let lambda = bound_lambda(&owner, outputs, script);
    let mut ctx = testing_ctx(&owner);
    let mut cache = EvaluationCache::new();

    let err = cache
        .resolve_lambda(&lambda_key(&owner), &lambda, &mut ctx)
        .unwrap_err();
    assert_eq!(
        err,
        DynamicLambdaError::Internal(InternalErrorKind::OutputAlreadyBound)
    );
}

#[test]
fn binding_a_missing_handle_is_an_internal_error() {
    let owner = testing_owner();
    let outputs = vec![promised_output(&owner, "out/a.txt", 0)];
    let script = CallbackScript {
        ops: vec![CallbackOp::RegisterAction {
            bound_outputs: vec![5],
        }],
        return_value: CallbackReturn::NoneValue,
    };
    let lambda = bound_lambda(&owner, outputs, script);
    let mut ctx = testing_ctx(&owner);
    let mut cache = EvaluationCache::new();

    let err = cache
        .resolve_lambda(&lambda_key(&owner), &lambda, &mut ctx)
        .unwrap_err();
    assert_eq!(
        err,
        DynamicLambdaError::Internal(InternalErrorKind::InvalidOutputHandle)
    );
}

#[test]
fn lambda_provides_its_promised_outputs_and_span() {
    let owner = testing_owner();
    let outputs = vec![
        promised_output(&owner, "out/a.txt", 0),
        promised_output(&owner, "out/b.txt", 1),
    ];
    let lambda = DynamicLambda::new(owner.duplicate(), vec![], outputs);
    let provided = lambda.provide_outputs();
    assert_eq!(provided.len(), 2);
    assert_eq!(provided[0].path.path().as_str(), "out/a.txt");
    assert_eq!(provided[1].path.path().as_str(), "out/b.txt");
    let span = lambda.span().unwrap();
    assert_eq!(span.owner, owner);
}

#[test]
fn dynamic_action_declares_its_single_edge() {
    let owner = testing_owner();
    let key = lambda_key(&owner);
    let action = DynamicAction::new(&DeferredData::new(key.duplicate()), 3);
    assert_eq!(action.output_artifact_index(), 3);
    match action.inputs() {
        DeferredInput::Deferred(k) => assert_eq!(*k, key),
        other => panic!("expected a deferred edge, got {:?}", other),
    }
}

#[test]
fn resolving_an_action_without_a_cached_lambda_fails() {
    let owner = testing_owner();
    let cache = EvaluationCache::new();
    let action = DynamicAction::new(&DeferredData::new(lambda_key(&owner)), 0);
    let err = cache.resolve_action(&action).unwrap_err();
    assert_eq!(
        err,
        DynamicLambdaError::Internal(InternalErrorKind::MissingDeferredData)
    );
}

#[test]
fn resolving_an_out_of_range_slot_fails() {
    let owner = testing_owner();
    let outputs = vec![promised_output(&owner, "out/a.txt", 0)];
    let script = CallbackScript {
        ops: vec![CallbackOp::RegisterAction {
            bound_outputs: vec![0],
        }],
        return_value: CallbackReturn::NoneValue,
    };
    let lambda = bound_lambda(&owner, outputs, script);
    let mut ctx = testing_ctx(&owner);
    let mut cache = EvaluationCache::new();
    let key = lambda_key(&owner);
    cache.resolve_lambda(&key, &lambda, &mut ctx).unwrap();

    let action = DynamicAction::new(&DeferredData::new(key), 1);
    let err = cache.resolve_action(&action).unwrap_err();
    assert_eq!(
        err,
        DynamicLambdaError::Internal(InternalErrorKind::UnexpectedIndex)
    );
}
