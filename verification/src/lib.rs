//! A deferred, self-extending action graph.
//!
//! A build rule may declare a unit of work whose concrete sub-graph of
//! outputs is only determined at execution time: a *dynamic lambda* captures a
//! callback and a list of promised output artifacts, and a *dynamic action*
//! placeholder forwards to one indexed slot of the lambda's eventual result.
//! Executing the lambda runs the callback against a nested graph-construction
//! registry, temporarily swapped into the surrounding execution context, and
//! resolves every promised output to a real computed node key.

mod artifact_fs;
mod base_deferred_key;
mod buck_out_path;
mod category;
mod cells;
mod deferred;
mod directory;
mod docs;
mod dynamic;
mod engine;
mod hashing;
mod index_set;
mod paths;
mod scuba;
mod sysroot;
mod target;

pub use artifact_fs::AbsNormPathBuf;
pub use artifact_fs::ArtifactFs;
pub use artifact_fs::ProjectRoot;
pub use artifact_fs::SourcePath;
pub use base_deferred_key::AnonTargetKey;
pub use base_deferred_key::BaseDeferredKey;
pub use base_deferred_key::BxlKey;
pub use base_deferred_key::ExecutionPlatformResolution;
pub use base_deferred_key::OwnerView;
pub use buck_out_path::BuckOutPath;
pub use buck_out_path::BuckOutPathResolver;
pub use buck_out_path::BuckOutScratchPath;
pub use buck_out_path::BuckOutTestPath;
pub use category::CategoryRef;
pub use cells::CellName;
pub use cells::CellResolver;
pub use cells::CellRootPathBuf;
pub use cells::ExternalCellOrigin;
pub use cells::GitCellSetup;
pub use deferred::Artifact;
pub use deferred::DeferredCtx;
pub use deferred::DeferredData;
pub use deferred::DeferredInput;
pub use deferred::DeferredKey;
pub use deferred::DeferredRegistry;
pub use deferred::DeferredValue;
pub use deferred::InputView;
pub use deferred::KeyView;
pub use deferred::RegistryView;
pub use directory::DashMapDirectoryInterner;
pub use directory::DirectoryBuilder;
pub use directory::DirectoryData;
pub use directory::DirectoryEntry;
pub use directory::ExclusiveDirectory;
pub use directory::FileNameBuf;
pub use directory::ImmutableDirectory;
pub use directory::SharedDirectory;
pub use docs::AstAssignTarget;
pub use docs::AstDef;
pub use docs::AstExpr;
pub use docs::AstParameter;
pub use docs::AstStmt;
pub use docs::DocFunction;
pub use docs::DocParam;
pub use docs::DocProperty;
pub use docs::get_doc_item_for_assign;
pub use docs::get_doc_item_for_def;
pub use docs::peek_docstring;
pub use dynamic::ActionKey;
pub use dynamic::AnalysisRegistry;
pub use dynamic::AnalysisRegistryView;
pub use dynamic::BuildArtifact;
pub use dynamic::BuildArtifactView;
pub use dynamic::CallbackOp;
pub use dynamic::CallbackReturn;
pub use dynamic::CallbackScript;
pub use dynamic::DeclaredArtifact;
pub use dynamic::DeclaredArtifactView;
pub use dynamic::DynamicAction;
pub use dynamic::DynamicLambda;
pub use dynamic::DynamicLambdaCtxData;
pub use dynamic::DynamicLambdaError;
pub use dynamic::DynamicLambdaOutput;
pub use dynamic::DynamicLambdaParams;
pub use dynamic::DynamicLambdaStart;
pub use dynamic::ErrView;
pub use dynamic::InternalErrorKind;
pub use dynamic::OutputType;
pub use dynamic::RegisteredAction;
pub use dynamic::dynamic_lambda_ctx_data;
pub use dynamic::invoke_dynamic_output_lambda;
pub use engine::EvaluationCache;
pub use hashing::hash_hex;
pub use hashing::to_hex;
pub use paths::CellRelativePath;
pub use paths::ForwardRelativePathBuf;
pub use paths::PathError;
pub use paths::ProjectRelativePathBuf;
pub use scuba::SampleValue;
pub use scuba::ScubaSample;
pub use scuba::log_check;
pub use scuba::log_check_error;
pub use scuba::log_develop;
pub use scuba::log_develop_error;
pub use scuba::new_sample;
pub use sysroot::Sysroot;
pub use sysroot::buckconfig_sysroot_from_output;
pub use sysroot::buckconfig_sysroot_linux;
pub use sysroot::rustup_sysroot_from_output;
pub use sysroot::truncate_line_ending;
pub use target::ConfigurationData;
pub use target::ConfiguredTargetLabel;
pub use target::PackageLabel;
pub use target::TargetLabel;
pub use target::TargetNameRef;
