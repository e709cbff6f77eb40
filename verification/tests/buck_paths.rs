use action_graph::AbsNormPathBuf;
use action_graph::ArtifactFs;
use action_graph::BaseDeferredKey;
use action_graph::BuckOutPath;
use action_graph::BuckOutPathResolver;
use action_graph::BuckOutScratchPath;
use action_graph::CategoryRef;
use action_graph::CellName;
use action_graph::CellRelativePath;
use action_graph::CellResolver;
use action_graph::CellRootPathBuf;
use action_graph::ConfigurationData;
use action_graph::ForwardRelativePathBuf;
use action_graph::PackageLabel;
use action_graph::ProjectRelativePathBuf;
use action_graph::ProjectRoot;
use action_graph::SourcePath;
use action_graph::TargetLabel;
use action_graph::TargetNameRef;
use regex::Regex;

#[test]
fn buck_path_resolves() {
    let cell_resolver = CellResolver::testing_with_name_and_path(
        CellName::testing_new("foo"),
        CellRootPathBuf::new(ProjectRelativePathBuf::unchecked_new("bar-cell".into())),
    );
    let buck_out_path_resolver = BuckOutPathResolver::new(ProjectRelativePathBuf::unchecked_new(
        "base/buck-out/v2".into(),
    ));
    let artifact_fs = ArtifactFs::new(
        cell_resolver,
        buck_out_path_resolver,
        ProjectRoot::new_unchecked(AbsNormPathBuf::new("/project".to_owned()).unwrap()),
    );

    let resolved = artifact_fs
        .resolve_source(SourcePath::testing_new("foo//baz-package", "faz.file").as_ref())
        .unwrap();

    assert_eq!(
        ProjectRelativePathBuf::unchecked_new("bar-cell/baz-package/faz.file".into()),
        resolved
    );

    assert_eq!(
        artifact_fs
            .resolve_source(SourcePath::testing_new("none_existent//baz", "fazx").as_ref())
            .is_err(),
        true
    );
}

#[test]
fn buck_output_path_resolves() {
    let path_resolver = BuckOutPathResolver::new(ProjectRelativePathBuf::unchecked_new(
        "base/buck-out/v2".into(),
    ));

    let pkg = PackageLabel::new(
        CellName::testing_new("foo"),
        CellRelativePath::unchecked_new("baz-package"),
    );
    let target = TargetLabel::new(pkg, TargetNameRef::unchecked_new("target-name"));
    let cfg_target = target.configure(ConfigurationData::testing_new());
    let owner = BaseDeferredKey::TargetLabel(cfg_target);

    let resolved_gen_path = path_resolver.resolve_gen(&BuckOutPath::new(
        owner.duplicate(),
        ForwardRelativePathBuf::unchecked_new("faz.file".into()),
    ));

    let expected_gen_path =
        Regex::new("base/buck-out/v2/gen/foo/[0-9a-z]+/baz-package/__target-name__/faz.file")
            .unwrap();
    assert!(
        expected_gen_path.is_match(resolved_gen_path.as_str()),
        "{}.is_match({})",
        expected_gen_path,
        resolved_gen_path.as_str()
    );

    let resolved_scratch_path = path_resolver.resolve_scratch(
        &BuckOutScratchPath::new(
            owner,
            CategoryRef::new("category").unwrap(),
            Some("blah.file"),
            "1_2".to_owned(),
        )
        .unwrap(),
    );

    let expected_scratch_path =
        Regex::new("base/buck-out/v2/tmp/foo/[0-9a-z]+/category/blah.file").unwrap();
    assert!(
        expected_scratch_path.is_match(resolved_scratch_path.as_str()),
        "{}.is_match({})",
        expected_scratch_path,
        resolved_scratch_path.as_str()
    );
}

#[test]
fn buck_target_output_path_resolves() {
    let path_resolver =
        BuckOutPathResolver::new(ProjectRelativePathBuf::unchecked_new("buck-out".into()));

    let pkg = PackageLabel::new(
        CellName::testing_new("foo"),
        CellRelativePath::unchecked_new("baz-package"),
    );
    let target = TargetLabel::new(pkg, TargetNameRef::unchecked_new("target-name"));
    let cfg_target = target.configure(ConfigurationData::testing_new());
    let owner = BaseDeferredKey::TargetLabel(cfg_target);

    let resolved_gen_path = path_resolver.resolve_gen(&BuckOutPath::new(
        owner.duplicate(),
        ForwardRelativePathBuf::unchecked_new("quux".to_owned()),
    ));

    let expected_gen_path: Regex =
        Regex::new("buck-out/gen/foo/[0-9a-z]+/baz-package/__target-name__/quux").unwrap();
    assert!(
        expected_gen_path.is_match(resolved_gen_path.as_str()),
        "{}.is_match({})",
        expected_gen_path,
        resolved_gen_path.as_str()
    );

    let path = BuckOutPath::with_dynamic_actions_action_key(
        owner.duplicate(),
        ForwardRelativePathBuf::unchecked_new("quux".to_owned()),
        Some("xxx".to_owned()),
    );
    let resolved_gen_path = path_resolver.resolve_gen(&path);

    let expected_gen_path =
        Regex::new("buck-out/gen/foo/[0-9a-z]+/baz-package/__target-name__/__action__xxx__/quux")
            .unwrap();
    assert!(
        expected_gen_path.is_match(resolved_gen_path.as_str()),
        "{}.is_match({})",
        expected_gen_path,
        resolved_gen_path.as_str()
    );

    let resolved_scratch_path = path_resolver.resolve_scratch(
        &BuckOutScratchPath::new(
            owner,
            CategoryRef::new("category").unwrap(),
            Some("xxx_some_crazy_long_file_name_that_causes_it_to_be_hashed_xxx.txt"),
            "xxx_some_long_action_key_but_it_doesnt_matter_xxx".to_owned(),
        )
        .unwrap(),
    );

    let expected_scratch_path =
        Regex::new("buck-out/tmp/foo/[0-9a-z]+/category/_buck_[0-9a-z]+").unwrap();
    assert!(
        expected_scratch_path.is_match(resolved_scratch_path.as_str()),
        "{}.is_match({})",
        expected_scratch_path,
        resolved_scratch_path.as_str()
    );
}

#[test]
fn test_scratch_path_is_sensible() {
    let pkg = PackageLabel::new(
        CellName::testing_new("foo"),
        CellRelativePath::unchecked_new("baz-package"),
    );
    let target = TargetLabel::new(pkg, TargetNameRef::unchecked_new("target-name"));
    let cfg_target = target.configure(ConfigurationData::testing_new());
    let category = CategoryRef::new("category").unwrap();

    // We expect these all to be valid paths, avoiding weird things we throw in
    BuckOutScratchPath::new(
        BaseDeferredKey::TargetLabel(cfg_target.duplicate()),
        category,
        None,
        "1_2".to_owned(),
    )
    .unwrap();

    let mk = move |s: &str| {
        BuckOutScratchPath::new(
            BaseDeferredKey::TargetLabel(cfg_target.duplicate()),
            category,
            Some(s),
            "3_4".to_owned(),
        )
        .unwrap()
        .path
        .as_str()
        .to_owned()
    };

    // We want to preserve reasonable strings
    assert!(mk("hello").ends_with("/hello"));
    assert!(mk("hello/slash").ends_with("/hello/slash"));
    assert!(mk("hello_underscore").ends_with("/hello_underscore"));
    // But hide silly ones
    assert!(!mk("<>weird").contains("<>"));
    assert!(!mk("a space").contains(' '));
    let long_string = str::repeat("q", 10000);
    assert!(!mk(&long_string).contains(&long_string));
    assert!(!mk("foo/../bar").contains(".."));
    // But that we do create different versions
    assert_eq!(mk("normal"), mk("normal"));
    assert_eq!(mk("weird <>"), mk("weird <>"));
    assert_ne!(mk("weird <>"), mk("weird ><"))
}

#[test]
fn test_scratch_path_is_unique() {
    let path_resolver = BuckOutPathResolver::new(ProjectRelativePathBuf::unchecked_new(
        "base/buck-out/v2".into(),
    ));
    let pkg = PackageLabel::new(
        CellName::testing_new("foo"),
        CellRelativePath::unchecked_new("baz-package"),
    );
    let target = TargetLabel::new(pkg, TargetNameRef::unchecked_new("target-name"));
    let cfg_target = target.configure(ConfigurationData::testing_new());

    let mk = move |s: &str, id: &str| {
        path_resolver
            .resolve_scratch(
                &BuckOutScratchPath::new(
                    BaseDeferredKey::TargetLabel(cfg_target.duplicate()),
                    CategoryRef::new("category").unwrap(),
                    Some(id),
                    s.to_owned(),
                )
                .unwrap(),
            )
            .as_str()
            .to_owned()
    };

    // Same action_key, same identifier are equal
    assert_eq!(mk("same_key", "same_id"), mk("same_key", "same_id"));
    assert_eq!(mk("same_key", "_buck_same"), mk("same_key", "_buck_same"));

    // Same action_key, different identifier are not equal
    assert_ne!(mk("same_key", "diff_id1"), mk("same_key", "diff_id2"));
    assert_ne!(mk("same_key", "_buck_1"), mk("same_key", "_buck_2"));

    // Different action_key, same identifier are not equal
    assert_ne!(mk("diff_key1", "same_id"), mk("diff_key2", "same_id"));
    assert_ne!(mk("diff_key1", "_buck_same"), mk("diff_key2", "_buck_same"));

    // Different action_key, different identifier are not equal
    assert_ne!(mk("diff_key1", "diff_id1"), mk("diff_key2", "diff_id2"));
    assert_ne!(mk("diff_key1", "_buck_1"), mk("diff_key2", "_buck_2"));
}
