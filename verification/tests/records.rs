use action_graph::AstAssignTarget;
use action_graph::AstDef;
use action_graph::AstExpr;
use action_graph::AstParameter;
use action_graph::AstStmt;
use action_graph::BaseDeferredKey;
use action_graph::BuckOutPath;
use action_graph::BuckOutPathResolver;
use action_graph::BuckOutTestPath;
use action_graph::CategoryRef;
use action_graph::CellName;
use action_graph::CellRelativePath;
use action_graph::ConfigurationData;
use action_graph::DashMapDirectoryInterner;
use action_graph::DirectoryBuilder;
use action_graph::DirectoryData;
use action_graph::DirectoryEntry;
use action_graph::ExclusiveDirectory;
use action_graph::ExternalCellOrigin;
use action_graph::FileNameBuf;
use action_graph::ForwardRelativePathBuf;
use action_graph::GitCellSetup;
use action_graph::ImmutableDirectory;
use action_graph::PackageLabel;
use action_graph::ProjectRelativePathBuf;
use action_graph::SampleValue;
use action_graph::ScubaSample;
use action_graph::TargetLabel;
use action_graph::TargetNameRef;
use action_graph::buckconfig_sysroot_linux;
use action_graph::get_doc_item_for_assign;
use action_graph::get_doc_item_for_def;
use action_graph::log_check;
use action_graph::log_develop;
use action_graph::new_sample;
use action_graph::rustup_sysroot_from_output;
use action_graph::to_hex;
use action_graph::truncate_line_ending;

fn testing_owner() -> BaseDeferredKey {
    let pkg = PackageLabel::new(
        CellName::testing_new("foo"),
        CellRelativePath::unchecked_new("baz-package"),
    );
    let target = TargetLabel::new(pkg, TargetNameRef::unchecked_new("target-name"));
    BaseDeferredKey::TargetLabel(target.configure(ConfigurationData::testing_new()))
}

#[test]
fn hex_rendering_is_exact() {
    assert_eq!(to_hex(0), "0");
    assert_eq!(to_hex(255), "ff");
    assert_eq!(to_hex(48879), "beef");
    assert_eq!(to_hex(u64::MAX), "ffffffffffffffff");
}

#[test]
fn forward_rel_path_validation() {
    assert!(ForwardRelativePathBuf::new("a/b.c").is_ok());
    assert!(ForwardRelativePathBuf::new("").is_ok());
    assert!(ForwardRelativePathBuf::new("a//b").is_err());
    assert!(ForwardRelativePathBuf::new("/a").is_err());
    assert!(ForwardRelativePathBuf::new("a/").is_err());
    assert!(ForwardRelativePathBuf::new("./a").is_err());
    assert!(ForwardRelativePathBuf::new("a/../b").is_err());
    assert!(ForwardRelativePathBuf::new("..").is_err());
}

#[test]
fn category_validation() {
    assert!(CategoryRef::new("cxx_link").is_ok());
    assert!(CategoryRef::new("").is_err());
    assert!(CategoryRef::new("Bad").is_err());
    assert!(CategoryRef::new("has space").is_err());
    assert!(CategoryRef::new("9lives").is_err());
}

#[test]
fn unhashed_gen_spreads_the_target() {
    let resolver = BuckOutPathResolver::new(ProjectRelativePathBuf::unchecked_new(
        "base/buck-out/v2".into(),
    ));
    let owner = testing_owner();
    let path = BuckOutPath::new(
        owner,
        ForwardRelativePathBuf::unchecked_new("faz.file".into()),
    );
    let unhashed = resolver.unhashed_gen(&path).unwrap();
    assert_eq!(
        unhashed.as_str(),
        "base/buck-out/v2/gen/foo/baz-package/__target-name__/faz.file"
    );
}

#[test]
fn external_cell_sources_resolve_by_origin() {
    let resolver =
        BuckOutPathResolver::new(ProjectRelativePathBuf::unchecked_new("buck-out".into()));
    let path = CellRelativePath::unchecked_new("src/lib.rs");
    let bundled = resolver.resolve_external_cell_source(
        &path,
        ExternalCellOrigin::Bundled(CellName::testing_new("prelude")),
    );
    assert_eq!(
        bundled.as_str(),
        "buck-out/external_cells/bundled/prelude/src/lib.rs"
    );
    let git = resolver.resolve_external_cell_source(
        &path,
        ExternalCellOrigin::Git(GitCellSetup {
            git: "https://example.com/repo.git".to_owned(),
            commit: "0123abcd".to_owned(),
        }),
    );
    assert_eq!(
        git.as_str(),
        "buck-out/external_cells/git/0123abcd/src/lib.rs"
    );
}

#[test]
fn test_paths_resolve_under_the_test_prefix() {
    let resolver =
        BuckOutPathResolver::new(ProjectRelativePathBuf::unchecked_new("buck-out".into()));
    let path = BuckOutTestPath::new(
        ForwardRelativePathBuf::unchecked_new("session".into()),
        ForwardRelativePathBuf::unchecked_new("case/out.log".into()),
    );
    let resolved = resolver.resolve_test(&path);
    assert_eq!(resolved.as_str(), "buck-out/test/session/case/out.log");
}

#[test]
fn buck_out_path_len_counts_bytes() {
    let owner = testing_owner();
    let path = BuckOutPath::new(
        owner,
        ForwardRelativePathBuf::unchecked_new("faz.file".into()),
    );
    assert_eq!(path.len(), 8);
    assert_eq!(path.path().as_str(), "faz.file");
    assert_eq!(path.dynamic_actions_action_key(), None);
}

#[test]
fn sample_json_is_exact() {
    let mut sample = ScubaSample::new();
    sample.add("a", SampleValue::Str("b\"c\\d".to_owned()));
    sample.add("n", SampleValue::Int(-42));
    sample.add("zero", SampleValue::Int(0));
    sample.add("ok", SampleValue::Bool(true));
    assert_eq!(
        sample.to_json(),
        "{\"a\":\"b\\\"c\\\\d\",\"n\":-42,\"zero\":0,\"ok\":true}"
    );
}

#[test]
fn develop_sample_carries_the_run() {
    let sample = log_develop(125, "Targets([foo//:bar])", "rev123", true, None);
    assert_eq!(sample.entries.len(), 7);
    assert_eq!(sample.entries[0].0, "root_span");
    assert_eq!(
        sample.entries[0].1,
        SampleValue::Str("develop".to_owned())
    );
    assert_eq!(sample.entries[1].0, "unixname");
    assert_eq!(sample.entries[2].0, "hostname");
    assert_eq!(sample.entries[3].0, "duration_ms");
    assert_eq!(sample.entries[3].1, SampleValue::Int(125));
    assert_eq!(sample.entries[4].0, "input");
    assert_eq!(
        sample.entries[4].1,
        SampleValue::Str("Targets([foo//:bar])".to_owned())
    );
    assert_eq!(sample.entries[5].0, "revision");
    assert_eq!(sample.entries[6].0, "invoked_by_ra");
    assert_eq!(sample.entries[6].1, SampleValue::Bool(true));
}

#[test]
fn check_sample_records_clippy_as_a_string() {
    let sample = log_check(10, "src/lib.rs", false, Some("session-1".to_owned()));
    assert_eq!(sample.entries.len(), 7);
    assert_eq!(sample.entries[3].0, "session_id");
    assert_eq!(
        sample.entries[3].1,
        SampleValue::Str("session-1".to_owned())
    );
    assert_eq!(sample.entries[6].0, "use_clippy");
    assert_eq!(sample.entries[6].1, SampleValue::Str("false".to_owned()));
}

#[test]
fn session_id_enters_the_sample_head() {
    let with_session = new_sample("develop", Some("s".to_owned()));
    assert_eq!(with_session.entries.len(), 4);
    let without = new_sample("develop", None);
    assert_eq!(without.entries.len(), 3);
}

#[test]
fn rustup_sysroot_is_derived_from_the_compiler_output() {
    let sysroot = rustup_sysroot_from_output("/home/u/.rustup/toolchains/stable\n".to_owned());
    assert_eq!(sysroot.sysroot, "/home/u/.rustup/toolchains/stable");
    assert_eq!(
        sysroot.sysroot_src.as_deref(),
        Some("/home/u/.rustup/toolchains/stable/lib/rustlib/src/rust/library")
    );
}

#[test]
fn buckconfig_sysroot_on_linux_is_fixed() {
    let sysroot = buckconfig_sysroot_linux("/data/project", "tools/sysroot-src");
    assert_eq!(
        sysroot.sysroot,
        "/data/project/fbcode/third-party-buck/platform010/build/rust/llvm-fb-17"
    );
    assert_eq!(
        sysroot.sysroot_src.as_deref(),
        Some("/data/project/tools/sysroot-src")
    );
}

#[test]
fn line_endings_are_chomped_once() {
    let mut a = "x\r\n".to_owned();
    truncate_line_ending(&mut a);
    assert_eq!(a, "x");
    let mut b = "x\n".to_owned();
    truncate_line_ending(&mut b);
    assert_eq!(b, "x");
    let mut c = "x".to_owned();
    truncate_line_ending(&mut c);
    assert_eq!(c, "x");
    let mut d = "x\n\n".to_owned();
    truncate_line_ending(&mut d);
    assert_eq!(d, "x\n");
}

#[test]
fn def_docstring_becomes_a_doc_function() {
    let def = AstDef {
        params: vec![
            AstParameter::Normal("ctx".to_owned()),
            AstParameter::Slash,
            AstParameter::Args("args".to_owned()),
            AstParameter::Star,
            AstParameter::KwArgs("kwargs".to_owned()),
        ],
        body: AstStmt::Statements(vec![
            AstStmt::Expression(AstExpr::StringLiteral("Runs the rule.".to_owned())),
            AstStmt::Other,
        ]),
    };
    let doc = get_doc_item_for_def(&def).unwrap();
    assert_eq!(doc.docstring, "Runs the rule.");
    let names: Vec<&str> = doc.params.iter().map(|p| p.name.as_str()).collect();
    assert_eq!(names, vec!["ctx", "args", "kwargs"]);
}

#[test]
fn def_without_docstring_has_no_doc() {
    let def = AstDef {
        params: vec![AstParameter::Normal("ctx".to_owned())],
        body: AstStmt::Statements(vec![AstStmt::Other]),
    };
    assert!(get_doc_item_for_def(&def).is_none());
}

#[test]
fn assign_docstring_becomes_a_doc_property() {
    let previous = AstStmt::Expression(AstExpr::StringLiteral("A constant.".to_owned()));
    let target = AstAssignTarget {
        name: "X".to_owned(),
    };
    let doc = get_doc_item_for_assign(&previous, &target).unwrap();
    assert_eq!(doc.docstring, "A constant.");
    assert!(get_doc_item_for_assign(&AstStmt::Other, &target).is_none());
}

fn leaf_dir(name: &str, fingerprint: u64) -> ImmutableDirectory<String> {
    ImmutableDirectory::Exclusive(ExclusiveDirectory {
        data: DirectoryData {
            entries: vec![(
                FileNameBuf {
                    name: name.to_owned(),
                },
                DirectoryEntry::Leaf("payload".to_owned()),
            )],
            fingerprint,
        },
    })
}

#[test]
fn directory_entries_and_lookup() {
    let dir = leaf_dir("a.txt", 11);
    assert_eq!(dir.entries().len(), 1);
    assert_eq!(dir.fingerprint(), 11);
    let hit = dir.get(&FileNameBuf {
        name: "a.txt".to_owned(),
    });
    assert!(matches!(hit, Some(DirectoryEntry::Leaf(l)) if l == "payload"));
    let miss = dir.get(&FileNameBuf {
        name: "b.txt".to_owned(),
    });
    assert!(miss.is_none());
}

#[test]
fn directory_equality_is_by_fingerprint() {
    let a = leaf_dir("a.txt", 11);
    let b = leaf_dir("b.txt", 11);
    let c = leaf_dir("a.txt", 12);
    assert!(a == b);
    assert!(a != c);
}

#[test]
fn directory_into_builder_takes_subdirectories_over() {
    let sub = leaf_dir("inner.txt", 5);
    let dir = ImmutableDirectory::Exclusive(ExclusiveDirectory {
        data: DirectoryData {
            entries: vec![
                (
                    FileNameBuf {
                        name: "sub".to_owned(),
                    },
                    DirectoryEntry::Dir(sub),
                ),
                (
                    FileNameBuf {
                        name: "top.txt".to_owned(),
                    },
                    DirectoryEntry::Leaf("payload".to_owned()),
                ),
            ],
            fingerprint: 99,
        },
    });
    let entries = dir.into_entries();
    assert_eq!(entries.len(), 2);
    assert_eq!(entries[0].0.name, "sub");
    assert!(matches!(
        &entries[0].1,
        DirectoryEntry::Dir(DirectoryBuilder::Immutable(d)) if d.fingerprint() == 5
    ));
    assert!(matches!(&entries[1].1, DirectoryEntry::Leaf(l) if l == "payload"));
}

#[test]
fn sharing_interns_the_fingerprint_once() {
    let mut interner: DashMapDirectoryInterner<String> = DashMapDirectoryInterner::new();
    let one = leaf_dir("a.txt", 21);
    let two = leaf_dir("b.txt", 21);
    let shared_one = one.shared(&mut interner);
    assert_eq!(interner.fingerprints, vec![21]);
    let shared_two = two.shared(&mut interner);
    assert_eq!(interner.fingerprints, vec![21]);
    assert_eq!(shared_one.data.fingerprint, shared_two.data.fingerprint);
    // A shared directory passes through untouched.
    let again = ImmutableDirectory::Shared(shared_one).shared(&mut interner);
    assert_eq!(again.data.fingerprint, 21);
    assert_eq!(interner.fingerprints, vec![21]);
}
