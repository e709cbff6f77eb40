//! Choosing a Rust sysroot.
//!
//! The sysroot is the directory holding the standard library's crates, and
//! `sysroot_src` the directory holding their sources. Which directories
//! those are comes either from fixed locations under the project root or
//! from asking a compiler binary — running the compiler is I/O and stays
//! outside the library; what its output means is decided here.

use vstd::prelude::*;

verus! {

use vstd::string::StrSliceExecFns;
use vstd::string::StringExecFns;

/// A sysroot choice: the tool directory, and the standard-library source
/// directory when one is known.
#[derive(Clone, Debug, PartialEq, Eq)]
pub struct Sysroot {
    pub sysroot: String,
    pub sysroot_src: Option<String>,
}

/// `s` with one trailing line ending removed: `\r\n` as a pair, a lone
/// `\n` by itself, anything else untouched.
pub open spec fn chomp(s: Seq<char>) -> Seq<char> {
    if s.len() >= 2 && s[s.len() - 2] == '\r' && s[s.len() - 1] == '\n' {
        s.subrange(0, s.len() - 2)
    } else if s.len() >= 1 && s[s.len() - 1] == '\n' {
        s.subrange(0, s.len() - 1)
    } else {
        s
    }
}

/// Removes one trailing line ending, as command output carries one.
pub fn truncate_line_ending(s: &mut String)
    ensures
        final(s)@ == chomp(old(s)@),
{
    let n = s.as_str().unicode_len();
    let keep: usize = if n >= 2 && s.as_str().get_char(n - 2) == '\r' && s.as_str().get_char(n - 1)
        == '\n' {
        n - 2
    } else if n >= 1 && s.as_str().get_char(n - 1) == '\n' {
        n - 1
    } else {
        n
    };
    if keep < n {
        let t = s.as_str().substring_char(0, keep).to_owned();
        *s = t;
    }
}

/// `base` and `rel` joined as filesystem paths: an absolute `rel` stands
/// alone, as it does when handed to a path join.
pub open spec fn path_join(base: Seq<char>, rel: Seq<char>) -> Seq<char> {
    if rel.len() > 0 && rel[0] == '/' {
        rel
    } else if base.len() == 0 {
        rel
    } else {
        base + seq!['/'] + rel
    }
}

/// Joins a path under a base directory.
pub fn join_path(base: &str, rel: &str) -> (r: String)
    ensures
        r@ == path_join(base@, rel@),
{
    if rel.unicode_len() > 0 && rel.get_char(0) == '/' {
        return rel.to_owned();
    }
    if base.unicode_len() == 0 {
        return rel.to_owned();
    }
    let mut out = base.to_owned();
    out.append("/");
    out.append(rel);
    proof {
        reveal_strlit("/");
        assert(out@ =~= path_join(base@, rel@));
    }
    out
}

/// The sysroot used on Linux builds from the project's own toolchain: a
/// fixed third-party location under the project root, with the source
/// directory the build configuration names.
pub fn buckconfig_sysroot_linux(project_root: &str, sysroot_src_rel: &str) -> (r: Sysroot)
    ensures
        r.sysroot@ == path_join(
            project_root@,
            "fbcode/third-party-buck/platform010/build/rust/llvm-fb-17"@,
        ),
        r.sysroot_src matches Some(src) && src@ == path_join(project_root@, sysroot_src_rel@),
{
    Sysroot {
        sysroot: join_path(project_root, "fbcode/third-party-buck/platform010/build/rust/llvm-fb-17"),
        sysroot_src: Some(join_path(project_root, sysroot_src_rel)),
    }
}

/// The sysroot on other platforms: the compiler's own answer to
/// `--print=sysroot`, stripped of its line ending, with the source
/// directory the build configuration names.
pub fn buckconfig_sysroot_from_output(
    project_root: &str,
    sysroot_src_rel: &str,
    rustc_output: String,
) -> (r: Sysroot)
    ensures
        r.sysroot@ == chomp(rustc_output@),
        r.sysroot_src matches Some(src) && src@ == path_join(project_root@, sysroot_src_rel@),
{
    let mut sysroot = rustc_output;
    truncate_line_ending(&mut sysroot);
    Sysroot { sysroot, sysroot_src: Some(join_path(project_root, sysroot_src_rel)) }
}

/// The sysroot of a rustup toolchain: the compiler's answer, stripped of
/// its line ending, with the standard library's sources at their fixed
/// place inside it.
pub fn rustup_sysroot_from_output(rustc_output: String) -> (r: Sysroot)
    ensures
        r.sysroot@ == chomp(rustc_output@),
        r.sysroot_src matches Some(src) && src@ == path_join(
            chomp(rustc_output@),
            "lib/rustlib/src/rust/library"@,
        ),
{
    let mut sysroot = rustc_output;
    truncate_line_ending(&mut sysroot);
    let sysroot_src = join_path(sysroot.as_str(), "lib/rustlib/src/rust/library");
    Sysroot { sysroot, sysroot_src: Some(sysroot_src) }
}

} // verus!
