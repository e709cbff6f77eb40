//! Telemetry samples.
//!
//! Tool runs are logged as *samples*: ordered key/value records carrying the
//! run's kind, who ran it and where, and per-kind measurements. This module
//! builds the samples and renders them as JSON; handing the rendered line to
//! the log transport is I/O and stays outside the library. The user and host
//! names come from the `whoami` crate; nothing can be promised about values
//! read from the environment, so their entries carry opaque strings.

use vstd::prelude::*;

verus! {

use crate::hashing::hex_digit;
use vstd::string::StrSliceExecFns;
use vstd::string::StringExecFns;

/// One value of a sample.
#[derive(Clone, Debug, PartialEq, Eq)]
pub enum SampleValue {
    Int(i64),
    Str(String),
    Bool(bool),
}

/// An ordered key/value record describing one tool run.
#[derive(Clone, Debug, PartialEq, Eq)]
pub struct ScubaSample {
    pub entries: Vec<(String, SampleValue)>,
}

#[verifier::external_type_specification]
#[verifier::external_body]
pub struct ExWhoamiError(whoami::Error);

/// Relies on whoami::username: the user the tool runs as. The value depends
/// on the environment, so nothing is promised of it.
#[verifier::external_body]
fn whoami_username() -> (r: Result<String, whoami::Error>) {
    whoami::username()
}

/// Relies on whoami::hostname: the machine's host name. The value depends
/// on the environment, so nothing is promised of it.
#[verifier::external_body]
fn whoami_hostname() -> (r: Result<String, whoami::Error>) {
    whoami::hostname()
}

impl ScubaSample {
    /// An empty sample.
    pub fn new() -> (r: Self)
        ensures
            r.entries@ =~= Seq::<(String, SampleValue)>::empty(),
    {
        let r = ScubaSample { entries: Vec::new() };
        r
    }

    /// Appends one entry.
    pub fn add(&mut self, key: &str, value: SampleValue)
        ensures
            final(self).entries@.len() == old(self).entries@.len() + 1,
            final(self).entries@.subrange(0, old(self).entries@.len() as int) == old(
                self,
            ).entries@,
            final(self).entries@.last().0@ == key@,
            final(self).entries@.last().1 == value,
    {
        self.entries.push((key.to_owned(), value));
        proof {
            assert(self.entries@.subrange(0, old(self).entries@.len() as int) =~= old(
                self,
            ).entries@);
        }
    }
}

/// The common head of every sample: its kind under `root_span`, then the
/// user and host the tool runs as, then the proxy session if one is set.
pub open spec fn sample_head_wf(
    es: Seq<(String, SampleValue)>,
    kind: Seq<char>,
    session_id: Option<String>,
) -> bool {
    &&& es.len() == (if session_id is Some {
        4int
    } else {
        3int
    })
    &&& es[0].0@ == "root_span"@ && es[0].1 == SampleValue::Str(es[0].1->Str_0) && es[0].1->Str_0@
        == kind
    &&& es[1].0@ == "unixname"@ && es[1].1 is Str
    &&& es[2].0@ == "hostname"@ && es[2].1 is Str
    &&& (session_id matches Some(id) ==> es[3].0@ == "session_id"@ && es[3].1 is Str
        && es[3].1->Str_0@ == id@)
}

/// A fresh sample for a run of the given kind: the kind, the user and host
/// names read from the environment, and the proxy session identifier when
/// the caller's environment carries one.
pub fn new_sample(kind: &str, session_id: Option<String>) -> (r: ScubaSample)
    ensures
        sample_head_wf(r.entries@, kind@, session_id),
{
    let mut sample = ScubaSample::new();
    sample.add("root_span", SampleValue::Str(kind.to_owned()));
    let unixname = match whoami_username() {
        Ok(u) => u,
        Err(_) => String::new(),
    };
    sample.add("unixname", SampleValue::Str(unixname));
    let hostname = match whoami_hostname() {
        Ok(h) => h,
        Err(_) => String::new(),
    };
    sample.add("hostname", SampleValue::Str(hostname));
    match session_id {
        Some(id) => {
            sample.add("session_id", SampleValue::Str(id));
        },
        None => (),
    }
    sample
}

/// The sample for a successful `develop` run.
pub fn log_develop(duration_ms: i64, input: &str, revision: &str, invoked_by_ra: bool, session_id: Option<String>) -> (r: ScubaSample)
    ensures
        ({
            let b = (if session_id is Some {
                4int
            } else {
                3int
            });
            &&& r.entries@.len() == b + 4
            &&& sample_head_wf(r.entries@.subrange(0, b), "develop"@, session_id)
            &&& r.entries@[b].0@ == "duration_ms"@ && r.entries@[b].1 == SampleValue::Int(
                duration_ms,
            )
            &&& r.entries@[b + 1].0@ == "input"@ && r.entries@[b + 1].1 is Str && r.entries@[b
                + 1].1->Str_0@ == input@
            &&& r.entries@[b + 2].0@ == "revision"@ && r.entries@[b + 2].1 is Str && r.entries@[b
                + 2].1->Str_0@ == revision@
            &&& r.entries@[b + 3].0@ == "invoked_by_ra"@ && r.entries@[b + 3].1
                == SampleValue::Bool(invoked_by_ra)
        }),
{
    let mut sample = new_sample("develop", session_id);
    let ghost b = sample.entries@.len() as int;
    sample.add("duration_ms", SampleValue::Int(duration_ms));
    sample.add("input", SampleValue::Str(input.to_owned()));
    sample.add("revision", SampleValue::Str(revision.to_owned()));
    sample.add("invoked_by_ra", SampleValue::Bool(invoked_by_ra));
    proof {
        assert(sample.entries@.subrange(0, b) =~= sample.entries@.subrange(0, b).subrange(0, b));
        lemma_head_stable(sample.entries@, b);
    }
    sample
}

/// The sample for a failed `develop` run: the error's description instead
/// of a duration.
pub fn log_develop_error(error: &str, input: &str, revision: &str, invoked_by_ra: bool, session_id: Option<String>) -> (r: ScubaSample)
    ensures
        ({
            let b = (if session_id is Some {
                4int
            } else {
                3int
            });
            &&& r.entries@.len() == b + 4
            &&& sample_head_wf(r.entries@.subrange(0, b), "develop"@, session_id)
            &&& r.entries@[b].0@ == "error"@ && r.entries@[b].1 is Str && r.entries@[b].1->Str_0@
                == error@
            &&& r.entries@[b + 1].0@ == "input"@ && r.entries@[b + 1].1 is Str && r.entries@[b
                + 1].1->Str_0@ == input@
            &&& r.entries@[b + 2].0@ == "revision"@ && r.entries@[b + 2].1 is Str && r.entries@[b
                + 2].1->Str_0@ == revision@
            &&& r.entries@[b + 3].0@ == "invoked_by_ra"@ && r.entries@[b + 3].1
                == SampleValue::Bool(invoked_by_ra)
        }),
{
    let mut sample = new_sample("develop", session_id);
    let ghost b = sample.entries@.len() as int;
    sample.add("error", SampleValue::Str(error.to_owned()));
    sample.add("input", SampleValue::Str(input.to_owned()));
    sample.add("revision", SampleValue::Str(revision.to_owned()));
    sample.add("invoked_by_ra", SampleValue::Bool(invoked_by_ra));
    proof {
        lemma_head_stable(sample.entries@, b);
    }
    sample
}

/// The sample for a successful `check` run.
pub fn log_check(duration_ms: i64, saved_file: &str, use_clippy: bool, session_id: Option<String>) -> (r: ScubaSample)
    ensures
        ({
            let b = (if session_id is Some {
                4int
            } else {
                3int
            });
            &&& r.entries@.len() == b + 3
            &&& sample_head_wf(r.entries@.subrange(0, b), "check"@, session_id)
            &&& r.entries@[b].0@ == "duration_ms"@ && r.entries@[b].1 == SampleValue::Int(
                duration_ms,
            )
            &&& r.entries@[b + 1].0@ == "saved_file"@ && r.entries@[b + 1].1 is Str && r.entries@[b
                + 1].1->Str_0@ == saved_file@
            &&& r.entries@[b + 2].0@ == "use_clippy"@ && r.entries@[b + 2].1 is Str && r.entries@[b
                + 2].1->Str_0@ == (if use_clippy {
                "true"@
            } else {
                "false"@
            })
        }),
{
    let mut sample = new_sample("check", session_id);
    let ghost b = sample.entries@.len() as int;
    sample.add("duration_ms", SampleValue::Int(duration_ms));
    sample.add("saved_file", SampleValue::Str(saved_file.to_owned()));
    let clippy: &str = if use_clippy {
        "true"
    } else {
        "false"
    };
    sample.add("use_clippy", SampleValue::Str(clippy.to_owned()));
    proof {
        lemma_head_stable(sample.entries@, b);
    }
    sample
}

/// The sample for a failed `check` run.
pub fn log_check_error(error: &str, saved_file: &str, use_clippy: bool, session_id: Option<String>) -> (r: ScubaSample)
    ensures
        ({
            let b = (if session_id is Some {
                4int
            } else {
                3int
            });
            &&& r.entries@.len() == b + 3
            &&& sample_head_wf(r.entries@.subrange(0, b), "check"@, session_id)
            &&& r.entries@[b].0@ == "error"@ && r.entries@[b].1 is Str && r.entries@[b].1->Str_0@
                == error@
            &&& r.entries@[b + 1].0@ == "saved_file"@ && r.entries@[b + 1].1 is Str && r.entries@[b
                + 1].1->Str_0@ == saved_file@
            &&& r.entries@[b + 2].0@ == "use_clippy"@ && r.entries@[b + 2].1 is Str && r.entries@[b
                + 2].1->Str_0@ == (if use_clippy {
                "true"@
            } else {
                "false"@
            })
        }),
{
    let mut sample = new_sample("check", session_id);
    let ghost b = sample.entries@.len() as int;
    sample.add("error", SampleValue::Str(error.to_owned()));
    sample.add("saved_file", SampleValue::Str(saved_file.to_owned()));
    let clippy: &str = if use_clippy {
        "true"
    } else {
        "false"
    };
    sample.add("use_clippy", SampleValue::Str(clippy.to_owned()));
    proof {
        lemma_head_stable(sample.entries@, b);
    }
    sample
}

proof fn lemma_head_stable(es: Seq<(String, SampleValue)>, b: int)
    requires
        0 <= b <= es.len(),
    ensures
        forall|k: int|
            b <= k <= es.len() ==> #[trigger] es.subrange(0, k).subrange(0, b) =~= es.subrange(
                0,
                b,
            ),
{
}

/// Relies on String::push: appends one character.
#[verifier::external_body]
fn push_char(s: &mut String, c: char)
    ensures
        final(s)@ == old(s)@.push(c),
{
    s.push(c)
}

/// `n` in decimal, without leading zeros (`0` stands alone).
pub open spec fn dec_of(n: int) -> Seq<char>
    decreases n,
{
    if n < 10 {
        seq![hex_digit(n)]
    } else {
        dec_of(n / 10).push(hex_digit(n % 10))
    }
}

/// A signed value in decimal.
pub open spec fn dec_of_i64(n: int) -> Seq<char> {
    if n < 0 {
        seq!['-'] + dec_of(-n)
    } else {
        dec_of(n)
    }
}

fn append_dec(out: &mut String, n: u64)
    ensures
        final(out)@ == old(out)@ + dec_of(n as int),
    decreases n,
{
    if n >= 10 {
        append_dec(out, n / 10);
    }
    let d = n % 10;
    let ghost before = out@;
    push_char(
        out,
        if d == 0 {
            '0'
        } else if d == 1 {
            '1'
        } else if d == 2 {
            '2'
        } else if d == 3 {
            '3'
        } else if d == 4 {
            '4'
        } else if d == 5 {
            '5'
        } else if d == 6 {
            '6'
        } else if d == 7 {
            '7'
        } else if d == 8 {
            '8'
        } else {
            '9'
        },
    );
    proof {
        assert(out@ =~= old(out)@ + dec_of(n as int));
    }
}

/// A character escaped for a JSON string: quotes and backslashes are
/// prefixed, the common control characters become their short escapes, and
/// every other character stands for itself.
pub open spec fn json_escape_char(c: char) -> Seq<char> {
    if c == '"' {
        seq!['\\', '"']
    } else if c == '\\' {
        seq!['\\', '\\']
    } else if c == '\n' {
        seq!['\\', 'n']
    } else if c == '\r' {
        seq!['\\', 'r']
    } else if c == '\t' {
        seq!['\\', 't']
    } else {
        seq![c]
    }
}

/// A whole string escaped for JSON.
pub open spec fn json_escape(s: Seq<char>) -> Seq<char>
    decreases s.len(),
{
    if s.len() == 0 {
        Seq::<char>::empty()
    } else {
        json_escape_char(s[0]) + json_escape(s.subrange(1, s.len() as int))
    }
}

proof fn lemma_json_escape_snoc(s: Seq<char>, c: char)
    ensures
        json_escape(s.push(c)) == json_escape(s) + json_escape_char(c),
    decreases s.len(),
{
    let tailp = s.push(c).subrange(1, s.push(c).len() as int);
    if s.len() == 0 {
        assert(s.push(c)[0] == c);
        assert(tailp =~= Seq::<char>::empty());
        assert(json_escape(tailp) == Seq::<char>::empty());
        assert(json_escape(s.push(c)) =~= json_escape(s) + json_escape_char(c));
    } else {
        let tail = s.subrange(1, s.len() as int);
        assert(s.push(c)[0] == s[0]);
        assert(tailp =~= tail.push(c));
        lemma_json_escape_snoc(tail, c);
        assert(json_escape(s.push(c)) == json_escape_char(s[0]) + (json_escape(tail)
            + json_escape_char(c)));
        assert(json_escape_char(s[0]) + (json_escape(tail) + json_escape_char(c))
            =~= (json_escape_char(s[0]) + json_escape(tail)) + json_escape_char(c));
    }
}

fn append_escaped(out: &mut String, s: &str)
    ensures
        final(out)@ == old(out)@ + json_escape(s@),
{
    let n = s.unicode_len();
    let mut i: usize = 0;
    proof {
        assert(s@.subrange(0, 0) =~= Seq::<char>::empty());
        assert(out@ =~= out@ + json_escape(s@.subrange(0, 0)));
    }
    while i < n
        invariant
            n == s@.len(),
            i <= n,
            out@ == old(out)@ + json_escape(s@.subrange(0, i as int)),
        decreases n - i,
    {
        let c = s.get_char(i);
        let ghost pre = s@.subrange(0, i as int);
        proof {
            assert(pre.push(c) =~= s@.subrange(0, i + 1));
            lemma_json_escape_snoc(pre, c);
        }
        if c == '"' {
            push_char(out, '\\');
            push_char(out, '"');
        } else if c == '\\' {
            push_char(out, '\\');
            push_char(out, '\\');
        } else if c == '\n' {
            push_char(out, '\\');
            push_char(out, 'n');
        } else if c == '\r' {
            push_char(out, '\\');
            push_char(out, 'r');
        } else if c == '\t' {
            push_char(out, '\\');
            push_char(out, 't');
        } else {
            push_char(out, c);
        }
        proof {
            assert(out@ =~= old(out)@ + json_escape(s@.subrange(0, i + 1)));
        }
        i += 1;
    }
    proof {
        assert(s@.subrange(0, s@.len() as int) =~= s@);
    }
}

/// One value rendered as JSON.
pub open spec fn json_of_value(v: SampleValue) -> Seq<char> {
    match v {
        SampleValue::Int(i) => dec_of_i64(i as int),
        SampleValue::Str(s) => seq!['"'] + json_escape(s@) + seq!['"'],
        SampleValue::Bool(b) => if b {
            seq!['t', 'r', 'u', 'e']
        } else {
            seq!['f', 'a', 'l', 's', 'e']
        },
    }
}

/// One entry rendered as JSON.
pub open spec fn json_of_entry(k: Seq<char>, v: SampleValue) -> Seq<char> {
    seq!['"'] + json_escape(k) + seq!['"', ':'] + json_of_value(v)
}

/// The entries rendered as the inside of a JSON object, comma-separated.
pub open spec fn json_of_entries(es: Seq<(String, SampleValue)>) -> Seq<char>
    decreases es.len(),
{
    if es.len() == 0 {
        Seq::<char>::empty()
    } else if es.len() == 1 {
        json_of_entry(es[0].0@, es[0].1)
    } else {
        json_of_entries(es.subrange(0, es.len() - 1)) + seq![','] + json_of_entry(
            es.last().0@,
            es.last().1,
        )
    }
}

/// The whole sample as one JSON object.
pub open spec fn json_of_sample(es: Seq<(String, SampleValue)>) -> Seq<char> {
    seq!['{'] + json_of_entries(es) + seq!['}']
}

fn append_value(out: &mut String, v: &SampleValue)
    ensures
        final(out)@ == old(out)@ + json_of_value(*v),
{
    match v {
        SampleValue::Int(i) => {
            let n = *i;
            if n < 0 {
                push_char(out, '-');
                let magnitude: u64 = ((-(n + 1)) as u64) + 1;
                append_dec(out, magnitude);
                proof {
                    assert(out@ =~= old(out)@ + json_of_value(*v));
                }
            } else {
                append_dec(out, n as u64);
            }
        },
        SampleValue::Str(s) => {
            push_char(out, '"');
            append_escaped(out, s.as_str());
            push_char(out, '"');
            proof {
                assert(out@ =~= old(out)@ + json_of_value(*v));
            }
        },
        SampleValue::Bool(b) => {
            if *b {
                out.append("true");
                proof {
                    reveal_strlit("true");
                    assert(out@ =~= old(out)@ + json_of_value(*v));
                }
            } else {
                out.append("false");
                proof {
                    reveal_strlit("false");
                    assert(out@ =~= old(out)@ + json_of_value(*v));
                }
            }
        },
    }
}

impl ScubaSample {
    /// The sample as one JSON line, ready for the log transport.
    pub fn to_json(&self) -> (r: String)
        ensures
            r@ == json_of_sample(self.entries@),
    {
        let mut out = String::new();
        push_char(&mut out, '{');
        let mut i: usize = 0;
        proof {
            assert(self.entries@.subrange(0, 0) =~= Seq::<(String, SampleValue)>::empty());
            assert(out@ =~= seq!['{'] + json_of_entries(self.entries@.subrange(0, 0)));
        }
        while i < self.entries.len()
            invariant
                i <= self.entries@.len(),
                out@ == seq!['{'] + json_of_entries(self.entries@.subrange(0, i as int)),
            decreases self.entries@.len() - i,
        {
            if i > 0 {
                push_char(&mut out, ',');
            }
            push_char(&mut out, '"');
            append_escaped(&mut out, self.entries[i].0.as_str());
            push_char(&mut out, '"');
            push_char(&mut out, ':');
            append_value(&mut out, &self.entries[i].1);
            proof {
                let pre = self.entries@.subrange(0, i as int);
                let now = self.entries@.subrange(0, i + 1);
                assert(now.subrange(0, now.len() - 1) =~= pre);
                assert(now.last() == self.entries@[i as int]);
                assert(out@ =~= seq!['{'] + json_of_entries(now));
            }
            i += 1;
        }
        push_char(&mut out, '}');
        proof {
            assert(self.entries@.subrange(0, self.entries@.len() as int) =~= self.entries@);
            assert(out@ =~= json_of_sample(self.entries@));
        }
        out
    }
}

} // verus!
