//! The persisted install record of a tool.
//!
//! One small file inside a tool's clone directory records how the tool was
//! provisioned, so later runs skip provisioning.  The record is written once
//! after a successful install, read at the start of every run, and deleted
//! by the updater after new commits arrive.  Reading is forgiving: a missing
//! file, content that does not parse, or a recorded environment directory
//! that no longer exists all read as "no record" — never as an error.

use vstd::prelude::*;
use vstd::string::{StrSliceExecFns, StringExecFns};

use crate::text::{find_sep, lemma_find_sep_is, str_starts_with};

verus! {

/// Details of a virtual-environment install.
#[derive(Debug)]
pub struct VenvState {
    /// Absolute path of the environment directory.
    pub path: String,
    /// The interpreter used to create it.
    pub python: String,
}

/// The record of how a tool was provisioned.
#[derive(Debug)]
pub struct ToolState {
    /// Schema version of the record format.
    pub version: String,
    /// `venv`, `docker` or `bash`.
    pub method: String,
    /// Present exactly for venv installs.
    pub venv: Option<VenvState>,
}

/// The view of the optional venv block: path and interpreter.
pub open spec fn venv_view(v: Option<VenvState>) -> Option<(Seq<char>, Seq<char>)> {
    match v {
        Option::Some(x) => Option::Some((x.path@, x.python@)),
        Option::None => Option::None,
    }
}

/// The rendered record text for the given field values.
pub open spec fn render_spec(
    version: Seq<char>,
    method: Seq<char>,
    venv: Option<(Seq<char>, Seq<char>)>,
) -> Seq<char> {
    let head = "version = \""@ + version + "\"\n"@ + "method = \""@ + method + "\"\n"@;
    match venv {
        Option::None => head,
        Option::Some(v) => head + "\n[venv]\npath = \""@ + v.0 + "\"\n"@ + "python = \""@ + v.1
            + "\"\n"@,
    }
}

/// What remains of `s` after the literal prefix `p`, when `s` starts with
/// it.
pub open spec fn after_prefix(s: Seq<char>, p: Seq<char>) -> Option<Seq<char>> {
    if s.len() >= p.len() && s.take(p.len() as int) == p {
        Option::Some(s.skip(p.len() as int))
    } else {
        Option::None
    }
}

/// Read a quoted value: the characters up to the first `"`, which must be
/// followed by a newline; yields the value and what follows the newline.
pub open spec fn read_value(s: Seq<char>) -> Option<(Seq<char>, Seq<char>)> {
    let q = find_sep(s, '"');
    if q < s.len() && q + 1 < s.len() && s[q + 1] == '\n' {
        Option::Some((s.take(q), s.skip(q + 2)))
    } else {
        Option::None
    }
}

/// The record a text parses to, if any: its schema version, its method, and
/// its optional venv block.
pub open spec fn parse_spec(s: Seq<char>) -> Option<
    (Seq<char>, Seq<char>, Option<(Seq<char>, Seq<char>)>),
> {
    match after_prefix(s, "version = \""@) {
        Option::None => Option::None,
        Option::Some(s1) => match read_value(s1) {
            Option::None => Option::None,
            Option::Some((version, s2)) => match after_prefix(s2, "method = \""@) {
                Option::None => Option::None,
                Option::Some(s3) => match read_value(s3) {
                    Option::None => Option::None,
                    Option::Some((method, s4)) => {
                        if s4.len() == 0 {
                            Option::Some((version, method, Option::None))
                        } else {
                            match after_prefix(s4, "\n[venv]\npath = \""@) {
                                Option::None => Option::None,
                                Option::Some(s5) => match read_value(s5) {
                                    Option::None => Option::None,
                                    Option::Some((path, s6)) => match after_prefix(
                                        s6,
                                        "python = \""@,
                                    ) {
                                        Option::None => Option::None,
                                        Option::Some(s7) => match read_value(s7) {
                                            Option::None => Option::None,
                                            Option::Some((python, s8)) => {
                                                if s8.len() == 0 {
                                                    Option::Some(
                                                        (
                                                            version,
                                                            method,
                                                            Option::Some((path, python)),
                                                        ),
                                                    )
                                                } else {
                                                    Option::None
                                                }
                                            },
                                        },
                                    },
                                },
                            }
                        }
                    },
                },
            },
        },
    }
}

/// A value the record file can carry: free of double quotes.
pub open spec fn quote_free(s: Seq<char>) -> bool {
    forall|k: int| 0 <= k < s.len() ==> s[k] != '"'
}

proof fn lemma_after_prefix_of_concat(p: Seq<char>, rest: Seq<char>)
    ensures
        after_prefix(p + rest, p) == Option::Some(rest),
{
    let s = p + rest;
    assert(s.take(p.len() as int) =~= p);
    assert(s.skip(p.len() as int) =~= rest);
}

proof fn lemma_read_value_of_concat(value: Seq<char>, rest: Seq<char>)
    requires
        quote_free(value),
    ensures
        read_value(value + "\"\n"@ + rest) == Option::Some((value, rest)),
{
    reveal_strlit("\"\n");
    let s = value + "\"\n"@ + rest;
    assert(s[value.len() as int] == '"');
    assert(forall|k: int| 0 <= k < value.len() ==> s[k] == value[k]);
    lemma_find_sep_is(s, '"', value.len() as int);
    assert(s[value.len() as int + 1] == '\n');
    assert(s.take(value.len() as int) =~= value);
    assert(s.skip(value.len() as int + 2) =~= rest);
}

/// Writing a record and reading it back yields the same fields: for every
/// schema version, method and optional venv block whose values carry no
/// double quote, parsing the rendered text succeeds and returns exactly
/// those values.
pub proof fn lemma_record_round_trip(
    version: Seq<char>,
    method: Seq<char>,
    venv: Option<(Seq<char>, Seq<char>)>,
)
    requires
        quote_free(version),
        quote_free(method),
        venv matches Option::Some(v) ==> quote_free(v.0) && quote_free(v.1),
    ensures
        parse_spec(render_spec(version, method, venv)) == Option::Some((version, method, venv)),
{
    let s = render_spec(version, method, venv);
    match venv {
        Option::None => {
            let tail2 = "method = \""@ + method + "\"\n"@;
            let tail1 = version + "\"\n"@ + tail2;
            assert(s =~= "version = \""@ + tail1);
            lemma_after_prefix_of_concat("version = \""@, tail1);
            lemma_read_value_of_concat(version, tail2);
            let tail3 = method + "\"\n"@ + Seq::<char>::empty();
            assert(tail2 =~= "method = \""@ + tail3);
            lemma_after_prefix_of_concat("method = \""@, tail3);
            lemma_read_value_of_concat(method, Seq::<char>::empty());
        },
        Option::Some(v) => {
            let vtail = "\n[venv]\npath = \""@ + v.0 + "\"\n"@ + "python = \""@ + v.1 + "\"\n"@;
            let tail2 = "method = \""@ + method + "\"\n"@ + vtail;
            let tail1 = version + "\"\n"@ + tail2;
            assert(s =~= "version = \""@ + tail1);
            lemma_after_prefix_of_concat("version = \""@, tail1);
            lemma_read_value_of_concat(version, tail2);
            let tail3 = method + "\"\n"@ + vtail;
            assert(tail2 =~= "method = \""@ + tail3);
            lemma_after_prefix_of_concat("method = \""@, tail3);
            lemma_read_value_of_concat(method, vtail);
            reveal_strlit("\n[venv]\npath = \"");
            assert(vtail.len() > 0);
            let tail5 = "python = \""@ + v.1 + "\"\n"@;
            let tail4 = v.0 + "\"\n"@ + tail5;
            assert(vtail =~= "\n[venv]\npath = \""@ + tail4);
            lemma_after_prefix_of_concat("\n[venv]\npath = \""@, tail4);
            lemma_read_value_of_concat(v.0, tail5);
            let tail6 = v.1 + "\"\n"@ + Seq::<char>::empty();
            assert(tail5 =~= "python = \""@ + tail6);
            lemma_after_prefix_of_concat("python = \""@, tail6);
            lemma_read_value_of_concat(v.1, Seq::<char>::empty());
        },
    }
}

impl ToolState {
    /// The record of a venv install: schema version 1.
    pub fn for_venv(venv_path: String, python: String) -> (r: Self)
        ensures
            r.version@ == "1"@,
            r.method@ == "venv"@,
            venv_view(r.venv) == Option::Some((venv_path@, python@)),
    {
        ToolState {
            version: String::from_str("1"),
            method: String::from_str("venv"),
            venv: Option::Some(VenvState { path: venv_path, python }),
        }
    }

    /// Render the record as the text its file holds.
    pub fn render(&self) -> (r: String)
        ensures
            r@ == render_spec(self.version@, self.method@, venv_view(self.venv)),
    {
        let mut out = String::from_str("version = \"");
        out.append(self.version.as_str());
        out.append("\"\n");
        out.append("method = \"");
        out.append(self.method.as_str());
        out.append("\"\n");
        match &self.venv {
            Option::Some(v) => {
                out.append("\n[venv]\npath = \"");
                out.append(v.path.as_str());
                out.append("\"\n");
                out.append("python = \"");
                out.append(v.python.as_str());
                out.append("\"\n");
                proof {
                    assert(out@ =~= render_spec(self.version@, self.method@, venv_view(self.venv)));
                }
            },
            Option::None => {
                proof {
                    assert(out@ =~= render_spec(self.version@, self.method@, venv_view(self.venv)));
                }
            },
        }
        out
    }

    /// Parse a record text; `None` on any deviation from the format.
    pub fn parse(content: &str) -> (r: Option<ToolState>)
        ensures
            match r {
                Option::Some(t) => parse_spec(content@) == Option::Some(
                    (t.version@, t.method@, venv_view(t.venv)),
                ),
                Option::None => parse_spec(content@) is None,
            },
    {
        let n: usize = content.unicode_len();
        let head_key = "version = \"";
        if !str_starts_with(content, head_key) {
            return Option::None;
        }
        let p0: usize = head_key.unicode_len();
        proof {
            assert(content@.skip(p0 as int) == after_prefix(content@, head_key@)->Some_0);
        }
        let (version, p1) = match read_value_exec(content, p0) {
            Option::Some(x) => x,
            Option::None => {
                return Option::None;
            },
        };
        let method_key = "method = \"";
        let p1b: usize = match match_prefix_at(content, p1, method_key) {
            Option::Some(x) => x,
            Option::None => {
                return Option::None;
            },
        };
        let (method, p2) = match read_value_exec(content, p1b) {
            Option::Some(x) => x,
            Option::None => {
                return Option::None;
            },
        };
        if p2 == n {
            return Option::Some(ToolState { version, method, venv: Option::None });
        }
        let venv_key = "\n[venv]\npath = \"";
        let p3: usize = match match_prefix_at(content, p2, venv_key) {
            Option::Some(x) => x,
            Option::None => {
                return Option::None;
            },
        };
        let (path, p4) = match read_value_exec(content, p3) {
            Option::Some(x) => x,
            Option::None => {
                return Option::None;
            },
        };
        let python_key = "python = \"";
        let p5: usize = match match_prefix_at(content, p4, python_key) {
            Option::Some(x) => x,
            Option::None => {
                return Option::None;
            },
        };
        let (python, p6) = match read_value_exec(content, p5) {
            Option::Some(x) => x,
            Option::None => {
                return Option::None;
            },
        };
        if p6 == n {
            Option::Some(
                ToolState { version, method, venv: Option::Some(VenvState { path, python }) },
            )
        } else {
            Option::None
        }
    }

    /// Keep a loaded record only while what it references still exists: a
    /// venv record whose directory is gone reads as absent.
    pub fn validate(self, venv_dir_exists: bool) -> (r: Option<ToolState>)
        ensures
            self.venv is Some && !venv_dir_exists ==> r is None,
            !(self.venv is Some && !venv_dir_exists) ==> r == Option::Some(self),
    {
        if self.venv.is_some() && !venv_dir_exists {
            Option::None
        } else {
            Option::Some(self)
        }
    }
}

/// What loading yields from the record file's content (`None` when the file
/// is missing) and from whether the recorded venv directory still exists.
pub open spec fn load_spec(content: Option<Seq<char>>, venv_dir_exists: bool) -> Option<
    (Seq<char>, Seq<char>, Option<(Seq<char>, Seq<char>)>),
> {
    match content {
        Option::None => Option::None,
        Option::Some(c) => match parse_spec(c) {
            Option::None => Option::None,
            Option::Some(rec) => {
                if rec.2 is Some && !venv_dir_exists {
                    Option::None
                } else {
                    Option::Some(rec)
                }
            },
        },
    }
}

/// A record reads as absent — never as an error — when the file is missing,
/// when its content does not parse, and when it records a venv whose
/// directory no longer exists.
pub proof fn lemma_record_absent(content: Option<Seq<char>>, venv_dir_exists: bool)
    ensures
        content is None ==> load_spec(content, venv_dir_exists) is None,
        (content matches Option::Some(c) && parse_spec(c) is None) ==> load_spec(
            content,
            venv_dir_exists,
        ) is None,
        (content matches Option::Some(c) && parse_spec(c) matches Option::Some(rec) && rec.2
            is Some && !venv_dir_exists) ==> load_spec(content, venv_dir_exists) is None,
{
}

/// Interpret what the driver found on disk: the file's content when it
/// existed, and whether the recorded venv directory still exists.
pub fn load_from(content: Option<&str>, venv_dir_exists: bool) -> (r: Option<ToolState>)
    ensures
        match r {
            Option::Some(t) => load_spec(
                match content {
                    Option::Some(c) => Option::Some(c@),
                    Option::None => Option::None,
                },
                venv_dir_exists,
            ) == Option::Some((t.version@, t.method@, venv_view(t.venv))),
            Option::None => load_spec(
                match content {
                    Option::Some(c) => Option::Some(c@),
                    Option::None => Option::None,
                },
                venv_dir_exists,
            ) is None,
        },
{
    match content {
        Option::None => Option::None,
        Option::Some(c) => match ToolState::parse(c) {
            Option::None => Option::None,
            Option::Some(t) => t.validate(venv_dir_exists),
        },
    }
}

/// When `content` continues at `pos` with the literal `key`, the position
/// just after it.
fn match_prefix_at(content: &str, pos: usize, key: &str) -> (r: Option<usize>)
    requires
        pos <= content@.len(),
    ensures
        match r {
            Option::Some(p) => pos <= p <= content@.len() && after_prefix(
                content@.skip(pos as int),
                key@,
            ) == Option::Some(content@.skip(p as int)),
            Option::None => after_prefix(content@.skip(pos as int), key@) is None,
        },
{
    let n: usize = content.unicode_len();
    let k: usize = key.unicode_len();
    let ghost s = content@.skip(pos as int);
    if n - pos < k {
        return Option::None;
    }
    let mut i: usize = 0;
    while i < k
        invariant
            i <= k,
            k == key@.len(),
            pos + k <= n,
            n == content@.len(),
            s == content@.skip(pos as int),
            forall|j: int| 0 <= j < i ==> s[j] == key@[j],
        decreases k - i,
    {
        if content.get_char(pos + i) != key.get_char(i) {
            proof {
                assert(s[i as int] == content@[pos + i]);
                if s.len() >= k && s.take(k as int) == key@ {
                    assert(s.take(k as int)[i as int] == s[i as int]);
                    assert(false);
                }
            }
            return Option::None;
        }
        proof {
            assert(s[i as int] == content@[pos + i]);
        }
        i = i + 1;
    }
    proof {
        assert(s.take(k as int) =~= key@);
        assert(s.skip(k as int) =~= content@.skip(pos + k));
    }
    Option::Some(pos + k)
}

/// Read a quoted value starting at `pos`: the text up to the first `"`,
/// which the format requires to be followed by a newline.
fn read_value_exec(content: &str, pos: usize) -> (r: Option<(String, usize)>)
    requires
        pos <= content@.len(),
    ensures
        match r {
            Option::Some(p) => p.1 <= content@.len() && read_value(content@.skip(pos as int))
                == Option::Some((p.0@, content@.skip(p.1 as int))),
            Option::None => read_value(content@.skip(pos as int)) is None,
        },
{
    let n: usize = content.unicode_len();
    let ghost s = content@.skip(pos as int);
    let mut q: usize = pos;
    while q < n && content.get_char(q) != '"'
        invariant
            pos <= q <= n,
            n == content@.len(),
            s == content@.skip(pos as int),
            forall|j: int| 0 <= j < q - pos ==> s[j] != '"',
        decreases n - q,
    {
        proof {
            assert(s[q - pos] == content@[q as int]);
        }
        q = q + 1;
    }
    proof {
        if q < n {
            assert(s[q - pos] == content@[q as int]);
        }
        lemma_find_sep_is(s, '"', q - pos);
    }
    if q == n {
        return Option::None;
    }
    if q + 1 >= n || content.get_char(q + 1) != '\n' {
        proof {
            if q + 1 < n {
                assert(s[q + 1 - pos] == content@[q + 1]);
            }
        }
        return Option::None;
    }
    proof {
        assert(s[q + 1 - pos] == content@[q + 1]);
        assert(s.take(q - pos) =~= content@.subrange(pos as int, q as int));
        assert(s.skip(q - pos + 2) =~= content@.skip(q + 2));
    }
    let value: String = content.substring_char(pos, q).to_owned();
    Option::Some((value, q + 2))
}

} // verus!
