//! Interpreter resolution and virtual-environment decisions.
//!
//! A tool may declare a minimum interpreter version.  The resolver looks for
//! a satisfying interpreter among versioned names on the search path —
//! newest first — and then among the installations of a user-level version
//! manager, keeping the highest qualifying version.  When none satisfies
//! the requirement, the failure names concrete remediation steps.
//!
//! The probing itself is outside work; a driver reports which names
//! answered and what the version-manager directory holds, and the functions
//! here decide.

use vstd::prelude::*;
use vstd::string::{StrSliceExecFns, StringExecFns};

use crate::error::TuxBoxError;
use crate::version::{number_parts, number_parts_of, version_geq};

verus! {

/// The digit character for `d` in `0 ..= 9`.
pub open spec fn digit_char(d: int) -> char {
    if d == 0 {
        '0'
    } else if d == 1 {
        '1'
    } else if d == 2 {
        '2'
    } else if d == 3 {
        '3'
    } else if d == 4 {
        '4'
    } else if d == 5 {
        '5'
    } else if d == 6 {
        '6'
    } else if d == 7 {
        '7'
    } else if d == 8 {
        '8'
    } else {
        '9'
    }
}

/// The decimal digits of `n`, most significant first.
pub open spec fn dec_digits(n: int) -> Seq<char>
    decreases n,
{
    if n < 10 {
        seq![digit_char(n)]
    } else {
        dec_digits(n / 10) + seq![digit_char(n % 10)]
    }
}

fn digit_str(d: u32) -> (r: &'static str)
    requires
        d < 10,
    ensures
        r@ == seq![digit_char(d as int)],
{
    if d == 0 {
        proof {
            reveal_strlit("0");
            assert("0"@ =~= seq![digit_char(0)]);
        }
        "0"
    } else if d == 1 {
        proof {
            reveal_strlit("1");
            assert("1"@ =~= seq![digit_char(1)]);
        }
        "1"
    } else if d == 2 {
        proof {
            reveal_strlit("2");
            assert("2"@ =~= seq![digit_char(2)]);
        }
        "2"
    } else if d == 3 {
        proof {
            reveal_strlit("3");
            assert("3"@ =~= seq![digit_char(3)]);
        }
        "3"
    } else if d == 4 {
        proof {
            reveal_strlit("4");
            assert("4"@ =~= seq![digit_char(4)]);
        }
        "4"
    } else if d == 5 {
        proof {
            reveal_strlit("5");
            assert("5"@ =~= seq![digit_char(5)]);
        }
        "5"
    } else if d == 6 {
        proof {
            reveal_strlit("6");
            assert("6"@ =~= seq![digit_char(6)]);
        }
        "6"
    } else if d == 7 {
        proof {
            reveal_strlit("7");
            assert("7"@ =~= seq![digit_char(7)]);
        }
        "7"
    } else if d == 8 {
        proof {
            reveal_strlit("8");
            assert("8"@ =~= seq![digit_char(8)]);
        }
        "8"
    } else {
        proof {
            reveal_strlit("9");
            assert("9"@ =~= seq![digit_char(9)]);
        }
        "9"
    }
}

/// Render `n` in decimal.
pub fn u32_to_string(n: u32) -> (r: String)
    ensures
        r@ == dec_digits(n as int),
    decreases n,
{
    if n < 10 {
        digit_str(n).to_owned()
    } else {
        let mut s = u32_to_string(n / 10);
        s.append(digit_str(n % 10));
        s
    }
}

/// The versioned interpreter name `python{major}.{minor}`.
pub open spec fn spec_versioned_python(major: int, minor: int) -> Seq<char> {
    "python"@ + dec_digits(major) + "."@ + dec_digits(minor)
}

/// Build the versioned interpreter name probed on the search path.
pub fn versioned_python_name(major: u32, minor: u32) -> (r: String)
    ensures
        r@ == spec_versioned_python(major as int, minor as int),
{
    let mut s = String::from_str("python");
    s.append(u32_to_string(major).as_str());
    s.append(".");
    s.append(u32_to_string(minor).as_str());
    proof {
        assert(s@ =~= spec_versioned_python(major as int, minor as int));
    }
    s
}

/// One entry of the version manager's installation directory: the directory
/// name (expected `major.minor[.patch]`) and whether it holds an
/// interpreter binary.
#[derive(Debug)]
pub struct PyenvEntry {
    pub name: String,
    pub has_python: bool,
}

/// The version a directory name encodes, if it has at least two numeric
/// parts.
pub open spec fn entry_version(name: Seq<char>) -> Option<(u32, u32)> {
    let ps = number_parts(name);
    if ps.len() >= 2 {
        Option::Some((ps[0], ps[1]))
    } else {
        Option::None
    }
}

/// An entry that can serve the requirement: it holds an interpreter and its
/// version is at least the minimum.
pub open spec fn entry_qualifies(e: PyenvEntry, min: (u32, u32)) -> bool {
    &&& e.has_python
    &&& entry_version(e.name@) matches Option::Some(v) && version_geq(v, min)
}

/// Strictly newer.
pub open spec fn version_gt(a: (u32, u32), b: (u32, u32)) -> bool {
    a.0 > b.0 || (a.0 == b.0 && a.1 > b.1)
}

/// Index of the highest qualifying entry at or after `i`, starting from the
/// candidate `best` (an index before `i`); the earliest of equal versions
/// wins.
pub open spec fn best_entry_from(
    entries: Seq<PyenvEntry>,
    min: (u32, u32),
    i: int,
    best: Option<int>,
) -> Option<int>
    decreases entries.len() - i,
{
    if i < 0 || i >= entries.len() {
        best
    } else {
        let better = entry_qualifies(entries[i], min) && (match best {
            Option::None => true,
            Option::Some(b) => version_gt(
                entry_version(entries[i].name@)->Some_0,
                entry_version(entries[b].name@)->Some_0,
            ),
        });
        best_entry_from(entries, min, i + 1, if better {
            Option::Some(i)
        } else {
            best
        })
    }
}

/// Whatever the directory holds, a chosen entry qualifies: it has an
/// interpreter and its version is at least the minimum.
pub proof fn lemma_best_entry_qualifies(
    entries: Seq<PyenvEntry>,
    min: (u32, u32),
    i: int,
    best: Option<int>,
)
    requires
        best matches Option::Some(b) ==> 0 <= b < entries.len() && entry_qualifies(
            entries[b],
            min,
        ),
    ensures
        best_entry_from(entries, min, i, best) matches Option::Some(b) ==> 0 <= b < entries.len()
            && entry_qualifies(entries[b], min),
    decreases entries.len() - i,
{
    if i < 0 || i >= entries.len() {
    } else {
        let better = entry_qualifies(entries[i], min) && (match best {
            Option::None => true,
            Option::Some(b) => version_gt(
                entry_version(entries[i].name@)->Some_0,
                entry_version(entries[b].name@)->Some_0,
            ),
        });
        lemma_best_entry_qualifies(entries, min, i + 1, if better {
            Option::Some(i)
        } else {
            best
        });
    }
}

/// The highest offset with a positive probe, or none.
pub open spec fn best_path_offset(probe: Seq<bool>) -> Option<int>
    decreases probe.len(),
{
    if probe.len() == 0 {
        Option::None
    } else if probe.last() {
        Option::Some(probe.len() - 1)
    } else {
        best_path_offset(probe.drop_last())
    }
}

proof fn lemma_best_path_offset_at(probe: Seq<bool>, j: int)
    requires
        0 <= j < probe.len(),
        probe[j],
        forall|k: int| j < k < probe.len() ==> !probe[k],
    ensures
        best_path_offset(probe) == Option::Some(j),
    decreases probe.len(),
{
    if j == probe.len() - 1 {
    } else {
        assert(!probe.last());
        assert(forall|k: int| 0 <= k < probe.len() - 1 ==> probe.drop_last()[k] == probe[k]);
        lemma_best_path_offset_at(probe.drop_last(), j);
    }
}

proof fn lemma_best_path_offset_none(probe: Seq<bool>)
    requires
        forall|k: int| 0 <= k < probe.len() ==> !probe[k],
    ensures
        best_path_offset(probe) is None,
    decreases probe.len(),
{
    if probe.len() > 0 {
        assert(forall|k: int| 0 <= k < probe.len() - 1 ==> probe.drop_last()[k] == probe[k]);
        lemma_best_path_offset_none(probe.drop_last());
    }
}

/// How many versioned names the path scan probes for a given minimum
/// minor: the minors `min_minor ..= 13`, newest first.
pub open spec fn path_probe_len(min_minor: int) -> int {
    if min_minor <= 13 {
        14 - min_minor
    } else {
        0
    }
}

/// Find an interpreter for the minimum `(min_major, min_minor)`.
///
/// `path_probe[i]` reports whether `python{min_major}.{min_minor + i}`
/// answered on the search path; `pyenv_entries` lists the version manager's
/// installations under `pyenv_root`.  The newest qualifying path name wins;
/// only when none answered does the highest qualifying version-manager
/// entry, as `{pyenv_root}/{name}/bin/python`.
pub fn find_python_for_version(
    min_major: u32,
    min_minor: u32,
    path_probe: &Vec<bool>,
    pyenv_root: &str,
    pyenv_entries: &Vec<PyenvEntry>,
) -> (r: Option<String>)
    requires
        path_probe@.len() == path_probe_len(min_minor as int),
    ensures
        match best_path_offset(path_probe@) {
            Option::Some(off) => r matches Some(name) && name@ == spec_versioned_python(
                min_major as int,
                min_minor + off,
            ),
            Option::None => match best_entry_from(
                pyenv_entries@,
                (min_major, min_minor),
                0,
                Option::None,
            ) {
                Option::Some(b) => r matches Some(name) && name@ == pyenv_root@ + "/"@
                    + pyenv_entries@[b].name@ + "/bin/python"@,
                Option::None => r is None,
            },
        },
{
    let n: usize = path_probe.len();
    let mut i: usize = n;
    while i > 0
        invariant
            i <= n,
            n == path_probe@.len(),
            path_probe@.len() == path_probe_len(min_minor as int),
            forall|k: int| i <= k < n ==> !path_probe@[k],
        decreases i,
    {
        if path_probe[i - 1] {
            proof {
                lemma_best_path_offset_at(path_probe@, i - 1);
            }
            let name = versioned_python_name(min_major, min_minor + ((i - 1) as u32));
            return Option::Some(name);
        }
        i = i - 1;
    }
    proof {
        lemma_best_path_offset_none(path_probe@);
    }
    let m: usize = pyenv_entries.len();
    let mut j: usize = 0;
    let mut best: Option<usize> = Option::None;
    let mut best_major: u32 = 0;
    let mut best_minor: u32 = 0;
    while j < m
        invariant
            j <= m,
            m == pyenv_entries@.len(),
            best_entry_from(pyenv_entries@, (min_major, min_minor), 0, Option::None)
                == best_entry_from(
                pyenv_entries@,
                (min_major, min_minor),
                j as int,
                match best {
                    Option::Some(b) => Option::Some(b as int),
                    Option::None => Option::None,
                },
            ),
            best matches Option::Some(b) ==> b < j && entry_version(pyenv_entries@[b as int].name@)
                == Option::Some((best_major, best_minor)),
        decreases m - j,
    {
        let e = &pyenv_entries[j];
        let parts: Vec<u32> = number_parts_of(e.name.as_str());
        let mut take: bool = false;
        let mut e_major: u32 = 0;
        let mut e_minor: u32 = 0;
        if e.has_python && parts.len() >= 2 {
            e_major = parts[0];
            e_minor = parts[1];
            let meets = e_major > min_major || (e_major == min_major && e_minor >= min_minor);
            if meets {
                take = match best {
                    Option::Some(_) => e_major > best_major || (e_major == best_major && e_minor
                        > best_minor),
                    Option::None => true,
                };
            }
        }
        if take {
            best = Option::Some(j);
            best_major = e_major;
            best_minor = e_minor;
        }
        j = j + 1;
    }
    match best {
        Option::Some(b) => {
            proof {
                assert(best_entry_from(
                    pyenv_entries@,
                    (min_major, min_minor),
                    m as int,
                    Option::Some(b as int),
                ) == Option::Some(b as int));
            }
            let mut path = pyenv_root.to_owned();
            path.append("/");
            path.append(pyenv_entries[b].name.as_str());
            path.append("/bin/python");
            proof {
                assert(path@ =~= pyenv_root@ + "/"@ + pyenv_entries@[b as int].name@
                    + "/bin/python"@);
            }
            Option::Some(path)
        },
        Option::None => Option::None,
    }
}

/// The interpreter search never hands back a version below the minimum:
/// a search-path hit names `python{min_major}.{m}` with `m >= min_minor`,
/// and a chosen version-manager entry holds an interpreter whose encoded
/// version is at least `(min_major, min_minor)` — for every probe outcome
/// and every directory content.
pub proof fn lemma_interpreter_meets_minimum(
    min_major: u32,
    min_minor: u32,
    probe: Seq<bool>,
    entries: Seq<PyenvEntry>,
)
    requires
        probe.len() == path_probe_len(min_minor as int),
    ensures
        best_path_offset(probe) matches Option::Some(off) ==> version_geq(
            ((min_major as u32), ((min_minor + off) as u32)),
            (min_major, min_minor),
        ),
        best_entry_from(entries, (min_major, min_minor), 0, Option::None) matches Option::Some(b)
            ==> 0 <= b < entries.len() && entry_qualifies(entries[b], (min_major, min_minor)),
{
    lemma_best_entry_qualifies(entries, (min_major, min_minor), 0, Option::None);
    if best_path_offset(probe) is Some {
        lemma_best_path_offset_bounds(probe);
    }
}

proof fn lemma_best_path_offset_bounds(probe: Seq<bool>)
    ensures
        best_path_offset(probe) matches Option::Some(off) ==> 0 <= off < probe.len(),
    decreases probe.len(),
{
    if probe.len() > 0 && !probe.last() {
        lemma_best_path_offset_bounds(probe.drop_last());
    }
}

/// What to do with a tool's venv directory before installing.
#[derive(Debug, Clone, Copy, PartialEq, Eq, Structural)]
pub enum VenvAction {
    /// Keep the directory that is there.
    UseExisting,
    /// Destroy the stale directory and create a fresh one.
    Recreate,
    /// No directory yet: create one.
    Create,
}

/// Decide the venv step: keep an environment that meets the minimum;
/// recreate one that is below it only when a better interpreter is actually
/// at hand; keep a stale environment rather than fail when nothing better
/// exists; create when there is none.
pub fn decide_venv_action(venv_exists: bool, venv_meets_min: bool, better_available: bool) -> (r:
    VenvAction)
    ensures
        !venv_exists ==> r == VenvAction::Create,
        venv_exists && venv_meets_min ==> r == VenvAction::UseExisting,
        venv_exists && !venv_meets_min && better_available ==> r == VenvAction::Recreate,
        venv_exists && !venv_meets_min && !better_available ==> r == VenvAction::UseExisting,
{
    if !venv_exists {
        VenvAction::Create
    } else if venv_meets_min {
        VenvAction::UseExisting
    } else if better_available {
        VenvAction::Recreate
    } else {
        VenvAction::UseExisting
    }
}

/// The interpreter snippet that checks a venv's version against the
/// minimum: exits zero exactly when the version suffices.
pub fn version_probe_snippet(min_major: u32, min_minor: u32) -> (r: String)
    ensures
        r@ == "import sys; exit(0 if sys.version_info >= ("@ + dec_digits(min_major as int)
            + ", "@ + dec_digits(min_minor as int) + ") else 1)"@,
{
    let mut s = String::from_str("import sys; exit(0 if sys.version_info >= (");
    s.append(u32_to_string(min_major).as_str());
    s.append(", ");
    s.append(u32_to_string(min_minor).as_str());
    s.append(") else 1)");
    proof {
        assert(s@ =~= "import sys; exit(0 if sys.version_info >= ("@ + dec_digits(
            min_major as int,
        ) + ", "@ + dec_digits(min_minor as int) + ") else 1)"@);
    }
    s
}

/// Where an executable of the environment lives: `{venv}/bin/{exe}`.
pub fn get_venv_executable(venv_path: &str, exe_name: &str) -> (r: String)
    ensures
        r@ == venv_path@ + "/bin/"@ + exe_name@,
{
    let mut s = venv_path.to_owned();
    s.append("/bin/");
    s.append(exe_name);
    proof {
        assert(s@ =~= venv_path@ + "/bin/"@ + exe_name@);
    }
    s
}

/// The remediation text shown when no interpreter satisfies
/// `(min_major, min_minor)`: it names a package-manager install command and
/// the version-manager commands that install a satisfying interpreter.
pub open spec fn spec_remediation(min_major: int, min_minor: int) -> Seq<char> {
    "This tool requires Python >="@ + dec_digits(min_major) + "."@ + dec_digits(min_minor)
        + ", but no compatible Python was found on this system.\n\nOptions to install Python "@
        + dec_digits(min_major) + "."@ + dec_digits(min_minor)
        + "+:\n\n1. Package manager (RHEL/CentOS - requires root):\n   sudo yum install python3"@
        + dec_digits(min_minor)
        + "\n\n2. pyenv - install any Python version without root:\n   curl https://pyenv.run | bash\n   # restart the shell, then:\n   pyenv install 3."@
        + dec_digits(min_minor) + "\n   pyenv global 3."@ + dec_digits(min_minor)
}

/// Build the remediation message for a missing interpreter.
pub fn remediation_message(min_major: u32, min_minor: u32) -> (r: String)
    ensures
        r@ == spec_remediation(min_major as int, min_minor as int),
{
    let major = u32_to_string(min_major);
    let minor = u32_to_string(min_minor);
    let mut s = String::from_str("This tool requires Python >=");
    s.append(major.as_str());
    s.append(".");
    s.append(minor.as_str());
    s.append(", but no compatible Python was found on this system.\n\nOptions to install Python ");
    s.append(major.as_str());
    s.append(".");
    s.append(minor.as_str());
    s.append("+:\n\n1. Package manager (RHEL/CentOS - requires root):\n   sudo yum install python3");
    s.append(minor.as_str());
    s.append(
        "\n\n2. pyenv - install any Python version without root:\n   curl https://pyenv.run | bash\n   # restart the shell, then:\n   pyenv install 3.",
    );
    s.append(minor.as_str());
    s.append("\n   pyenv global 3.");
    s.append(minor.as_str());
    proof {
        assert(s@ =~= spec_remediation(min_major as int, min_minor as int));
    }
    s
}

/// What a declared requirement asks for: the parsed lower bound of the
/// requirement string, when there is one.
pub open spec fn declared_minimum(python_version: Option<Seq<char>>) -> Option<(u32, u32)> {
    match python_version {
        Option::Some(s) => crate::version::spec_min_required(s),
        Option::None => Option::None,
    }
}

/// Resolve the interpreter for a declared requirement (§4.3): no declared
/// requirement, or one without a lower bound, accepts the default minimum
/// `(3, 8)` with no override; a declared minimum either finds an
/// interpreter — handed back as the override — or fails with the
/// remediation message.
pub fn resolve_python(
    python_version: Option<&String>,
    path_probe: &Vec<bool>,
    pyenv_root: &str,
    pyenv_entries: &Vec<PyenvEntry>,
) -> (r: Result<(Option<String>, (u32, u32)), TuxBoxError>)
    requires
        ({
            let pv = match python_version {
                Option::Some(s) => Option::Some(s@),
                Option::None => Option::None,
            };
            declared_minimum(pv) matches Option::Some(v) ==> path_probe@.len() == path_probe_len(
                v.1 as int,
            )
        }),
    ensures
        ({
            let pv = match python_version {
                Option::Some(s) => Option::Some(s@),
                Option::None => Option::None,
            };
            match declared_minimum(pv) {
                Option::None => r matches Ok(p) && p.0 is None && p.1 == (3u32, 8u32),
                Option::Some(v) => match best_path_offset(path_probe@) {
                    Option::Some(off) => r matches Ok(p) && p.1 == v && (p.0 matches Some(name)
                        && name@ == spec_versioned_python(v.0 as int, v.1 + off)),
                    Option::None => match best_entry_from(pyenv_entries@, v, 0, Option::None) {
                        Option::Some(b) => r matches Ok(p) && p.1 == v && (p.0 matches Some(name)
                            && name@ == pyenv_root@ + "/"@ + pyenv_entries@[b].name@
                            + "/bin/python"@),
                        Option::None => r matches Err(e) && (e matches
                            TuxBoxError::RuntimeUnavailable(m) && m@ == spec_remediation(
                            v.0 as int,
                            v.1 as int,
                        )),
                    },
                },
            }
        }),
{
    let parsed: Option<(u32, u32)> = match python_version {
        Option::Some(s) => crate::version::min_required_python(s.as_str()),
        Option::None => Option::None,
    };
    match parsed {
        Option::None => Ok((Option::None, (3, 8))),
        Option::Some((min_major, min_minor)) => {
            match find_python_for_version(
                min_major,
                min_minor,
                path_probe,
                pyenv_root,
                pyenv_entries,
            ) {
                Option::Some(name) => Ok((Option::Some(name), (min_major, min_minor))),
                Option::None => Err(
                    TuxBoxError::RuntimeUnavailable(remediation_message(min_major, min_minor)),
                ),
            }
        },
    }
}


/// The interpreter names probed when no requirement narrows the choice,
/// newest first, ending with the unversioned names.
pub open spec fn candidate_name(i: int) -> Seq<char> {
    if i == 0 {
        "python3.13"@
    } else if i == 1 {
        "python3.12"@
    } else if i == 2 {
        "python3.11"@
    } else if i == 3 {
        "python3.10"@
    } else if i == 4 {
        "python3.9"@
    } else if i == 5 {
        "python3.8"@
    } else if i == 6 {
        "python3"@
    } else {
        "python"@
    }
}

/// Index of the first positive probe, or the probe count.
pub open spec fn first_true(bs: Seq<bool>) -> int
    decreases bs.len(),
{
    if bs.len() == 0 {
        0
    } else if bs[0] {
        0
    } else {
        1 + first_true(bs.drop_first())
    }
}

proof fn lemma_first_true_is(bs: Seq<bool>, i: int)
    requires
        0 <= i <= bs.len(),
        forall|k: int| 0 <= k < i ==> !bs[k],
        i == bs.len() || bs[i],
    ensures
        first_true(bs) == i,
    decreases i,
{
    if bs.len() == 0 {
    } else if i == 0 {
    } else {
        assert(!bs[0]);
        assert(forall|k: int| 0 <= k < i - 1 ==> bs.drop_first()[k] == bs[k + 1]);
        lemma_first_true_is(bs.drop_first(), i - 1);
    }
}

/// The probed candidate names, in probing order.
pub fn python_candidates() -> (r: Vec<String>)
    ensures
        r@.len() == 8,
        forall|i: int| 0 <= i < 8 ==> #[trigger] r@[i]@ == candidate_name(i),
{
    let mut v: Vec<String> = Vec::new();
    v.push(String::from_str("python3.13"));
    v.push(String::from_str("python3.12"));
    v.push(String::from_str("python3.11"));
    v.push(String::from_str("python3.10"));
    v.push(String::from_str("python3.9"));
    v.push(String::from_str("python3.8"));
    v.push(String::from_str("python3"));
    v.push(String::from_str("python"));
    proof {
        assert(forall|i: int| 0 <= i < 8 ==> #[trigger] v@[i]@ == candidate_name(i)) by {
            assert(v@[0]@ == candidate_name(0));
            assert(v@[1]@ == candidate_name(1));
            assert(v@[2]@ == candidate_name(2));
            assert(v@[3]@ == candidate_name(3));
            assert(v@[4]@ == candidate_name(4));
            assert(v@[5]@ == candidate_name(5));
            assert(v@[6]@ == candidate_name(6));
            assert(v@[7]@ == candidate_name(7));
        }
    }
    v
}

/// Pick the best available interpreter with no declared requirement: the
/// first candidate — newest first — whose probe answered; none answering
/// is an execution error telling the user to install an interpreter.
pub fn detect_python(probe_ok: &Vec<bool>) -> (r: Result<String, TuxBoxError>)
    requires
        probe_ok@.len() == 8,
    ensures
        first_true(probe_ok@) < 8 ==> (r matches Ok(name) && name@ == candidate_name(
            first_true(probe_ok@),
        )),
        first_true(probe_ok@) >= 8 ==> (r matches Err(e) && (e matches
            TuxBoxError::ExecutionError(m) && m@
            == "Python not found. Please install Python 3.8+"@)),
{
    let candidates = python_candidates();
    let mut i: usize = 0;
    while i < 8
        invariant
            i <= 8,
            probe_ok@.len() == 8,
            candidates@.len() == 8,
            forall|k: int| 0 <= k < 8 ==> #[trigger] candidates@[k]@ == candidate_name(k),
            forall|k: int| 0 <= k < i ==> !probe_ok@[k],
        decreases 8 - i,
    {
        if probe_ok[i] {
            proof {
                lemma_first_true_is(probe_ok@, i as int);
            }
            return Ok(candidates[i].clone());
        }
        i = i + 1;
    }
    proof {
        lemma_first_true_is(probe_ok@, 8);
    }
    Err(TuxBoxError::ExecutionError(String::from_str("Python not found. Please install Python 3.8+")))
}

} // verus!
