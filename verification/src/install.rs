//! The dependency-install strategy sequence (§ of the provisioner).
//!
//! Strategies are tried in order, stopping at the first success: upgrade
//! the environment's package manager (best-effort, never fatal); an
//! editable package install when the build manifest declares a build
//! system; the plain dependency list when it exists; and, when the
//! editable install failed with no plain list to fall back on, installing
//! the build manifest's declared dependencies individually.
//!
//! A driver runs each package-manager command and reports whether it
//! succeeded; the machine here decides what comes next.

use vstd::prelude::*;
use vstd::string::{StrSliceExecFns, StringExecFns};

use crate::text::{spec_contains, str_contains, str_eq_str};

verus! {

/// What the tool directory offers the installer.
#[derive(Debug, Clone, Copy, PartialEq, Eq, Structural)]
pub struct InstallContext {
    /// A build manifest with a declared build system is present.
    pub pyproject_installable: bool,
    /// A plain dependency list file is present.
    pub has_requirements: bool,
}

/// Terminal result of the install sequence.
#[derive(Debug, Clone, Copy, PartialEq, Eq, Structural)]
pub enum InstallOutcome {
    /// Some strategy succeeded.
    Installed,
    /// No dependency declaration exists; nothing was to be done.
    NothingToInstall,
    /// Every applicable strategy failed.
    Failed,
}

/// Where the install sequence stands.
#[derive(Debug, Clone, Copy, PartialEq, Eq, Structural)]
pub enum InstallPhase {
    /// Upgrading the package manager itself.
    UpgradePip,
    /// Editable install from the build manifest.
    Editable,
    /// Install from the plain dependency list.
    Requirements,
    /// Install the build manifest's dependencies individually.
    PoetryFallback,
    /// The sequence is over.
    Done(InstallOutcome),
}

/// The build manifest is installable when it declares a build system.
pub open spec fn spec_pyproject_installable(content: Seq<char>) -> bool {
    spec_contains(content, "[build-system]"@)
}

/// Whether a build manifest's content declares a build system.
pub fn pyproject_installable(content: &str) -> (r: bool)
    ensures
        r == spec_pyproject_installable(content@),
{
    str_contains(content, "[build-system]")
}

/// The transition relation of the installer: which strategy follows,
/// given whether the last one succeeded.
pub open spec fn spec_install_step(
    ctx: InstallContext,
    phase: InstallPhase,
    ok: bool,
) -> InstallPhase {
    match phase {
        InstallPhase::UpgradePip => {
            if ctx.pyproject_installable {
                InstallPhase::Editable
            } else if ctx.has_requirements {
                InstallPhase::Requirements
            } else {
                InstallPhase::Done(InstallOutcome::NothingToInstall)
            }
        },
        InstallPhase::Editable => {
            if ok {
                InstallPhase::Done(InstallOutcome::Installed)
            } else if ctx.has_requirements {
                InstallPhase::Requirements
            } else {
                InstallPhase::PoetryFallback
            }
        },
        InstallPhase::Requirements => {
            if ok {
                InstallPhase::Done(InstallOutcome::Installed)
            } else {
                InstallPhase::Done(InstallOutcome::Failed)
            }
        },
        InstallPhase::PoetryFallback => {
            if ok {
                InstallPhase::Done(InstallOutcome::Installed)
            } else {
                InstallPhase::Done(InstallOutcome::Failed)
            }
        },
        InstallPhase::Done(o) => InstallPhase::Done(o),
    }
}

/// Advance the install sequence by the outcome of its last step.
pub fn install_step(ctx: InstallContext, phase: InstallPhase, ok: bool) -> (r: InstallPhase)
    ensures
        r == spec_install_step(ctx, phase, ok),
{
    match phase {
        InstallPhase::UpgradePip => {
            if ctx.pyproject_installable {
                InstallPhase::Editable
            } else if ctx.has_requirements {
                InstallPhase::Requirements
            } else {
                InstallPhase::Done(InstallOutcome::NothingToInstall)
            }
        },
        InstallPhase::Editable => {
            if ok {
                InstallPhase::Done(InstallOutcome::Installed)
            } else if ctx.has_requirements {
                InstallPhase::Requirements
            } else {
                InstallPhase::PoetryFallback
            }
        },
        InstallPhase::Requirements => {
            if ok {
                InstallPhase::Done(InstallOutcome::Installed)
            } else {
                InstallPhase::Done(InstallOutcome::Failed)
            }
        },
        InstallPhase::PoetryFallback => {
            if ok {
                InstallPhase::Done(InstallOutcome::Installed)
            } else {
                InstallPhase::Done(InstallOutcome::Failed)
            }
        },
        InstallPhase::Done(o) => InstallPhase::Done(o),
    }
}

/// The package-manager self-upgrade is best-effort: whether it failed or
/// succeeded, the sequence continues identically — its failure is never
/// fatal.
pub proof fn lemma_pip_upgrade_best_effort(ctx: InstallContext)
    ensures
        spec_install_step(ctx, InstallPhase::UpgradePip, false) == spec_install_step(
            ctx,
            InstallPhase::UpgradePip,
            true,
        ),
{
}

/// A failed editable install falls back — to the plain dependency list
/// when one exists, to the individual-install fallback otherwise — and
/// never straight to failure.
pub proof fn lemma_editable_failure_falls_back(ctx: InstallContext)
    ensures
        ctx.has_requirements ==> spec_install_step(ctx, InstallPhase::Editable, false)
            == InstallPhase::Requirements,
        !ctx.has_requirements ==> spec_install_step(ctx, InstallPhase::Editable, false)
            == InstallPhase::PoetryFallback,
{
}

/// The dependency table's entry for the runtime itself, in any letter
/// case.
pub open spec fn is_python_key(s: Seq<char>) -> bool {
    &&& s.len() == 6
    &&& (s[0] == 'p' || s[0] == 'P')
    &&& (s[1] == 'y' || s[1] == 'Y')
    &&& (s[2] == 't' || s[2] == 'T')
    &&& (s[3] == 'h' || s[3] == 'H')
    &&& (s[4] == 'o' || s[4] == 'O')
    &&& (s[5] == 'n' || s[5] == 'N')
}

/// A dependency drawn from a repository, a local path or a URL rather
/// than the package index.
pub open spec fn has_source_key(keys: Seq<Seq<char>>) -> bool {
    exists|j: int|
        0 <= j < keys.len() && (keys[j] == "git"@ || keys[j] == "path"@ || keys[j] == "url"@)
}

/// One dependency entry: its name and, for table-valued entries, the keys
/// of that table.
pub open spec fn entry_view(e: (String, Vec<String>)) -> (Seq<char>, Seq<Seq<char>>) {
    (e.0@, e.1@.map_values(|s: String| s@))
}

/// The packages the fallback installs: every entry except the runtime's
/// own and those sourced from git, a path or a URL.
pub open spec fn spec_select_packages(es: Seq<(Seq<char>, Seq<Seq<char>>)>) -> Seq<Seq<char>>
    decreases es.len(),
{
    if es.len() == 0 {
        Seq::empty()
    } else {
        let keep: Seq<Seq<char>> = if !is_python_key(es[0].0) && !has_source_key(es[0].1) {
            seq![es[0].0]
        } else {
            Seq::empty()
        };
        keep + spec_select_packages(es.drop_first())
    }
}

fn key_is_python(s: &str) -> (r: bool)
    ensures
        r == is_python_key(s@),
{
    let n: usize = s.unicode_len();
    if n != 6 {
        return false;
    }
    let c0 = s.get_char(0);
    let c1 = s.get_char(1);
    let c2 = s.get_char(2);
    let c3 = s.get_char(3);
    let c4 = s.get_char(4);
    let c5 = s.get_char(5);
    (c0 == 'p' || c0 == 'P') && (c1 == 'y' || c1 == 'Y') && (c2 == 't' || c2 == 'T') && (c3 == 'h'
        || c3 == 'H') && (c4 == 'o' || c4 == 'O') && (c5 == 'n' || c5 == 'N')
}

fn keys_have_source(keys: &Vec<String>) -> (r: bool)
    ensures
        r == has_source_key(keys@.map_values(|s: String| s@)),
{
    let ghost kv = keys@.map_values(|s: String| s@);
    let n: usize = keys.len();
    let mut i: usize = 0;
    while i < n
        invariant
            i <= n,
            n == keys@.len(),
            kv == keys@.map_values(|s: String| s@),
            forall|j: int|
                0 <= j < i ==> !(kv[j] == "git"@ || kv[j] == "path"@ || kv[j] == "url"@),
        decreases n - i,
    {
        let k = keys[i].as_str();
        if str_eq_str(k, "git") || str_eq_str(k, "path") || str_eq_str(k, "url") {
            proof {
                assert(kv[i as int] == keys@[i as int]@);
            }
            return true;
        }
        proof {
            assert(kv[i as int] == keys@[i as int]@);
        }
        i = i + 1;
    }
    false
}

/// Choose what the fallback installs from the dependency entries: names
/// only, excluding the runtime's own entry and source-pinned entries.
pub fn select_poetry_packages(entries: &Vec<(String, Vec<String>)>) -> (r: Vec<String>)
    ensures
        r@.map_values(|s: String| s@) == spec_select_packages(
            entries@.map_values(|e: (String, Vec<String>)| entry_view(e)),
        ),
{
    let ghost ev = entries@.map_values(|e: (String, Vec<String>)| entry_view(e));
    let n: usize = entries.len();
    let mut out: Vec<String> = Vec::new();
    let mut i: usize = 0;
    proof {
        assert(ev.skip(0) =~= ev);
        assert(out@.map_values(|s: String| s@) + spec_select_packages(ev) =~= spec_select_packages(
            ev,
        ));
    }
    while i < n
        invariant
            i <= n,
            n == entries@.len(),
            ev == entries@.map_values(|e: (String, Vec<String>)| entry_view(e)),
            out@.map_values(|s: String| s@) + spec_select_packages(ev.skip(i as int))
                == spec_select_packages(ev),
        decreases n - i,
    {
        proof {
            assert(ev.skip(i as int)[0] == ev[i as int]);
            assert(ev[i as int] == entry_view(entries@[i as int]));
            assert(ev.skip(i as int).drop_first() =~= ev.skip(i + 1));
        }
        let name = entries[i].0.as_str();
        if !key_is_python(name) && !keys_have_source(&entries[i].1) {
            let owned: String = name.to_owned();
            out.push(owned);
            proof {
                assert(out@.map_values(|s: String| s@) =~= out@.drop_last().map_values(
                    |s: String| s@,
                ).push(name@));
                assert(out@.drop_last().map_values(|s: String| s@).push(name@)
                    + spec_select_packages(ev.skip(i + 1)) =~= out@.drop_last().map_values(
                    |s: String| s@,
                ) + (seq![ev[i as int].0] + spec_select_packages(ev.skip(i + 1))));
            }
        }
        i = i + 1;
    }
    proof {
        assert(ev.skip(n as int).len() == 0);
        assert(out@.map_values(|s: String| s@) + Seq::<Seq<char>>::empty() =~= out@.map_values(
            |s: String| s@,
        ));
    }
    out
}

/// What the build manifest's dependency table declares.  The table's
/// entries are a function of the manifest text alone.
pub uninterp spec fn poetry_deps_of(content: Seq<char>) -> Option<Seq<(Seq<char>, Seq<Seq<char>>)>>;

/// The view of what the reader returned.
pub open spec fn deps_view(r: Option<Vec<(String, Vec<String>)>>) -> Option<
    Seq<(Seq<char>, Seq<Seq<char>>)>,
> {
    match r {
        Option::Some(v) => Option::Some(v@.map_values(|e: (String, Vec<String>)| entry_view(e))),
        Option::None => Option::None,
    }
}

/// Relies on toml::from_str, toml::Value::get and toml::Value::as_table:
/// the entries of the manifest's `tool.poetry.dependencies` table — each
/// entry's key, with the keys of its value when that value is itself a
/// table — or nothing when the manifest does not parse or has no such
/// table.
#[verifier::external_body]
fn poetry_dependency_entries(content: &str) -> (r: Option<Vec<(String, Vec<String>)>>)
    ensures
        deps_view(r) == poetry_deps_of(content@),
{
    let doc: toml::Value = toml::from_str(content).ok()?;
    let table = doc.get("tool")?.get("poetry")?.get("dependencies")?.as_table()?;
    Some(table.iter().map(|(k, v)| {
        let keys: Vec<String> = match v.as_table() {
            Some(t) => t.keys().cloned().collect(),
            None => Vec::new(),
        };
        (k.clone(), keys)
    }).collect())
}

/// The packages the individual-install fallback would install for a build
/// manifest: the declared dependencies minus the runtime's own entry and
/// any git-, path- or url-sourced one; `None` when the manifest yields no
/// dependency table.
pub fn poetry_fallback_packages(content: &str) -> (r: Option<Vec<String>>)
    ensures
        match poetry_deps_of(content@) {
            Option::Some(es) => r matches Some(v) && v@.map_values(|s: String| s@)
                == spec_select_packages(es),
            Option::None => r is None,
        },
{
    match poetry_dependency_entries(content) {
        Option::Some(entries) => Option::Some(select_poetry_packages(&entries)),
        Option::None => Option::None,
    }
}

/// The line a path-registration file holds so the tool's own directory is
/// importable without an editable install.
pub fn pth_content(tool_path: &str) -> (r: String)
    ensures
        r@ == tool_path@ + "\n"@,
{
    let mut s = tool_path.to_owned();
    s.append("\n");
    s
}

/// The interpreter snippet that prints where packages are installed.
pub fn site_packages_snippet() -> (r: String)
    ensures
        r@ == "import site; print(site.getsitepackages()[0])"@,
{
    String::from_str("import site; print(site.getsitepackages()[0])")
}

} // verus!
