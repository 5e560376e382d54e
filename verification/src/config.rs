//! Configuration data: registry sources and resolved tool definitions,
//! together with the pure logic of configuration edits.

use vstd::prelude::*;
use vstd::string::{StrSliceExecFns, StringExecFns};

use crate::text::{dup_opt_string, spec_starts_with, str_starts_with};

verus! {

/// How a registry repository is reached.
#[derive(Debug, Clone, Copy, PartialEq, Eq, Structural)]
pub enum AuthType {
    Ssh,
    Https,
}

impl Default for AuthType {
    /// Registries default to SSH access.
    fn default() -> (r: Self)
        ensures
            r == AuthType::Ssh,
    {
        AuthType::Ssh
    }
}

/// One configured registry source.
#[derive(Debug)]
pub struct RegistryConfig {
    pub name: String,
    pub url: String,
    /// Higher priority is consulted first.
    pub priority: u32,
    pub auth_type: AuthType,
}

impl RegistryConfig {
    /// A copy equal to the original.
    pub fn duplicate(&self) -> (r: Self)
        ensures
            r == *self,
    {
        RegistryConfig {
            name: self.name.clone(),
            url: self.url.clone(),
            priority: self.priority,
            auth_type: self.auth_type,
        }
    }
}

/// The persisted configuration: prioritized registries, plus the legacy
/// single-registry field kept for migration.
#[derive(Debug)]
pub struct Config {
    pub registries: Vec<RegistryConfig>,
    pub registry_url: Option<String>,
}

/// How a tool is isolated from the host.
#[derive(Debug, Clone, Copy, PartialEq, Eq, Structural)]
pub enum IsolationStrategy {
    Venv,
    Docker,
    NoIsolation,
}

/// The commands a tool definition declares.
#[derive(Debug)]
pub struct Commands {
    pub setup: Option<String>,
    pub run: String,
}

impl Commands {
    /// A copy equal to the original.
    pub fn duplicate(&self) -> (r: Self)
        ensures
            r == *self,
    {
        Commands { setup: dup_opt_string(&self.setup), run: self.run.clone() }
    }
}

/// A resolved tool definition, from a registry or the built-in fallback.
#[derive(Debug)]
pub struct ToolConfig {
    pub name: String,
    pub repo: String,
    pub branch: Option<String>,
    pub version: Option<String>,
    pub tool_type: Option<String>,
    pub isolation: Option<IsolationStrategy>,
    pub commands: Option<Commands>,
    /// The minimum interpreter version the tool declares, as a requirement
    /// string such as `">=3.8"`.
    pub python_version: Option<String>,
}

/// The priority given to a registry when none is chosen.
pub fn default_priority() -> (r: u32)
    ensures
        r == 100,
{
    100
}

/// SSH is assumed for `git@...` and `ssh://...` URLs, HTTPS otherwise.
pub open spec fn spec_auth_type(url: Seq<char>) -> AuthType {
    if spec_starts_with(url, "git@"@) || spec_starts_with(url, "ssh://"@) {
        AuthType::Ssh
    } else {
        AuthType::Https
    }
}

/// Decide how a registry URL is authenticated.
pub fn detect_auth_type(url: &str) -> (r: AuthType)
    ensures
        r == spec_auth_type(url@),
{
    if str_starts_with(url, "git@") || str_starts_with(url, "ssh://") {
        AuthType::Ssh
    } else {
        AuthType::Https
    }
}

/// All trailing `.git` suffixes removed.
pub open spec fn strip_dot_git(s: Seq<char>) -> Seq<char>
    decreases s.len(),
{
    if s.len() >= 4 && s.skip(s.len() - 4) == ".git"@ {
        strip_dot_git(s.take(s.len() - 4))
    } else {
        s
    }
}

/// All trailing slashes removed.
pub open spec fn strip_slashes(s: Seq<char>) -> Seq<char>
    decreases s.len(),
{
    if s.len() > 0 && s.last() == '/' {
        strip_slashes(s.drop_last())
    } else {
        s
    }
}

/// What follows the last `sep`, or all of `s` when `sep` is absent.
pub open spec fn suffix_after_last(s: Seq<char>, sep: char) -> Seq<char>
    decreases s.len(),
{
    if s.len() == 0 {
        s
    } else if s.last() == sep {
        Seq::empty()
    } else {
        suffix_after_last(s.drop_last(), sep) + seq![s.last()]
    }
}

/// The registry name a URL yields: the last path segment once trailing
/// `.git` suffixes and slashes are gone.
pub open spec fn spec_extract_registry_name(url: Seq<char>) -> Seq<char> {
    suffix_after_last(strip_slashes(strip_dot_git(url)), '/')
}

proof fn lemma_suffix_after_last_at(s: Seq<char>, sep: char, p: int)
    requires
        0 <= p < s.len(),
        s[p] == sep,
        forall|k: int| p < k < s.len() ==> s[k] != sep,
    ensures
        suffix_after_last(s, sep) == s.skip(p + 1),
    decreases s.len() - p,
{
    if p == s.len() - 1 {
        assert(s.last() == sep);
        assert(s.skip(p + 1) =~= Seq::<char>::empty());
    } else {
        assert(s.last() != sep);
        assert(forall|k: int| p < k < s.len() - 1 ==> s.drop_last()[k] == s[k]);
        lemma_suffix_after_last_at(s.drop_last(), sep, p);
        assert(s.drop_last().skip(p + 1) + seq![s.last()] =~= s.skip(p + 1));
    }
}

proof fn lemma_suffix_after_last_none(s: Seq<char>, sep: char)
    requires
        forall|k: int| 0 <= k < s.len() ==> s[k] != sep,
    ensures
        suffix_after_last(s, sep) == s,
    decreases s.len(),
{
    if s.len() > 0 {
        assert(forall|k: int| 0 <= k < s.len() - 1 ==> s.drop_last()[k] == s[k]);
        lemma_suffix_after_last_none(s.drop_last(), sep);
        assert(s.drop_last() + seq![s.last()] =~= s);
    }
}

/// Extract a registry's name from its URL: strip every trailing `.git` and
/// `/`, then keep what follows the last remaining slash.
pub fn extract_registry_name(url: &str) -> (r: String)
    ensures
        r@ == spec_extract_registry_name(url@),
{
    let n: usize = url.unicode_len();
    let mut end: usize = n;
    proof {
        assert(url@.take(n as int) =~= url@);
    }
    loop
        invariant
            end <= n,
            n == url@.len(),
            strip_dot_git(url@) == strip_dot_git(url@.take(end as int)),
        ensures
            end <= n,
            n == url@.len(),
            strip_dot_git(url@) == url@.take(end as int),
        decreases end,
    {
        if end >= 4 && url.get_char(end - 4) == '.' && url.get_char(end - 3) == 'g'
            && url.get_char(end - 2) == 'i' && url.get_char(end - 1) == 't' {
            proof {
                reveal_strlit(".git");
                let t = url@.take(end as int);
                assert(t.skip(end - 4) =~= ".git"@);
                assert(t.take(end - 4) =~= url@.take(end - 4));
            }
            end = end - 4;
        } else {
            proof {
                reveal_strlit(".git");
                let t = url@.take(end as int);
                if t.len() >= 4 && t.skip(t.len() - 4) == ".git"@ {
                    assert(t.skip(t.len() - 4)[0] == url@[end - 4]);
                    assert(t.skip(t.len() - 4)[1] == url@[end - 3]);
                    assert(t.skip(t.len() - 4)[2] == url@[end - 2]);
                    assert(t.skip(t.len() - 4)[3] == url@[end - 1]);
                    assert(false);
                }
                assert(strip_dot_git(url@.take(end as int)) == url@.take(end as int));
            }
            break;
        }
    }
    let ghost stripped = strip_dot_git(url@);
    let mut end2: usize = end;
    while end2 > 0 && url.get_char(end2 - 1) == '/'
        invariant
            end2 <= end <= n,
            n == url@.len(),
            stripped == url@.take(end as int),
            strip_slashes(stripped) == strip_slashes(url@.take(end2 as int)),
        decreases end2,
    {
        proof {
            let t = url@.take(end2 as int);
            assert(t.last() == url@[end2 - 1]);
            assert(t.drop_last() =~= url@.take(end2 - 1));
        }
        end2 = end2 - 1;
    }
    proof {
        let t = url@.take(end2 as int);
        if t.len() > 0 {
            assert(t.last() == url@[end2 - 1]);
        }
        assert(strip_slashes(stripped) == t);
    }
    let ghost cleaned = strip_slashes(stripped);
    let mut p: usize = end2;
    while p > 0 && url.get_char(p - 1) != '/'
        invariant
            p <= end2 <= n,
            n == url@.len(),
            cleaned == url@.take(end2 as int),
            forall|k: int| p <= k < end2 ==> url@[k] != '/',
        decreases p,
    {
        p = p - 1;
    }
    proof {
        assert(forall|k: int| 0 <= k < end2 ==> cleaned[k] == url@[k]);
        if p > 0 {
            assert(cleaned[p - 1] == '/');
            lemma_suffix_after_last_at(cleaned, '/', p - 1);
            assert(cleaned.skip(p as int) =~= url@.subrange(p as int, end2 as int));
        } else {
            lemma_suffix_after_last_none(cleaned, '/');
            assert(cleaned =~= url@.subrange(0, end2 as int));
        }
    }
    let name: &str = url.substring_char(p, end2);
    name.to_owned()
}

/// Build a registry entry from its parts, detecting the auth kind from the
/// URL.
pub fn make_registry_config(name: &str, url: &str, priority: u32) -> (r: RegistryConfig)
    ensures
        r.name@ == name@,
        r.url@ == url@,
        r.priority == priority,
        r.auth_type == spec_auth_type(url@),
{
    RegistryConfig {
        name: name.to_owned(),
        url: url.to_owned(),
        priority,
        auth_type: detect_auth_type(url),
    }
}


/// Some entry carries this registry name.
pub open spec fn has_registry(regs: Seq<RegistryConfig>, name: Seq<char>) -> bool {
    exists|i: int| 0 <= i < regs.len() && #[trigger] regs[i].name@ == name
}

/// Insert an entry into a priority-descending list: after every entry of
/// strictly higher priority, before equals — arrivals keep their order.
pub open spec fn insert_desc(x: RegistryConfig, s: Seq<RegistryConfig>) -> Seq<RegistryConfig>
    decreases s.len(),
{
    if s.len() > 0 && s[0].priority > x.priority {
        seq![s[0]] + insert_desc(x, s.drop_first())
    } else {
        seq![x] + s
    }
}

/// Stable sort by priority, highest first; ties keep arrival order.
pub open spec fn sort_desc(s: Seq<RegistryConfig>) -> Seq<RegistryConfig>
    decreases s.len(),
{
    if s.len() == 0 {
        s
    } else {
        insert_desc(s[0], sort_desc(s.drop_first()))
    }
}

proof fn lemma_insert_desc_at(x: RegistryConfig, s: Seq<RegistryConfig>, p: int)
    requires
        0 <= p <= s.len(),
        forall|k: int| 0 <= k < p ==> s[k].priority > x.priority,
        p == s.len() || s[p].priority <= x.priority,
    ensures
        insert_desc(x, s) == s.take(p) + seq![x] + s.skip(p),
    decreases p,
{
    if p == 0 {
        assert(s.take(0) + seq![x] + s.skip(0) =~= seq![x] + s);
    } else {
        assert(s[0].priority > x.priority);
        assert(forall|k: int| 0 <= k < p - 1 ==> s.drop_first()[k] == s[k + 1]);
        lemma_insert_desc_at(x, s.drop_first(), p - 1);
        assert(seq![s[0]] + (s.drop_first().take(p - 1) + seq![x] + s.drop_first().skip(p - 1))
            =~= s.take(p) + seq![x] + s.skip(p));
    }
}

/// Insert an entry into an already-sorted vector at its stable position.
fn insert_sorted(out: &mut Vec<RegistryConfig>, x: RegistryConfig)
    ensures
        final(out)@ == insert_desc(x, old(out)@),
{
    let n: usize = out.len();
    let mut p: usize = 0;
    while p < n && out[p].priority > x.priority
        invariant
            p <= n,
            n == out@.len(),
            forall|k: int| 0 <= k < p ==> out@[k].priority > x.priority,
        decreases n - p,
    {
        p = p + 1;
    }
    proof {
        lemma_insert_desc_at(x, out@, p as int);
        assert(out@.insert(p as int, x) =~= out@.take(p as int) + seq![x] + out@.skip(p as int));
    }
    out.insert(p, x);
}

/// Sort the registry list by priority, highest first, stably.
pub fn sort_registries(regs: &mut Vec<RegistryConfig>)
    ensures
        final(regs)@ == sort_desc(old(regs)@),
{
    let ghost orig = regs@;
    let mut out: Vec<RegistryConfig> = Vec::new();
    proof {
        assert(regs@ =~= orig.take(orig.len() as int));
        assert(orig.skip(orig.len() as int).len() == 0);
    }
    while regs.len() > 0
        invariant
            regs@.len() <= orig.len(),
            regs@ == orig.take(regs@.len() as int),
            out@ == sort_desc(orig.skip(regs@.len() as int)),
        decreases regs.len(),
    {
        let ghost i = regs@.len() as int;
        let x = match regs.pop() {
            Option::Some(x) => x,
            Option::None => {
                proof {
                    assert(false);
                }
                return ;
            },
        };
        proof {
            assert(x == orig[i - 1]);
            assert(regs@ =~= orig.take(i - 1));
            assert(orig.skip(i - 1).drop_first() =~= orig.skip(i));
            assert(orig.skip(i - 1)[0] == orig[i - 1]);
        }
        insert_sorted(&mut out, x);
    }
    proof {
        assert(orig.skip(0) =~= orig);
    }
    let mut done = out;
    core::mem::swap(regs, &mut done);
}

/// Whether the list already holds a registry of this name.
pub fn contains_registry(regs: &Vec<RegistryConfig>, name: &str) -> (r: bool)
    ensures
        r == has_registry(regs@, name@),
{
    let n: usize = regs.len();
    let mut i: usize = 0;
    while i < n
        invariant
            i <= n,
            n == regs@.len(),
            forall|k: int| 0 <= k < i ==> #[trigger] regs@[k].name@ != name@,
        decreases n - i,
    {
        if crate::text::str_eq_str(regs[i].name.as_str(), name) {
            return true;
        }
        i = i + 1;
    }
    false
}

/// Add a registry: a duplicate name is refused with the configuration
/// unchanged; otherwise the entry joins the list, which is kept sorted by
/// priority, highest first.
pub fn add_registry_entry(cfg: &mut Config, entry: RegistryConfig) -> (r: Result<
    (),
    crate::error::TuxBoxError,
>)
    ensures
        has_registry(old(cfg).registries@, entry.name@) ==> (r matches Err(e) && (e matches
            crate::error::TuxBoxError::ConfigError(m) && m@ == "Registry '"@ + entry.name@
            + "' already exists. Use a different name or remove it first."@) && final(cfg).registries@ == old(cfg).registries@ && final(cfg).registry_url == old(cfg).registry_url),
        !has_registry(old(cfg).registries@, entry.name@) ==> (r is Ok && final(cfg).registries@
            == sort_desc(old(cfg).registries@.push(entry)) && final(cfg).registry_url == old(cfg).registry_url),
{
    if contains_registry(&cfg.registries, entry.name.as_str()) {
        let mut m = String::from_str("Registry '");
        m.append(entry.name.as_str());
        m.append("' already exists. Use a different name or remove it first.");
        proof {
            assert(m@ =~= "Registry '"@ + entry.name@
                + "' already exists. Use a different name or remove it first."@);
        }
        return Err(crate::error::TuxBoxError::ConfigError(m));
    }
    cfg.registries.push(entry);
    sort_registries(&mut cfg.registries);
    Ok(())
}

/// The list with every entry of the given name removed.
pub open spec fn remove_named(s: Seq<RegistryConfig>, name: Seq<char>) -> Seq<RegistryConfig>
    decreases s.len(),
{
    if s.len() == 0 {
        s
    } else {
        let rest = remove_named(s.drop_first(), name);
        if s[0].name@ == name {
            rest
        } else {
            seq![s[0]] + rest
        }
    }
}

/// Remove a registry by name: an unknown name is refused with the
/// configuration unchanged.
pub fn remove_registry_entry(cfg: &mut Config, name: &str) -> (r: Result<
    (),
    crate::error::TuxBoxError,
>)
    ensures
        !has_registry(old(cfg).registries@, name@) ==> (r matches Err(e) && (e matches
            crate::error::TuxBoxError::ConfigError(m) && m@ == "Registry '"@ + name@
            + "' not found"@) && final(cfg).registries@ == old(cfg).registries@ && final(cfg).registry_url == old(cfg).registry_url),
        has_registry(old(cfg).registries@, name@) ==> (r is Ok && final(cfg).registries@
            == remove_named(old(cfg).registries@, name@) && final(cfg).registry_url == old(cfg).registry_url),
{
    let ghost orig = cfg.registries@;
    let n: usize = cfg.registries.len();
    let mut out: Vec<RegistryConfig> = Vec::new();
    let mut found: bool = false;
    let mut i: usize = 0;
    proof {
        assert(orig.skip(0) =~= orig);
        assert(out@ + remove_named(orig, name@) =~= remove_named(orig, name@));
    }
    while i < n
        invariant
            i <= n,
            n == orig.len(),
            cfg.registries@ == orig,
            out@ + remove_named(orig.skip(i as int), name@) == remove_named(orig, name@),
            found <==> exists|k: int| 0 <= k < i && #[trigger] orig[k].name@ == name@,
        decreases n - i,
    {
        proof {
            assert(orig.skip(i as int)[0] == orig[i as int]);
            assert(orig.skip(i as int).drop_first() =~= orig.skip(i + 1));
        }
        if crate::text::str_eq_str(cfg.registries[i].name.as_str(), name) {
            found = true;
        } else {
            let dup = cfg.registries[i].duplicate();
            out.push(dup);
            proof {
                assert(out@ =~= out@.drop_last() + seq![orig[i as int]]);
                assert((out@.drop_last() + seq![orig[i as int]]) + remove_named(
                    orig.skip(i + 1),
                    name@,
                ) =~= out@.drop_last() + (seq![orig[i as int]] + remove_named(
                    orig.skip(i + 1),
                    name@,
                )));
            }
        }
        i = i + 1;
    }
    if !found {
        let mut m = String::from_str("Registry '");
        m.append(name);
        m.append("' not found");
        proof {
            assert(m@ =~= "Registry '"@ + name@ + "' not found"@);
        }
        return Err(crate::error::TuxBoxError::ConfigError(m));
    }
    proof {
        assert(orig.skip(n as int).len() == 0);
        assert(out@ + remove_named(orig.skip(n as int), name@) =~= out@);
    }
    let mut done = out;
    core::mem::swap(&mut cfg.registries, &mut done);
    Ok(())
}

/// An entry patched by the init step: the URL and auth kind are replaced,
/// the name and priority stay.
pub open spec fn patched(orig: RegistryConfig, entry: RegistryConfig) -> RegistryConfig {
    RegistryConfig {
        name: orig.name,
        url: entry.url,
        priority: orig.priority,
        auth_type: entry.auth_type,
    }
}

/// The init step on the list: the first entry of the same name has its
/// URL and auth kind replaced; an unknown name is appended.
pub open spec fn update_or_add(s: Seq<RegistryConfig>, entry: RegistryConfig) -> Seq<
    RegistryConfig,
>
    decreases s.len(),
{
    if s.len() == 0 {
        seq![entry]
    } else if s[0].name@ == entry.name@ {
        seq![patched(s[0], entry)] + s.drop_first()
    } else {
        seq![s[0]] + update_or_add(s.drop_first(), entry)
    }
}

proof fn lemma_update_or_add_found(s: Seq<RegistryConfig>, entry: RegistryConfig, i: int)
    requires
        0 <= i < s.len(),
        s[i].name@ == entry.name@,
        forall|k: int| 0 <= k < i ==> #[trigger] s[k].name@ != entry.name@,
    ensures
        update_or_add(s, entry) == s.update(i, patched(s[i], entry)),
    decreases i,
{
    if i == 0 {
        assert(seq![patched(s[0], entry)] + s.drop_first() =~= s.update(0, patched(s[0], entry)));
    } else {
        assert(s[0].name@ != entry.name@);
        assert(forall|k: int| 0 <= k < i - 1 ==> s.drop_first()[k] == s[k + 1]);
        lemma_update_or_add_found(s.drop_first(), entry, i - 1);
        assert(seq![s[0]] + s.drop_first().update(i - 1, patched(s[i], entry)) =~= s.update(
            i,
            patched(s[i], entry),
        ));
    }
}

proof fn lemma_update_or_add_missing(s: Seq<RegistryConfig>, entry: RegistryConfig)
    requires
        forall|k: int| 0 <= k < s.len() ==> #[trigger] s[k].name@ != entry.name@,
    ensures
        update_or_add(s, entry) == s.push(entry),
    decreases s.len(),
{
    if s.len() == 0 {
        assert(seq![entry] =~= s.push(entry));
    } else {
        assert(forall|k: int|
            0 <= k < s.len() - 1 ==> s.drop_first()[k] == s[k + 1]);
        lemma_update_or_add_missing(s.drop_first(), entry);
        assert(seq![s[0]] + s.drop_first().push(entry) =~= s.push(entry));
    }
}

/// Initialisation with a registry URL: the same-named entry — the name is
/// extracted from the URL — gets the new URL and auth kind; otherwise the
/// entry is added; the list is then sorted by priority, highest first.
pub fn init_config_update(cfg: &mut Config, entry: RegistryConfig)
    ensures
        final(cfg).registries@ == sort_desc(update_or_add(old(cfg).registries@, entry)),
        final(cfg).registry_url == old(cfg).registry_url,
{
    let ghost orig = cfg.registries@;
    let n: usize = cfg.registries.len();
    let mut i: usize = 0;
    let mut found: bool = false;
    while i < n && !found
        invariant
            i <= n,
            n == orig.len(),
            cfg.registries@ == orig,
            found ==> i < n && orig[i as int].name@ == entry.name@,
            forall|k: int| 0 <= k < i ==> #[trigger] orig[k].name@ != entry.name@,
        decreases n - i + (if found {
            0int
        } else {
            1int
        }),
    {
        if crate::text::str_eq_str(cfg.registries[i].name.as_str(), entry.name.as_str()) {
            found = true;
        } else {
            i = i + 1;
        }
    }
    if found {
        proof {
            lemma_update_or_add_found(orig, entry, i as int);
        }
        let old_entry = cfg.registries.remove(i);
        let new_entry = RegistryConfig {
            name: old_entry.name,
            url: entry.url,
            priority: old_entry.priority,
            auth_type: entry.auth_type,
        };
        cfg.registries.insert(i, new_entry);
        proof {
            assert(cfg.registries@ =~= orig.update(i as int, patched(orig[i as int], entry)));
        }
    } else {
        proof {
            lemma_update_or_add_missing(orig, entry);
        }
        cfg.registries.push(entry);
    }
    sort_registries(&mut cfg.registries);
}

/// Migrate a legacy single-URL configuration: when the registry list is
/// empty but the legacy URL is set, that URL becomes the `default`
/// registry at the default priority with its auth kind detected; any
/// other configuration is left as it is.
pub fn migrate_legacy_config(cfg: &mut Config)
    ensures
        (old(cfg).registry_url matches Some(u) && old(cfg).registries@.len() == 0) ==> {
            &&& final(cfg).registries@.len() == 1
            &&& final(cfg).registries@[0].name@ == "default"@
            &&& old(cfg).registry_url matches Some(u2) && final(cfg).registries@[0].url@ == u2@
                && final(cfg).registries@[0].auth_type == spec_auth_type(u2@)
            &&& final(cfg).registries@[0].priority == 100
        },
        !(old(cfg).registry_url matches Some(u) && old(cfg).registries@.len() == 0) ==> final(cfg).registries@ == old(cfg).registries@,
        final(cfg).registry_url == old(cfg).registry_url,
{
    let legacy: Option<String> = dup_opt_string(&cfg.registry_url);
    match legacy {
        Option::Some(u) => {
            if cfg.registries.len() == 0 {
                let entry = make_registry_config("default", u.as_str(), 100);
                cfg.registries.push(entry);
            }
        },
        Option::None => {
        },
    }
}


/// Ordered by priority, highest first.
pub open spec fn priority_sorted(s: Seq<RegistryConfig>) -> bool {
    forall|i: int, j: int|
        0 <= i < j < s.len() ==> #[trigger] s[i].priority >= #[trigger] s[j].priority
}

/// First position whose priority does not exceed `x`'s.
spec fn first_low(x: RegistryConfig, s: Seq<RegistryConfig>) -> int
    decreases s.len(),
{
    if s.len() > 0 && s[0].priority > x.priority {
        1 + first_low(x, s.drop_first())
    } else {
        0
    }
}

proof fn lemma_first_low_bounds(x: RegistryConfig, s: Seq<RegistryConfig>)
    ensures
        0 <= first_low(x, s) <= s.len(),
        forall|k: int| 0 <= k < first_low(x, s) ==> s[k].priority > x.priority,
        first_low(x, s) < s.len() ==> s[first_low(x, s)].priority <= x.priority,
    decreases s.len(),
{
    if s.len() > 0 && s[0].priority > x.priority {
        lemma_first_low_bounds(x, s.drop_first());
        assert(forall|k: int| 1 <= k < first_low(x, s) ==> s[k] == s.drop_first()[k - 1]);
    }
}

proof fn lemma_insert_desc_sorted(x: RegistryConfig, s: Seq<RegistryConfig>)
    requires
        priority_sorted(s),
    ensures
        priority_sorted(insert_desc(x, s)),
{
    let p = first_low(x, s);
    lemma_first_low_bounds(x, s);
    lemma_insert_desc_at(x, s, p);
    let r = insert_desc(x, s);
    assert(r.len() == s.len() + 1);
    assert forall|i: int, j: int| 0 <= i < j < r.len() implies r[i].priority >= r[j].priority by {
        assert(forall|k: int| 0 <= k < p ==> r[k] == s[k]);
        assert(r[p] == x);
        assert(forall|k: int| p < k < r.len() ==> r[k] == s[k - 1]);
    }
}

/// Sorting yields a list ordered by priority, highest first.
pub proof fn lemma_sort_desc_sorted(s: Seq<RegistryConfig>)
    ensures
        priority_sorted(sort_desc(s)),
    decreases s.len(),
{
    if s.len() > 0 {
        lemma_sort_desc_sorted(s.drop_first());
        lemma_insert_desc_sorted(s[0], sort_desc(s.drop_first()));
    }
}

} // verus!
