//! Tool registries and priority-ordered resolution.
//!
//! Each registry is a cloned repository holding a manifest of tool
//! definitions.  Resolution walks the configured registries in the given
//! order — highest priority first — and the first registry that is cloned
//! and defines the name wins; later (lower-priority) definitions of the same
//! name are never consulted.

use vstd::prelude::*;
use vstd::string::StringExecFns;

use crate::config::{Commands, RegistryConfig, ToolConfig};
use crate::error::TuxBoxError;
use crate::text::{dup_opt_string, str_eq_str};

verus! {

/// The commands a registry manifest declares for a tool.
#[derive(Debug)]
pub struct RegistryCommands {
    pub run: String,
    pub setup: Option<String>,
}

impl RegistryCommands {
    /// A copy equal to the original.
    pub fn duplicate(&self) -> (r: Self)
        ensures
            r == *self,
    {
        RegistryCommands { run: self.run.clone(), setup: dup_opt_string(&self.setup) }
    }
}

/// The dependency declarations of a tool: an interpreter requirement and a
/// plain dependency list file.
#[derive(Debug)]
pub struct RegistryDependencies {
    pub python: Option<String>,
    pub requirements: Option<String>,
}

impl RegistryDependencies {
    /// A copy equal to the original.
    pub fn duplicate(&self) -> (r: Self)
        ensures
            r == *self,
    {
        RegistryDependencies {
            python: dup_opt_string(&self.python),
            requirements: dup_opt_string(&self.requirements),
        }
    }
}

/// One tool definition as a registry manifest declares it.
#[derive(Debug)]
pub struct RegistryTool {
    pub name: String,
    pub repo: String,
    pub branch: Option<String>,
    pub version: Option<String>,
    pub tool_type: Option<String>,
    pub description: Option<String>,
    pub commands: Option<RegistryCommands>,
    pub dependencies: Option<RegistryDependencies>,
}

impl RegistryTool {
    /// A copy equal to the original.
    pub fn duplicate(&self) -> (r: Self)
        ensures
            r == *self,
    {
        RegistryTool {
            name: self.name.clone(),
            repo: self.repo.clone(),
            branch: dup_opt_string(&self.branch),
            version: dup_opt_string(&self.version),
            tool_type: dup_opt_string(&self.tool_type),
            description: dup_opt_string(&self.description),
            commands: match &self.commands {
                Option::Some(c) => Option::Some(c.duplicate()),
                Option::None => Option::None,
            },
            dependencies: match &self.dependencies {
                Option::Some(d) => Option::Some(d.duplicate()),
                Option::None => Option::None,
            },
        }
    }
}

/// A parsed registry manifest: tool name to definition, names unique.
#[derive(Debug)]
pub struct Registry {
    pub tools: Vec<(String, RegistryTool)>,
}

/// A manifest that failed to appear on disk reads as an empty registry.
pub fn registry_or_empty(parsed: Option<Registry>) -> (r: Registry)
    ensures
        parsed matches Some(p) ==> r == p,
        parsed is None ==> r.tools@.len() == 0,
{
    match parsed {
        Option::Some(p) => p,
        Option::None => Registry { tools: Vec::new() },
    }
}

/// One configured registry together with what its local clone holds: its
/// manifest entries when it is cloned, nothing otherwise.
#[derive(Debug)]
pub struct LoadedRegistry {
    pub config: RegistryConfig,
    pub cloned: bool,
    pub tools: Vec<(String, RegistryTool)>,
}

/// The definition a manifest holds under `name`, if any: first entry with
/// that key.
pub open spec fn lookup_tool(tools: Seq<(String, RegistryTool)>, name: Seq<char>) -> Option<
    RegistryTool,
>
    decreases tools.len(),
{
    if tools.len() == 0 {
        Option::None
    } else if tools[0].0@ == name {
        Option::Some(tools[0].1)
    } else {
        lookup_tool(tools.drop_first(), name)
    }
}

/// What resolution returns on the given registry order: the definition and
/// the registry name from the first cloned registry whose manifest holds
/// `name`.
pub open spec fn resolve_spec(regs: Seq<LoadedRegistry>, name: Seq<char>) -> Option<
    (RegistryTool, String),
>
    decreases regs.len(),
{
    if regs.len() == 0 {
        Option::None
    } else if regs[0].cloned && lookup_tool(regs[0].tools@, name) is Some {
        Option::Some((lookup_tool(regs[0].tools@, name)->Some_0, regs[0].config.name))
    } else {
        resolve_spec(regs.drop_first(), name)
    }
}

/// A registry that takes part in resolving `name`.
pub open spec fn reg_defines(r: LoadedRegistry, name: Seq<char>) -> bool {
    r.cloned && lookup_tool(r.tools@, name) is Some
}

/// Index of the first registry defining `name`, or `regs.len()`.
pub open spec fn first_match(regs: Seq<LoadedRegistry>, name: Seq<char>) -> int
    decreases regs.len(),
{
    if regs.len() == 0 {
        0
    } else if reg_defines(regs[0], name) {
        0
    } else {
        1 + first_match(regs.drop_first(), name)
    }
}

/// Resolution returns exactly the first match's definition.
pub proof fn lemma_resolve_first_match(regs: Seq<LoadedRegistry>, name: Seq<char>)
    ensures
        0 <= first_match(regs, name) <= regs.len(),
        first_match(regs, name) < regs.len() <==> resolve_spec(regs, name) is Some,
        forall|k: int|
            0 <= k < first_match(regs, name) ==> !reg_defines(#[trigger] regs[k], name),
        first_match(regs, name) < regs.len() ==> {
            let i = first_match(regs, name);
            &&& reg_defines(regs[i], name)
            &&& resolve_spec(regs, name) == Option::Some(
                (lookup_tool(regs[i].tools@, name)->Some_0, regs[i].config.name),
            )
        },
    decreases regs.len(),
{
    if regs.len() == 0 {
    } else if reg_defines(regs[0], name) {
    } else {
        lemma_resolve_first_match(regs.drop_first(), name);
        assert(forall|k: int| 1 <= k < regs.len() ==> regs[k] == regs.drop_first()[k - 1]);
    }
}

/// The registry priority law: however the registries are ordered, as long
/// as it is by priority descending, the resolved definition comes from the
/// highest-priority registry that is cloned and defines the name — one at
/// or before any other defining registry — and never from a lower-priority
/// one.
pub open spec fn sorted_by_priority(regs: Seq<LoadedRegistry>) -> bool {
    forall|i: int, j: int|
        0 <= i < j < regs.len() ==> #[trigger] regs[i].config.priority
            >= #[trigger] regs[j].config.priority
}

/// For every registry order sorted by priority: if some cloned registry
/// defines `name`, resolution succeeds, takes the definition from the first
/// defining registry, and that registry's priority is at least the priority
/// of every other defining registry.
pub proof fn lemma_resolve_highest_priority(regs: Seq<LoadedRegistry>, name: Seq<char>, j: int)
    requires
        sorted_by_priority(regs),
        0 <= j < regs.len(),
        reg_defines(regs[j], name),
    ensures
        resolve_spec(regs, name) is Some,
        ({
            let i = first_match(regs, name);
            &&& 0 <= i <= j
            &&& reg_defines(regs[i], name)
            &&& resolve_spec(regs, name) == Option::Some(
                (lookup_tool(regs[i].tools@, name)->Some_0, regs[i].config.name),
            )
            &&& regs[i].config.priority >= regs[j].config.priority
        }),
{
    lemma_resolve_first_match(regs, name);
    let i = first_match(regs, name);
    if i > j {
        assert(!reg_defines(regs[j], name));
    }
}

/// First index holding `name` in a manifest.
fn lookup_tool_exec(tools: &Vec<(String, RegistryTool)>, name: &str) -> (r: Option<usize>)
    ensures
        match r {
            Option::Some(i) => i < tools@.len() && tools@[i as int].0@ == name@ && lookup_tool(
                tools@,
                name@,
            ) == Option::Some(tools@[i as int].1),
            Option::None => lookup_tool(tools@, name@) is None,
        },
{
    let n: usize = tools.len();
    let mut i: usize = 0;
    proof {
        assert(tools@.skip(0) =~= tools@);
    }
    while i < n
        invariant
            i <= n,
            n == tools@.len(),
            lookup_tool(tools@, name@) == lookup_tool(tools@.skip(i as int), name@),
        decreases n - i,
    {
        if str_eq_str(tools[i].0.as_str(), name) {
            proof {
                assert(tools@.skip(i as int)[0] == tools@[i as int]);
            }
            return Option::Some(i);
        }
        proof {
            assert(tools@.skip(i as int)[0] == tools@[i as int]);
            assert(tools@.skip(i as int).drop_first() =~= tools@.skip(i + 1));
        }
        i = i + 1;
    }
    proof {
        assert(tools@.skip(n as int).len() == 0);
    }
    Option::None
}

/// Search the given registries — already ordered by priority, highest
/// first — and return the first matching definition together with the name
/// of the registry it came from; `ToolNotFound` when none defines the tool.
pub fn find_tool_in_registries(tool_name: &str, registries: &Vec<LoadedRegistry>) -> (r: Result<
    (RegistryTool, String),
    TuxBoxError,
>)
    ensures
        match r {
            Ok(p) => resolve_spec(registries@, tool_name@) == Option::Some((p.0, p.1)),
            Err(e) => resolve_spec(registries@, tool_name@) is None && (e matches
                TuxBoxError::ToolNotFound(n) && n@ == tool_name@),
        },
{
    let n: usize = registries.len();
    let mut i: usize = 0;
    proof {
        assert(registries@.skip(0) =~= registries@);
    }
    while i < n
        invariant
            i <= n,
            n == registries@.len(),
            resolve_spec(registries@, tool_name@) == resolve_spec(
                registries@.skip(i as int),
                tool_name@,
            ),
        decreases n - i,
    {
        proof {
            assert(registries@.skip(i as int)[0] == registries@[i as int]);
            assert(registries@.skip(i as int).drop_first() =~= registries@.skip(i + 1));
        }
        if registries[i].cloned {
            match lookup_tool_exec(&registries[i].tools, tool_name) {
                Option::Some(t) => {
                    let tool = registries[i].tools[t].1.duplicate();
                    let reg_name = registries[i].config.name.clone();
                    return Ok((tool, reg_name));
                },
                Option::None => {
                },
            }
        }
        i = i + 1;
    }
    Err(TuxBoxError::ToolNotFound(tool_name.to_owned()))
}

/// Turn a registry definition into the tool configuration the runner uses:
/// the fields carry over, the isolation strategy stays open for the
/// environment detector.
pub fn registry_tool_to_config(tool: &RegistryTool) -> (r: ToolConfig)
    ensures
        r.name == tool.name,
        r.repo == tool.repo,
        r.branch == tool.branch,
        r.version == tool.version,
        r.tool_type == tool.tool_type,
        r.isolation is None,
        tool.commands is Some <==> r.commands is Some,
        tool.commands matches Some(tc) ==> (r.commands matches Some(c) && c.run == tc.run
            && c.setup == tc.setup),
        r.python_version == (match tool.dependencies {
            Option::Some(d) => d.python,
            Option::None => Option::None::<String>,
        }),
{
    ToolConfig {
        name: tool.name.clone(),
        repo: tool.repo.clone(),
        branch: dup_opt_string(&tool.branch),
        version: dup_opt_string(&tool.version),
        tool_type: dup_opt_string(&tool.tool_type),
        isolation: Option::None,
        commands: match &tool.commands {
            Option::Some(c) => Option::Some(
                Commands { setup: dup_opt_string(&c.setup), run: c.run.clone() },
            ),
            Option::None => Option::None,
        },
        python_version: match &tool.dependencies {
            Option::Some(d) => dup_opt_string(&d.python),
            Option::None => Option::None,
        },
    }
}


/// A listing already shows this tool name.
pub open spec fn agg_contains(acc: Seq<(String, RegistryTool, String)>, name: Seq<char>) -> bool {
    exists|i: int| 0 <= i < acc.len() && #[trigger] acc[i].0@ == name
}

/// Add one registry's entries to a listing: a name already shown keeps
/// its earlier (higher-priority) definition.
pub open spec fn add_tools(
    acc: Seq<(String, RegistryTool, String)>,
    tools: Seq<(String, RegistryTool)>,
    reg: String,
) -> Seq<(String, RegistryTool, String)>
    decreases tools.len(),
{
    if tools.len() == 0 {
        acc
    } else {
        let acc2 = if agg_contains(acc, tools[0].0@) {
            acc
        } else {
            acc.push((tools[0].0, tools[0].1, reg))
        };
        add_tools(acc2, tools.drop_first(), reg)
    }
}

/// The aggregated listing over the registries in the given order —
/// highest priority first, so the first definition of a name wins.
pub open spec fn aggregate_from(
    regs: Seq<LoadedRegistry>,
    acc: Seq<(String, RegistryTool, String)>,
) -> Seq<(String, RegistryTool, String)>
    decreases regs.len(),
{
    if regs.len() == 0 {
        acc
    } else {
        aggregate_from(regs.drop_first(), if regs[0].cloned {
            add_tools(acc, regs[0].tools@, regs[0].config.name)
        } else {
            acc
        })
    }
}

/// Every tool the cloned registries offer, each under the registry that
/// defines it first in priority order.
pub open spec fn spec_aggregate(regs: Seq<LoadedRegistry>) -> Seq<(String, RegistryTool, String)> {
    aggregate_from(regs, Seq::empty())
}

fn agg_contains_exec(acc: &Vec<(String, RegistryTool, String)>, name: &str) -> (r: bool)
    ensures
        r == agg_contains(acc@, name@),
{
    let n: usize = acc.len();
    let mut i: usize = 0;
    while i < n
        invariant
            i <= n,
            n == acc@.len(),
            forall|k: int| 0 <= k < i ==> #[trigger] acc@[k].0@ != name@,
        decreases n - i,
    {
        if str_eq_str(acc[i].0.as_str(), name) {
            return true;
        }
        i = i + 1;
    }
    false
}

/// List every tool the cloned registries offer: walking the registries in
/// the given order, a name already listed is never overridden by a later
/// — lower-priority — registry.
pub fn aggregate_tools(registries: &Vec<LoadedRegistry>) -> (r: Vec<
    (String, RegistryTool, String),
>)
    ensures
        r@ == spec_aggregate(registries@),
{
    let n: usize = registries.len();
    let mut out: Vec<(String, RegistryTool, String)> = Vec::new();
    let mut i: usize = 0;
    proof {
        assert(registries@.skip(0) =~= registries@);
    }
    while i < n
        invariant
            i <= n,
            n == registries@.len(),
            aggregate_from(registries@.skip(i as int), out@) == spec_aggregate(registries@),
        decreases n - i,
    {
        proof {
            assert(registries@.skip(i as int)[0] == registries@[i as int]);
            assert(registries@.skip(i as int).drop_first() =~= registries@.skip(i + 1));
        }
        if registries[i].cloned {
            let ghost base = out@;
            let m: usize = registries[i].tools.len();
            let mut j: usize = 0;
            proof {
                let t = registries@[i as int].tools@;
                assert(t.skip(0) =~= t);
            }
            while j < m
                invariant
                    j <= m,
                    i < n,
                    n == registries@.len(),
                    m == registries@[i as int].tools@.len(),
                    add_tools(
                        out@,
                        registries@[i as int].tools@.skip(j as int),
                        registries@[i as int].config.name,
                    ) == add_tools(
                        base,
                        registries@[i as int].tools@,
                        registries@[i as int].config.name,
                    ),
                decreases m - j,
            {
                proof {
                    let t = registries@[i as int].tools@;
                    assert(t.skip(j as int)[0] == t[j as int]);
                    assert(t.skip(j as int).drop_first() =~= t.skip(j + 1));
                }
                let entry = &registries[i].tools[j];
                if !agg_contains_exec(&out, entry.0.as_str()) {
                    let key: String = entry.0.clone();
                    let tool: RegistryTool = entry.1.duplicate();
                    let reg_name: String = registries[i].config.name.clone();
                    out.push((key, tool, reg_name));
                }
                j = j + 1;
            }
            proof {
                let t = registries@[i as int].tools@;
                assert(t.skip(m as int).len() == 0);
            }
        }
        i = i + 1;
    }
    proof {
        assert(registries@.skip(n as int).len() == 0);
    }
    out
}


/// Whether a registry sync clones or pulls.
#[derive(Debug, Clone, Copy, PartialEq, Eq, Structural)]
pub enum SyncAction {
    /// No local clone yet: clone the registry repository.
    CloneIt,
    /// A clone exists: pull new commits into it.
    PullIt,
}

/// A registry that is already on disk is pulled; one that is not is
/// cloned.
pub fn sync_action(registry_cloned: bool) -> (r: SyncAction)
    ensures
        registry_cloned ==> r == SyncAction::PullIt,
        !registry_cloned ==> r == SyncAction::CloneIt,
{
    if registry_cloned {
        SyncAction::PullIt
    } else {
        SyncAction::CloneIt
    }
}

/// What a registry pull does after fetch and merge analysis.
#[derive(Debug, Clone, Copy, PartialEq, Eq, Structural)]
pub enum RegistryUpdateAction {
    /// The clone already holds the remote commit.
    AlreadyCurrent,
    /// The branch pointer can advance: fast-forward and check out.
    FastForwardCheckout,
    /// History diverged: report that a manual merge is needed — never
    /// merge automatically.
    ManualMergeNeeded,
}

/// Decide the registry pull step from the merge analysis.
pub fn registry_update_decision(up_to_date: bool, fast_forwardable: bool) -> (r:
    RegistryUpdateAction)
    ensures
        up_to_date ==> r == RegistryUpdateAction::AlreadyCurrent,
        !up_to_date && fast_forwardable ==> r == RegistryUpdateAction::FastForwardCheckout,
        !up_to_date && !fast_forwardable ==> r == RegistryUpdateAction::ManualMergeNeeded,
{
    if up_to_date {
        RegistryUpdateAction::AlreadyCurrent
    } else if fast_forwardable {
        RegistryUpdateAction::FastForwardCheckout
    } else {
        RegistryUpdateAction::ManualMergeNeeded
    }
}

} // verus!
