//! Planning container builds and runs.
//!
//! The image for a tool is named deterministically from the tool name and
//! built either from the tool's own container recipe or from a generated
//! standard one.  A run mounts the user's home directory (SSH
//! configuration read-only), binds the host identity for file-permission
//! correctness, and allocates a terminal only for interactive invocations.
//! The engine commands themselves are outside work; everything here only
//! decides and assembles.

use vstd::prelude::*;
use vstd::string::{StrSliceExecFns, StringExecFns};

verus! {

/// The deterministic image name for a tool.
pub fn image_name(tool_name: &str) -> (r: String)
    ensures
        r@ == "tuxbox-"@ + tool_name@,
{
    let mut s = String::from_str("tuxbox-");
    s.append(tool_name);
    s
}

/// The container name: `{tool}_{version}` when a version is declared.
pub fn container_name(tool_name: &str, version: Option<&String>) -> (r: String)
    ensures
        match version {
            Option::Some(v) => r@ == tool_name@ + "_"@ + v@,
            Option::None => r@ == tool_name@,
        },
{
    match version {
        Option::Some(v) => {
            let mut s = tool_name.to_owned();
            s.append("_");
            s.append(v.as_str());
            proof {
                assert(s@ =~= tool_name@ + "_"@ + v@);
            }
            s
        },
        Option::None => tool_name.to_owned(),
    }
}

/// Where the image is built from.
#[derive(Debug, Clone, Copy, PartialEq, Eq, Structural)]
pub enum BuildSource {
    /// The tool's repository supplies its own container recipe.
    ToolDockerfile,
    /// No recipe: generate the standard interpreter image.
    GeneratedStandard,
}

/// Build from the tool's recipe when it has one, else from the generated
/// standard image.
pub fn choose_build_source(has_dockerfile: bool) -> (r: BuildSource)
    ensures
        has_dockerfile ==> r == BuildSource::ToolDockerfile,
        !has_dockerfile ==> r == BuildSource::GeneratedStandard,
{
    if has_dockerfile {
        BuildSource::ToolDockerfile
    } else {
        BuildSource::GeneratedStandard
    }
}

/// The generated standard image recipe for the given interpreter version:
/// copy the tool in, install its declared dependencies if present, install
/// the tool itself if it is a package.
pub fn standard_dockerfile(python_version: &str) -> (r: String)
    ensures
        r@ == "FROM python:"@ + python_version@
            + "-slim\n\nWORKDIR /app\n\n# Copy tool files\nCOPY . /app\n\n# Install dependencies if requirements.txt exists\nRUN if [ -f requirements.txt ]; then \\\n        pip install --no-cache-dir -r requirements.txt; \\\n    fi\n\n# Install the tool if it's a package\nRUN if [ -f pyproject.toml ]; then \\\n        pip install --no-cache-dir -e .; \\\n    fi\n\n# Set entrypoint\nCMD [\"python3\"]\n"@,
{
    let mut s = String::from_str("FROM python:");
    s.append(python_version);
    s.append(
        "-slim\n\nWORKDIR /app\n\n# Copy tool files\nCOPY . /app\n\n# Install dependencies if requirements.txt exists\nRUN if [ -f requirements.txt ]; then \\\n        pip install --no-cache-dir -r requirements.txt; \\\n    fi\n\n# Install the tool if it's a package\nRUN if [ -f pyproject.toml ]; then \\\n        pip install --no-cache-dir -e .; \\\n    fi\n\n# Set entrypoint\nCMD [\"python3\"]\n",
    );
    s
}

/// The engine arguments that build an image from the tool's own recipe,
/// in the tool directory.
pub fn build_args_dockerfile(image: &str) -> (r: Vec<String>)
    ensures
        r@.map_values(|s: String| s@) =~= seq!["build"@, "-t"@, image@, "."@],
{
    let mut v: Vec<String> = Vec::new();
    v.push(String::from_str("build"));
    v.push(String::from_str("-t"));
    v.push(image.to_owned());
    v.push(String::from_str("."));
    v
}

/// The engine arguments that build the generated standard image from its
/// temporary recipe file.
pub fn build_args_standard(image: &str) -> (r: Vec<String>)
    ensures
        r@.map_values(|s: String| s@) =~= seq![
            "build"@,
            "-f"@,
            "Dockerfile.tuxbox"@,
            "-t"@,
            image@,
            "."@,
        ],
{
    let mut v: Vec<String> = Vec::new();
    v.push(String::from_str("build"));
    v.push(String::from_str("-f"));
    v.push(String::from_str("Dockerfile.tuxbox"));
    v.push(String::from_str("-t"));
    v.push(image.to_owned());
    v.push(String::from_str("."));
    v
}

/// The engine arguments of one containerised run.
pub open spec fn spec_container_args(
    image: Seq<char>,
    cname: Seq<char>,
    interactive: bool,
    home: Seq<char>,
    uid_gid: Option<Seq<char>>,
    tool_name: Seq<char>,
    user_args: Seq<Seq<char>>,
) -> Seq<Seq<char>> {
    seq!["run"@, "--rm"@, "--name"@, cname] + (if interactive {
        seq!["-it"@]
    } else {
        seq!["-i"@]
    }) + (match uid_gid {
        Option::Some(u) => seq!["--user"@, u],
        Option::None => Seq::empty(),
    }) + seq!["-e"@, "HOME="@ + home] + seq![
        "-v"@,
        home + "/.ssh:"@ + home + "/.ssh:ro"@,
        "-v"@,
        home + "/.config:"@ + home + "/.config"@,
        "-v"@,
        home + ":"@ + home,
        "-w"@,
        "/app"@,
        image,
        "python3"@,
        "-m"@,
        tool_name,
    ] + user_args
}

/// Assemble a containerised run: remove the container on exit, allocate a
/// terminal only when interactive, run as the host identity when known,
/// export the host home, mount the home directory (SSH configuration
/// read-only), and run the tool as an interpreter module with the user's
/// arguments appended.
pub fn container_run_args(
    image: &str,
    cname: &str,
    interactive: bool,
    home: &str,
    uid_gid: Option<&String>,
    tool_name: &str,
    user_args: &Vec<String>,
) -> (r: Vec<String>)
    ensures
        r@.map_values(|s: String| s@) =~= spec_container_args(
            image@,
            cname@,
            interactive,
            home@,
            match uid_gid {
                Option::Some(u) => Option::Some(u@),
                Option::None => Option::None,
            },
            tool_name@,
            user_args@.map_values(|s: String| s@),
        ),
{
    let mut v: Vec<String> = Vec::new();
    v.push(String::from_str("run"));
    v.push(String::from_str("--rm"));
    v.push(String::from_str("--name"));
    v.push(cname.to_owned());
    if interactive {
        v.push(String::from_str("-it"));
    } else {
        v.push(String::from_str("-i"));
    }
    match uid_gid {
        Option::Some(u) => {
            v.push(String::from_str("--user"));
            v.push(u.clone());
        },
        Option::None => {
        },
    }
    v.push(String::from_str("-e"));
    let mut home_env = String::from_str("HOME=");
    home_env.append(home);
    v.push(home_env);
    v.push(String::from_str("-v"));
    let mut ssh_mount = home.to_owned();
    ssh_mount.append("/.ssh:");
    ssh_mount.append(home);
    ssh_mount.append("/.ssh:ro");
    proof {
        assert(ssh_mount@ =~= home@ + "/.ssh:"@ + home@ + "/.ssh:ro"@);
    }
    v.push(ssh_mount);
    v.push(String::from_str("-v"));
    let mut config_mount = home.to_owned();
    config_mount.append("/.config:");
    config_mount.append(home);
    config_mount.append("/.config");
    proof {
        assert(config_mount@ =~= home@ + "/.config:"@ + home@ + "/.config"@);
    }
    v.push(config_mount);
    v.push(String::from_str("-v"));
    let mut home_mount = home.to_owned();
    home_mount.append(":");
    home_mount.append(home);
    proof {
        assert(home_mount@ =~= home@ + ":"@ + home@);
    }
    v.push(home_mount);
    v.push(String::from_str("-w"));
    v.push(String::from_str("/app"));
    v.push(image.to_owned());
    v.push(String::from_str("python3"));
    v.push(String::from_str("-m"));
    v.push(tool_name.to_owned());
    let n: usize = user_args.len();
    let ghost base = v@.map_values(|s: String| s@);
    let mut i: usize = 0;
    while i < n
        invariant
            i <= n,
            n == user_args@.len(),
            v@.map_values(|s: String| s@) =~= base + user_args@.map_values(|s: String| s@).take(
                i as int,
            ),
        decreases n - i,
    {
        v.push(user_args[i].clone());
        proof {
            let uv = user_args@.map_values(|s: String| s@);
            assert(v@.map_values(|s: String| s@) =~= v@.drop_last().map_values(|s: String| s@).push(
                user_args@[i as int]@,
            ));
            assert(uv.take(i + 1) =~= uv.take(i as int).push(user_args@[i as int]@));
            assert((base + uv.take(i as int)).push(user_args@[i as int]@) =~= base + uv.take(
                i as int,
            ).push(user_args@[i as int]@));
        }
        i = i + 1;
    }
    proof {
        assert(user_args@.map_values(|s: String| s@).take(n as int) =~= user_args@.map_values(
            |s: String| s@,
        ));
    }
    v
}

} // verus!
