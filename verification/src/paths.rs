//! Where the orchestrator keeps its state on disk: everything lives under
//! `.tuxbox` in the user's home directory.

use vstd::prelude::*;
use vstd::string::StringExecFns;

use crate::error::TuxBoxError;

verus! {

/// Relies on dirs::home_dir: the user's home directory, when the platform
/// reports one that is valid text.  The result depends on the environment.
#[verifier::external_body]
fn home_dir_string() -> (r: Option<String>) {
    dirs::home_dir().and_then(|p| p.into_os_string().into_string().ok())
}

/// Relies on std::path::Path::is_dir: whether the path names an existing
/// directory.  The result depends on the filesystem.
#[verifier::external_body]
fn path_is_dir(p: &str) -> (r: bool) {
    std::path::Path::new(p).is_dir()
}

/// The orchestrator's home directory, `{home}/.tuxbox`; an error exactly
/// in shape when the platform reports no home.
pub fn tuxbox_home() -> (r: Result<String, TuxBoxError>)
    ensures
        r matches Ok(p) ==> exists|h: Seq<char>| p@ == h + "/.tuxbox"@,
        r matches Err(e) ==> (e matches TuxBoxError::ConfigError(m) && m@
            == "Home directory not found"@),
{
    match home_dir_string() {
        Option::Some(h) => {
            let ghost hv = h@;
            let mut p = h;
            p.append("/.tuxbox");
            proof {
                assert(p@ == hv + "/.tuxbox"@);
            }
            Ok(p)
        },
        Option::None => Err(TuxBoxError::ConfigError(String::from_str("Home directory not found"))),
    }
}

/// Where tool clones live: `{home}/.tuxbox/tools`.
pub fn tools_dir() -> (r: Result<String, TuxBoxError>)
    ensures
        r matches Ok(p) ==> exists|h: Seq<char>| p@ == (h + "/.tuxbox"@) + "/tools"@,
        r matches Err(e) ==> (e matches TuxBoxError::ConfigError(m) && m@
            == "Home directory not found"@),
{
    match tuxbox_home() {
        Ok(base) => {
            let ghost bv = base@;
            let mut p = base;
            p.append("/tools");
            proof {
                let h = choose|h: Seq<char>| bv == h + "/.tuxbox"@;
                assert(p@ == (h + "/.tuxbox"@) + "/tools"@);
            }
            Ok(p)
        },
        Err(e) => Err(e),
    }
}

/// Where registry clones live: `{home}/.tuxbox/registry`.
pub fn registry_dir() -> (r: Result<String, TuxBoxError>)
    ensures
        r matches Ok(p) ==> exists|h: Seq<char>| p@ == (h + "/.tuxbox"@) + "/registry"@,
        r matches Err(e) ==> (e matches TuxBoxError::ConfigError(m) && m@
            == "Home directory not found"@),
{
    match tuxbox_home() {
        Ok(base) => {
            let ghost bv = base@;
            let mut p = base;
            p.append("/registry");
            proof {
                let h = choose|h: Seq<char>| bv == h + "/.tuxbox"@;
                assert(p@ == (h + "/.tuxbox"@) + "/registry"@);
            }
            Ok(p)
        },
        Err(e) => Err(e),
    }
}

/// Where the configuration file lives: `{home}/.tuxbox/config.toml`.
pub fn config_file() -> (r: Result<String, TuxBoxError>)
    ensures
        r matches Ok(p) ==> exists|h: Seq<char>| p@ == (h + "/.tuxbox"@) + "/config.toml"@,
        r matches Err(e) ==> (e matches TuxBoxError::ConfigError(m) && m@
            == "Home directory not found"@),
{
    match tuxbox_home() {
        Ok(base) => {
            let ghost bv = base@;
            let mut p = base;
            p.append("/config.toml");
            proof {
                let h = choose|h: Seq<char>| bv == h + "/.tuxbox"@;
                assert(p@ == (h + "/.tuxbox"@) + "/config.toml"@);
            }
            Ok(p)
        },
        Err(e) => Err(e),
    }
}

/// A tool's clone directory: `{tools}/{name}`.
pub fn tool_path(tool_name: &str) -> (r: Result<String, TuxBoxError>)
    ensures
        r matches Ok(p) ==> exists|h: Seq<char>|
            p@ == (((h + "/.tuxbox"@) + "/tools"@) + "/"@) + tool_name@,
        r matches Err(e) ==> (e matches TuxBoxError::ConfigError(m) && m@
            == "Home directory not found"@),
{
    match tools_dir() {
        Ok(base) => {
            let ghost bv = base@;
            let mut p = base;
            p.append("/");
            p.append(tool_name);
            proof {
                let h = choose|h: Seq<char>| bv == (h + "/.tuxbox"@) + "/tools"@;
                assert(p@ == (((h + "/.tuxbox"@) + "/tools"@) + "/"@) + tool_name@);
            }
            Ok(p)
        },
        Err(e) => Err(e),
    }
}

/// Whether the tool's clone directory exists on disk.  The answer is the
/// filesystem's; only the failure to locate the home directory is pinned.
pub fn is_tool_cloned(tool_name: &str) -> (r: Result<bool, TuxBoxError>)
    ensures
        r matches Err(e) ==> (e matches TuxBoxError::ConfigError(m) && m@
            == "Home directory not found"@),
{
    match tool_path(tool_name) {
        Ok(p) => Ok(path_is_dir(p.as_str())),
        Err(e) => Err(e),
    }
}

/// Where a tool's install record lives: `{tool_dir}/.tuxbox-state.toml`.
pub fn state_file_path(tool_dir: &str) -> (r: String)
    ensures
        r@ == tool_dir@ + "/.tuxbox-state.toml"@,
{
    let mut p = tool_dir.to_owned();
    p.append("/.tuxbox-state.toml");
    p
}

} // verus!
