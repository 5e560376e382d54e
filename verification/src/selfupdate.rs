//! Deciding whether a newer release of the orchestrator itself exists.
//!
//! The release feed, the download and the binary swap are outside work;
//! here live the tag normalisation, the version comparison and the choice
//! of the platform asset.

use vstd::prelude::*;
use vstd::string::{StrSliceExecFns, StringExecFns};

use crate::error::TuxBoxError;
use crate::text::{spec_starts_with, str_eq_str, str_starts_with};

verus! {

/// A release tag with its leading `v` stripped.
pub open spec fn spec_parse_version(s: Seq<char>) -> Seq<char> {
    if s.len() > 0 && s[0] == 'v' {
        s.drop_first()
    } else {
        s
    }
}

/// Normalise a release tag: strip the `v` prefix when present.
pub fn parse_version(version: &str) -> (r: Result<String, TuxBoxError>)
    ensures
        r matches Ok(v) && v@ == spec_parse_version(version@),
{
    let n: usize = version.unicode_len();
    if n > 0 && version.get_char(0) == 'v' {
        proof {
            assert(version@.subrange(1, n as int) =~= version@.drop_first());
        }
        Ok(version.substring_char(1, n).to_owned())
    } else {
        Ok(version.to_owned())
    }
}

/// The numeric `major.minor.patch` triple a semantic-version string
/// parses to, when it parses at all.  A function of the string alone.
pub uninterp spec fn semver_triple_of(s: Seq<char>) -> Option<(u64, u64, u64)>;

/// Relies on semver::Version::parse: the parsed version's numeric
/// `major`, `minor` and `patch` components, or nothing when the string is
/// not a semantic version.
#[verifier::external_body]
fn parse_semver(s: &str) -> (r: Option<(u64, u64, u64)>)
    ensures
        r == semver_triple_of(s@),
{
    match semver::Version::parse(s) {
        Ok(v) => Some((v.major, v.minor, v.patch)),
        Err(_) => None,
    }
}

/// Strictly newer by numeric triple (pre-release qualifiers carry no
/// weight here).
pub open spec fn spec_triple_newer(latest: (u64, u64, u64), current: (u64, u64, u64)) -> bool {
    ||| latest.0 > current.0
    ||| (latest.0 == current.0 && latest.1 > current.1)
    ||| (latest.0 == current.0 && latest.1 == current.1 && latest.2 > current.2)
}

/// Whether a release supersedes the running version.
#[derive(Debug, Clone, Copy, PartialEq, Eq, Structural)]
pub enum UpdateCheck {
    /// The running version is current (or ahead).
    UpToDate,
    /// The feed offers a strictly newer release.
    UpdateAvailable,
}

/// Compare the running version against the latest release tag, both with
/// an optional `v` prefix: a strictly newer numeric triple means an
/// update is available; a tag that is no semantic version is an error.
pub fn check_update_decision(current_tag: &str, latest_tag: &str) -> (r: Result<
    UpdateCheck,
    TuxBoxError,
>)
    ensures
        ({
            let cur = semver_triple_of(spec_parse_version(current_tag@));
            let lat = semver_triple_of(spec_parse_version(latest_tag@));
            match (cur, lat) {
                (Option::Some(c), Option::Some(l)) => r == Ok::<_, TuxBoxError>(
                    if spec_triple_newer(l, c) {
                        UpdateCheck::UpdateAvailable
                    } else {
                        UpdateCheck::UpToDate
                    },
                ),
                _ => r matches Err(e) && (e matches TuxBoxError::UpdateError(m) && m@
                    == "Release tag is not a semantic version"@),
            }
        }),
{
    let cur_s = match parse_version(current_tag) {
        Ok(s) => s,
        Err(e) => {
            return Err(e);
        },
    };
    let lat_s = match parse_version(latest_tag) {
        Ok(s) => s,
        Err(e) => {
            return Err(e);
        },
    };
    let cur = parse_semver(cur_s.as_str());
    let lat = parse_semver(lat_s.as_str());
    match (cur, lat) {
        (Option::Some(c), Option::Some(l)) => {
            let newer: bool = l.0 > c.0 || (l.0 == c.0 && l.1 > c.1) || (l.0 == c.0 && l.1 == c.1
                && l.2 > c.2);
            if newer {
                Ok(UpdateCheck::UpdateAvailable)
            } else {
                Ok(UpdateCheck::UpToDate)
            }
        },
        _ => Err(
            TuxBoxError::UpdateError(String::from_str("Release tag is not a semantic version")),
        ),
    }
}

/// The asset name a platform downloads.
pub fn get_platform_asset_name(os: &str, arch: &str) -> (r: Result<String, TuxBoxError>)
    ensures
        os@ == "linux"@ && arch@ == "x86_64"@ ==> (r matches Ok(p) && p@ == "tbox-linux-amd64"@),
        os@ == "macos"@ && arch@ == "x86_64"@ ==> (r matches Ok(p) && p@ == "tbox-macos-amd64"@),
        os@ == "macos"@ && arch@ == "aarch64"@ ==> (r matches Ok(p) && p@
            == "tbox-macos-arm64"@),
        !((os@ == "linux"@ && arch@ == "x86_64"@) || (os@ == "macos"@ && (arch@ == "x86_64"@
            || arch@ == "aarch64"@))) ==> (r matches Err(e) && (e matches
            TuxBoxError::UpdateError(m) && m@ == "Unsupported platform: "@ + os@ + " "@
            + arch@)),
{
    proof {
        reveal_strlit("linux");
        reveal_strlit("macos");
        reveal_strlit("x86_64");
        reveal_strlit("aarch64");
        assert("linux"@[0] == 'l' && "macos"@[0] == 'm');
        assert("linux"@ != "macos"@);
        assert("x86_64"@.len() == 6 && "aarch64"@.len() == 7);
        assert("x86_64"@ != "aarch64"@);
    }
    if str_eq_str(os, "linux") && str_eq_str(arch, "x86_64") {
        Ok(String::from_str("tbox-linux-amd64"))
    } else if str_eq_str(os, "macos") && str_eq_str(arch, "x86_64") {
        Ok(String::from_str("tbox-macos-amd64"))
    } else if str_eq_str(os, "macos") && str_eq_str(arch, "aarch64") {
        Ok(String::from_str("tbox-macos-arm64"))
    } else {
        let mut m = String::from_str("Unsupported platform: ");
        m.append(os);
        m.append(" ");
        m.append(arch);
        proof {
            assert(m@ =~= "Unsupported platform: "@ + os@ + " "@ + arch@);
        }
        Err(TuxBoxError::UpdateError(m))
    }
}

/// The first release asset whose name starts with the platform prefix.
pub fn pick_asset(names: &Vec<String>, platform: &str) -> (r: Option<usize>)
    ensures
        match r {
            Option::Some(i) => i < names@.len() && spec_starts_with(names@[i as int]@, platform@)
                && forall|k: int|
                0 <= k < i ==> !spec_starts_with(#[trigger] names@[k]@, platform@),
            Option::None => forall|k: int|
                0 <= k < names@.len() ==> !spec_starts_with(#[trigger] names@[k]@, platform@),
        },
{
    let n: usize = names.len();
    let mut i: usize = 0;
    while i < n
        invariant
            i <= n,
            n == names@.len(),
            forall|k: int| 0 <= k < i ==> !spec_starts_with(#[trigger] names@[k]@, platform@),
        decreases n - i,
    {
        if str_starts_with(names[i].as_str(), platform) {
            return Option::Some(i);
        }
        i = i + 1;
    }
    Option::None
}

} // verus!
