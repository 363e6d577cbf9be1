//! The arguments of one install run and the decisions made from them before
//! any stage touches the network or the disk.
use vstd::prelude::*;
use crate::asset::{Asset, TargetArch, TargetOS};
use crate::error::Error;
use crate::version::{is_latest_tag, latest_of, parse_version, semver_parse, tag_texts, Version};

verus! {

/// What the user asked for.
#[derive(Debug)]
pub struct InstallArgs {
    /// `latest`, or a semantic version such as `0.14.1` or `0.14.1-rc.1`.
    pub version: String,
    /// Install root; by default `.wasmedge` under the home directory.
    pub path: Option<String>,
    /// Parent of the staging directory; by default the system's temporary directory.
    pub tmpdir: Option<String>,
    /// Target OS; by default the host's.
    pub os: Option<TargetOS>,
    /// Target architecture; by default the host's.
    pub arch: Option<TargetArch>,
}

/// The settings of one run, with every default filled in.
#[derive(Debug)]
pub struct InstallConfig {
    pub target_dir: String,
    pub tmp_base: String,
    pub os: TargetOS,
    pub arch: TargetArch,
}

/// The token that asks for the newest release.
pub open spec fn latest_token() -> Seq<char> {
    "latest"@
}

/// `base`, a slash, then `name`.
pub open spec fn joined(base: Seq<char>, name: Seq<char>) -> Seq<char> {
    base.push('/') + name
}

/// Appends a path component.
pub fn join_path(base: &str, name: &str) -> (r: String)
    ensures
        r@ == joined(base@, name@),
{
    let mut r = base.to_owned();
    crate::text::push_char(&mut r, '/');
    r.append(name);
    r
}

fn copy_text(s: &Option<String>, default: &str) -> (r: String)
    ensures
        r@ == match s {
            Some(t) => t@,
            None => default@,
        },
{
    match s {
        Some(t) => t.clone(),
        None => default.to_owned(),
    }
}

impl InstallArgs {
    /// Whether the run must ask the release source for its tags.
    pub fn wants_latest(&self) -> (r: bool)
        ensures
            r == (self.version@ == latest_token()),
    {
        let latest = "latest".to_owned();
        self.version == latest
    }

    /// The version to install. A semantic version is parsed as it stands and
    /// `tags` plays no part; `latest` takes the latest version that `tags`,
    /// the release source's listing, holds.
    pub fn resolve_version(&self, tags: &Vec<String>) -> (r: Result<Version, Error>)
        ensures
            self.version@ != latest_token() ==> match r {
                Ok(v) => semver_parse(self.version@) == Some(v.parts()),
                Err(e) => semver_parse(self.version@) is None && (e matches Error::SemVer { input }
                    && input@ == self.version@),
            },
            self.version@ == latest_token() ==> match r {
                Ok(v) => exists|i: int|
                    is_latest_tag(tag_texts(tags@), i) && semver_parse(#[trigger] tags@[i]@)
                        == Some(v.parts()),
                Err(e) => (e matches Error::NoRelease) && forall|i: int|
                    !#[trigger] is_latest_tag(tag_texts(tags@), i),
            },
    {
        if self.wants_latest() {
            latest_of(tags)
        } else {
            parse_version(self.version.as_str())
        }
    }

    /// Fills in the defaults: the install root `.wasmedge` under `home`, the
    /// staging parent `system_tmp`, the host's OS and architecture.
    pub fn config(&self, home: &str, system_tmp: &str, host_os: TargetOS, host_arch: TargetArch) -> (r: InstallConfig)
        ensures
            r.target_dir@ == match self.path {
                Some(p) => p@,
                None => joined(home@, ".wasmedge"@),
            },
            r.tmp_base@ == match self.tmpdir {
                Some(t) => t@,
                None => system_tmp@,
            },
            r.os == match self.os {
                Some(o) => o,
                None => host_os,
            },
            r.arch == match self.arch {
                Some(a) => a,
                None => host_arch,
            },
    {
        let default_path = join_path(home, ".wasmedge");
        InstallConfig {
            target_dir: copy_text(&self.path, default_path.as_str()),
            tmp_base: copy_text(&self.tmpdir, system_tmp),
            os: match self.os {
                Some(o) => o,
                None => host_os,
            },
            arch: match self.arch {
                Some(a) => a,
                None => host_arch,
            },
        }
    }
}

impl InstallConfig {
    /// The staging directory of the run, named after the asset.
    pub fn staging_dir(&self, asset: &Asset) -> (r: String)
        ensures
            r@ == joined(self.tmp_base@, asset.install_name@),
    {
        join_path(self.tmp_base.as_str(), asset.install_name.as_str())
    }

    /// The directory of the installed executables, registered on PATH.
    pub fn bin_dir(&self) -> (r: String)
        ensures
            r@ == joined(self.target_dir@, "bin"@),
    {
        join_path(self.target_dir.as_str(), "bin")
    }
}

} // verus!
