//! The per-project export configuration: its sections, the merge of a
//! section with a named profile, and semantic validation.

use crate::named::NamedMap;
use crate::text::{decimal, decimal_text, join2, join3};
use vstd::prelude::*;

verus! {

/// The only configuration schema version that is understood.
pub const SUPPORTED_VERSION: u32 = 1;

/// The port used where a transfer profile names none.
pub const DEFAULT_TRANSFER_PORT: u16 = 22;

/// What the version-control target does with the document.
#[derive(Clone, Copy, Debug, PartialEq, Eq, Structural)]
pub enum GitMode {
    AddOnly,
    AddAndCommit,
}

/// A check made on the repository before the document is staged.
#[derive(Clone, Copy, Debug, PartialEq, Eq, Structural)]
pub enum GitCheck {
    Repo,
    Status,
    Clean,
}

/// The checks of a section that lists none.
pub fn default_git_checks() -> (checks: Vec<GitCheck>)
    ensures
        checks@ == seq![GitCheck::Repo],
{
    let mut checks: Vec<GitCheck> = Vec::new();
    checks.push(GitCheck::Repo);
    assert(checks@ =~= seq![GitCheck::Repo]);
    checks
}

/// A named override bundle of the version-control section.
#[derive(Clone, Debug)]
pub struct GitProfile {
    pub enabled: bool,
    pub repo_path: Option<String>,
    pub mode: Option<GitMode>,
    pub checks: Option<Vec<GitCheck>>,
}

/// The profiles of the version-control section, by name.
#[derive(Debug)]
pub struct GitProfiles {
    pub named: NamedMap<GitProfile>,
}

impl Default for GitProfiles {
    fn default() -> (p: Self)
        ensures
            p.named.keys().len() == 0,
    {
        GitProfiles { named: NamedMap::new() }
    }
}

/// The version-control section.
#[derive(Debug)]
pub struct GitConfig {
    pub enabled: bool,
    pub mode: Option<GitMode>,
    pub checks: Vec<GitCheck>,
    pub profiles: GitProfiles,
}

/// The version-control section merged with at most one profile.
#[derive(Debug)]
pub struct ResolvedGitConfig {
    pub repo_path: String,
    pub mode: GitMode,
    pub checks: Vec<GitCheck>,
}

/// A copy of `checks`.
pub fn copy_checks(checks: &Vec<GitCheck>) -> (r: Vec<GitCheck>)
    ensures
        r@ == checks@,
{
    let mut r: Vec<GitCheck> = Vec::new();
    let mut i: usize = 0;
    while i < checks.len()
        invariant
            i <= checks.len(),
            r@ =~= checks@.subrange(0, i as int),
        decreases checks.len() - i,
    {
        r.push(checks[i]);
        i += 1;
    }
    assert(checks@.subrange(0, checks.len() as int) =~= checks@);
    r
}

impl GitConfig {
    /// The mode that a merge with `profile` gives: the profile's, else the
    /// section's, else add-only.
    pub open spec fn merged_mode(&self, profile: Option<&GitProfile>) -> GitMode {
        if profile is Some && profile.unwrap().mode is Some {
            profile.unwrap().mode.unwrap()
        } else if self.mode is Some {
            self.mode.unwrap()
        } else {
            GitMode::AddOnly
        }
    }

    /// The checks that a merge with `profile` gives: the profile's, else the
    /// section's.
    pub open spec fn merged_checks(&self, profile: Option<&GitProfile>) -> Seq<GitCheck> {
        if profile is Some && profile.unwrap().checks is Some {
            profile.unwrap().checks.unwrap()@
        } else {
            self.checks@
        }
    }

    /// The repository path that a merge with `profile` gives: the profile's,
    /// else the current directory.
    pub open spec fn merged_repo_path(&self, profile: Option<&GitProfile>) -> Seq<char> {
        if profile is Some && profile.unwrap().repo_path is Some {
            profile.unwrap().repo_path.unwrap()@
        } else {
            "."@
        }
    }

    /// Merges the section with `profile`: each field is the profile's where
    /// the profile sets it, else the section's, else the builtin default.
    pub fn resolve(&self, profile: Option<&GitProfile>) -> (r: ResolvedGitConfig)
        ensures
            r.mode == self.merged_mode(profile),
            r.checks@ == self.merged_checks(profile),
            r.repo_path@ == self.merged_repo_path(profile),
    {
        let mut mode = match self.mode {
            Some(m) => m,
            None => GitMode::AddOnly,
        };
        let mut checks: Option<Vec<GitCheck>> = None;
        let mut repo_path: Option<String> = None;
        if let Some(p) = profile {
            if let Some(m) = p.mode {
                mode = m;
            }
            if let Some(c) = &p.checks {
                checks = Some(copy_checks(c));
            }
            if let Some(path) = &p.repo_path {
                repo_path = Some(path.clone());
            }
        }
        let checks = match checks {
            Some(c) => c,
            None => copy_checks(&self.checks),
        };
        let repo_path = match repo_path {
            Some(path) => path,
            None => String::from_str("."),
        };
        ResolvedGitConfig { repo_path, mode, checks }
    }
}

/// The protocol of the file-transfer target.
#[derive(Clone, Copy, Debug, PartialEq, Eq, Structural)]
pub enum FtpProtocol {
    Ftp,
    Sftp,
}

/// A named endpoint of the file-transfer section.
#[derive(Clone, Debug)]
pub struct FtpProfile {
    pub enabled: bool,
    pub host: Option<String>,
    pub port: Option<u16>,
    pub username: Option<String>,
    pub remote_path: Option<String>,
}

/// The profiles of the file-transfer section, by name.
#[derive(Debug)]
pub struct FtpProfiles {
    pub named: NamedMap<FtpProfile>,
}

impl Default for FtpProfiles {
    fn default() -> (p: Self)
        ensures
            p.named.keys().len() == 0,
    {
        FtpProfiles { named: NamedMap::new() }
    }
}

/// The file-transfer section.
#[derive(Debug)]
pub struct FtpConfig {
    pub enabled: bool,
    pub protocol: Option<FtpProtocol>,
    pub profiles: FtpProfiles,
}

/// The file-transfer section merged with one profile.
#[derive(Debug)]
pub struct ResolvedFtpConfig {
    pub protocol: FtpProtocol,
    pub host: String,
    pub port: u16,
    pub username: String,
    pub remote_path: String,
}

impl FtpConfig {
    /// The protocol of the section: the one it names, else the secure one.
    pub open spec fn merged_protocol(&self) -> FtpProtocol {
        if self.protocol is Some {
            self.protocol.unwrap()
        } else {
            FtpProtocol::Sftp
        }
    }

    /// Merges the section with `profile`. A profile without a host is
    /// refused, then one without a remote path; the port defaults to 22 and
    /// the user name to the empty string.
    pub fn resolve(&self, profile: &FtpProfile) -> (r: Result<ResolvedFtpConfig, &'static str>)
        ensures
            r is Ok <==> profile.host is Some && profile.remote_path is Some,
            profile.host is None ==> r is Err && r->Err_0@ == "Missing FTP host"@,
            profile.host is Some && profile.remote_path is None ==> r is Err && r->Err_0@
                == "Missing remote path"@,
            r is Ok ==> {
                let c = r->Ok_0;
                &&& c.protocol == self.merged_protocol()
                &&& c.host@ == profile.host.unwrap()@
                &&& c.port == if profile.port is Some {
                    profile.port.unwrap()
                } else {
                    DEFAULT_TRANSFER_PORT
                }
                &&& c.username@ == if profile.username is Some {
                    profile.username.unwrap()@
                } else {
                    Seq::<char>::empty()
                }
                &&& c.remote_path@ == profile.remote_path.unwrap()@
            },
    {
        let protocol = match self.protocol {
            Some(p) => p,
            None => FtpProtocol::Sftp,
        };
        let host = match &profile.host {
            Some(h) => h.clone(),
            None => {
                return Err("Missing FTP host");
            },
        };
        let port = match profile.port {
            Some(p) => p,
            None => DEFAULT_TRANSFER_PORT,
        };
        let username = match &profile.username {
            Some(u) => u.clone(),
            None => String::new(),
        };
        let remote_path = match &profile.remote_path {
            Some(p) => p.clone(),
            None => {
                return Err("Missing remote path");
            },
        };
        Ok(ResolvedFtpConfig { protocol, host, port, username, remote_path })
    }
}

/// The first webhook section.
#[derive(Debug)]
pub struct NetlifyConfig {
    pub enabled: bool,
    pub site_id: Option<String>,
    pub trigger_deploy: bool,
}

/// The environment that the second webhook deploys to.
#[derive(Clone, Copy, Debug, PartialEq, Eq, Structural)]
pub enum VercelEnvironment {
    Production,
    Preview,
}

impl Default for VercelEnvironment {
    fn default() -> (e: Self)
        ensures
            e == VercelEnvironment::Production,
    {
        VercelEnvironment::Production
    }
}

/// The second webhook section.
#[derive(Debug)]
pub struct VercelConfig {
    pub enabled: bool,
    pub project_name: Option<String>,
    pub deploy_hook_url: Option<String>,
    pub environment: VercelEnvironment,
}

/// Why a configuration is refused.
#[derive(Debug)]
pub enum ConfigError {
    UnsupportedVersion(u32),
    InvalidNetlifyConfig,
    InvalidVercelConfig,
    InvalidFtpProfile(String),
}

impl ConfigError {
    /// The text of the error.
    pub open spec fn message_text(&self) -> Seq<char> {
        match self {
            ConfigError::UnsupportedVersion(v) => "unsupported config version: "@ + decimal(
                *v as nat,
            ),
            ConfigError::InvalidNetlifyConfig => "netlify enabled but site_id is missing"@,
            ConfigError::InvalidVercelConfig => "vercel enabled but project_name is missing"@,
            ConfigError::InvalidFtpProfile(name) => "ftp profile '"@ + name@
                + "' is enabled but host is missing"@,
        }
    }

    /// Renders the error for a reader.
    pub fn message(&self) -> (r: String)
        ensures
            r@ == self.message_text(),
    {
        match self {
            ConfigError::UnsupportedVersion(v) => {
                let digits = decimal_text(*v as u64);
                join2("unsupported config version: ", digits.as_str())
            },
            ConfigError::InvalidNetlifyConfig => String::from_str(
                "netlify enabled but site_id is missing",
            ),
            ConfigError::InvalidVercelConfig => String::from_str(
                "vercel enabled but project_name is missing",
            ),
            ConfigError::InvalidFtpProfile(name) => join3(
                "ftp profile '",
                name.as_str(),
                "' is enabled but host is missing",
            ),
        }
    }
}

/// The whole configuration of a project.
#[derive(Debug)]
pub struct ExportConfig {
    pub version: u32,
    pub git: Option<GitConfig>,
    pub ftp: Option<FtpConfig>,
    pub netlify: Option<NetlifyConfig>,
    pub vercel: Option<VercelConfig>,
}

/// Whether a file-transfer profile is enabled without a host.
pub open spec fn lacks_host(p: FtpProfile) -> bool {
    p.enabled && p.host is None
}

impl ExportConfig {
    /// The first webhook section, where enabled, names its site.
    pub open spec fn netlify_valid(&self) -> bool {
        self.netlify is Some ==> !(self.netlify.unwrap().enabled
            && self.netlify.unwrap().site_id is None)
    }

    /// The second webhook section, where enabled, names its project and its
    /// deploy hook.
    pub open spec fn vercel_valid(&self) -> bool {
        self.vercel is Some ==> !(self.vercel.unwrap().enabled && (
        self.vercel.unwrap().project_name is None || self.vercel.unwrap().deploy_hook_url is None))
    }

    /// The file-transfer profiles, in order; none where the section is absent.
    pub open spec fn ftp_profiles(&self) -> Seq<FtpProfile> {
        if self.ftp is Some {
            self.ftp.unwrap().profiles.named.items()
        } else {
            Seq::empty()
        }
    }

    /// Every enabled file-transfer profile names its host.
    pub open spec fn ftp_valid(&self) -> bool {
        forall|i: int| 0 <= i < self.ftp_profiles().len() ==> !lacks_host(self.ftp_profiles()[i])
    }

    /// Whether the file-transfer profile at index `i` is the first that is
    /// enabled without a host.
    pub open spec fn first_without_host(&self, i: int) -> bool {
        &&& 0 <= i < self.ftp_profiles().len()
        &&& lacks_host(self.ftp_profiles()[i])
        &&& forall|j: int| 0 <= j < i ==> !lacks_host(self.ftp_profiles()[j])
    }

    /// Whether the configuration passes every rule.
    pub open spec fn valid(&self) -> bool {
        &&& self.version == SUPPORTED_VERSION
        &&& self.netlify_valid()
        &&& self.vercel_valid()
        &&& self.ftp_valid()
    }

    /// Why a configuration that breaks a rule is refused: the text of the
    /// first rule that it breaks.
    pub open spec fn refusal_text(&self) -> Seq<char> {
        if self.version != SUPPORTED_VERSION {
            "unsupported config version: "@ + decimal(self.version as nat)
        } else if !self.netlify_valid() {
            "netlify enabled but site_id is missing"@
        } else if !self.vercel_valid() {
            "vercel enabled but project_name is missing"@
        } else {
            "ftp profile '"@ + self.ftp.unwrap().profiles.named.keys()[choose|i: int|
                self.first_without_host(i)] + "' is enabled but host is missing"@
        }
    }

    /// An error that is reported for this configuration has the text of
    /// the first rule that the configuration breaks.
    pub proof fn lemma_refusal_text(&self, error: ConfigError)
        requires
            !self.valid(),
            match error {
                ConfigError::UnsupportedVersion(v) => v == self.version && self.version
                    != SUPPORTED_VERSION,
                ConfigError::InvalidNetlifyConfig => self.version == SUPPORTED_VERSION
                    && !self.netlify_valid(),
                ConfigError::InvalidVercelConfig => self.version == SUPPORTED_VERSION
                    && self.netlify_valid() && !self.vercel_valid(),
                ConfigError::InvalidFtpProfile(name) => self.version == SUPPORTED_VERSION
                    && self.netlify_valid() && self.vercel_valid() && self.ftp is Some
                    && exists|i: int| #[trigger]
                    self.first_without_host(i) && name@
                        == self.ftp.unwrap().profiles.named.keys()[i],
            },
        ensures
            error.message_text() == self.refusal_text(),
    {
        match error {
            ConfigError::InvalidFtpProfile(name) => {
                let i = choose|i: int| #[trigger]
                    self.first_without_host(i) && name@
                        == self.ftp.unwrap().profiles.named.keys()[i];
                let k = choose|k: int| self.first_without_host(k);
                assert(self.first_without_host(k));
                if i < k {
                    assert(!lacks_host(self.ftp_profiles()[i]));
                }
                if k < i {
                    assert(!lacks_host(self.ftp_profiles()[k]));
                }
                assert(i == k);
                assert(!self.ftp_valid()) by {
                    assert(lacks_host(self.ftp_profiles()[i]));
                }
            },
            _ => {},
        }
    }

    /// Checks the rules in order, and reports the first that is broken: the
    /// version, the first webhook, the second webhook, then the
    /// file-transfer profiles in their order.
    pub fn validate(&self) -> (r: Result<(), ConfigError>)
        ensures
            r is Ok <==> self.valid(),
            match r {
                Ok(_) => true,
                Err(ConfigError::UnsupportedVersion(v)) => v == self.version && self.version
                    != SUPPORTED_VERSION,
                Err(ConfigError::InvalidNetlifyConfig) => self.version == SUPPORTED_VERSION
                    && !self.netlify_valid(),
                Err(ConfigError::InvalidVercelConfig) => self.version == SUPPORTED_VERSION
                    && self.netlify_valid() && !self.vercel_valid(),
                Err(ConfigError::InvalidFtpProfile(name)) => self.version == SUPPORTED_VERSION
                    && self.netlify_valid() && self.vercel_valid() && self.ftp is Some
                    && exists|i: int| #[trigger]
                    self.first_without_host(i) && name@
                        == self.ftp.unwrap().profiles.named.keys()[i],
            },
    {
        if self.version != SUPPORTED_VERSION {
            return Err(ConfigError::UnsupportedVersion(self.version));
        }
        if let Some(netlify) = &self.netlify {
            if netlify.enabled && netlify.site_id.is_none() {
                return Err(ConfigError::InvalidNetlifyConfig);
            }
        }
        if let Some(vercel) = &self.vercel {
            if vercel.enabled && vercel.project_name.is_none() {
                return Err(ConfigError::InvalidVercelConfig);
            }
            if vercel.enabled && vercel.deploy_hook_url.is_none() {
                return Err(ConfigError::InvalidVercelConfig);
            }
        }
        if let Some(ftp) = &self.ftp {
            let n: usize = ftp.profiles.named.len();
            let mut i: usize = 0;
            while i < n
                invariant
                    i <= n,
                    self.version == SUPPORTED_VERSION,
                    self.netlify_valid(),
                    self.vercel_valid(),
                    self.ftp == Some(*ftp),
                    n == ftp.profiles.named.items().len(),
                    n == ftp.profiles.named.keys().len(),
                    forall|j: int| 0 <= j < i ==> !lacks_host(self.ftp_profiles()[j]),
                decreases n - i,
            {
                let profile = ftp.profiles.named.value_at(i);
                if profile.enabled && profile.host.is_none() {
                    let name = ftp.profiles.named.name_at(i).clone();
                    assert(self.first_without_host(i as int));
                    return Err(ConfigError::InvalidFtpProfile(name));
                }
                i += 1;
            }
        }
        Ok(())
    }
}

} // verus!
