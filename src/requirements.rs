//! What the host needs (nginx, certbot, the stores, the backup root) and what
//! installing the missing parts involves.
use vstd::prelude::*;

use crate::text::{contains, contains_exec, to_chars};

verus! {

/// Which of the host's requirements are present.
#[derive(Debug, Clone, Copy, PartialEq, Eq, Structural)]
pub struct SystemRequirements {
    pub nginx: bool,
    pub certbot: bool,
    pub sites_available_dir: bool,
    pub sites_enabled_dir: bool,
    pub backup_dir: bool,
}

/// 1 for a missing requirement, 0 for a present one.
pub open spec fn absent(present: bool) -> nat {
    if present {
        0
    } else {
        1
    }
}

/// What installing the missing requirements does.
#[derive(Debug)]
pub struct InstallPlan {
    /// Packages to install, in order.
    pub packages: Vec<String>,
    pub create_sites_available: bool,
    pub create_sites_enabled: bool,
    pub create_backup_dir: bool,
    /// Enable and start the service and include the enabled store; only after a fresh
    /// nginx installation.
    pub configure_nginx: bool,
}

/// The packages that provide the missing programs.
pub open spec fn packages_for(r: SystemRequirements) -> Seq<Seq<char>> {
    (if r.nginx {
        seq![]
    } else {
        seq!["nginx"@]
    }) + (if r.certbot {
        seq![]
    } else {
        seq!["certbot"@, "python3-certbot-nginx"@]
    })
}

impl SystemRequirements {
    /// How many of the five requirements are missing.
    pub open spec fn missing(&self) -> nat {
        absent(self.nginx) + absent(self.certbot) + absent(self.sites_available_dir) + absent(
            self.sites_enabled_dir,
        ) + absent(self.backup_dir)
    }

    /// Counts the missing requirements.
    pub fn missing_count(&self) -> (r: usize)
        ensures
            r == self.missing(),
    {
        let mut n: usize = 0;
        if !self.nginx {
            n = n + 1;
        }
        if !self.certbot {
            n = n + 1;
        }
        if !self.sites_available_dir {
            n = n + 1;
        }
        if !self.sites_enabled_dir {
            n = n + 1;
        }
        if !self.backup_dir {
            n = n + 1;
        }
        n
    }

    /// Whether everything the tool needs to run is present; the backup root is created
    /// on demand and is not needed.
    pub fn ready(&self) -> (r: bool)
        ensures
            r == (self.nginx && self.certbot && self.sites_available_dir && self.sites_enabled_dir),
    {
        self.nginx && self.certbot && self.sites_available_dir && self.sites_enabled_dir
    }

    /// Plans the installation of what is missing.
    pub fn install_plan(&self) -> (p: InstallPlan)
        ensures
            p.packages@.map_values(|s: String| s@) == packages_for(*self),
            p.create_sites_available == !self.sites_available_dir,
            p.create_sites_enabled == !self.sites_enabled_dir,
            p.create_backup_dir == !self.backup_dir,
            p.configure_nginx == !self.nginx,
    {
        let mut packages: Vec<String> = Vec::new();
        if !self.nginx {
            packages.push("nginx".to_owned());
        }
        if !self.certbot {
            packages.push("certbot".to_owned());
            packages.push("python3-certbot-nginx".to_owned());
        }
        assert(packages@.map_values(|s: String| s@) =~= packages_for(*self));
        InstallPlan {
            packages,
            create_sites_available: !self.sites_available_dir,
            create_sites_enabled: !self.sites_enabled_dir,
            create_backup_dir: !self.backup_dir,
            configure_nginx: !self.nginx,
        }
    }
}

/// The phrases by which the package manager reports a broken repository.
pub open spec fn apt_error_patterns() -> Seq<Seq<char>> {
    seq![
        "n'a pas de fichier Release"@,
        "does not have a Release file"@,
        "Policy will reject signature"@,
        "NO_PUBKEY"@,
        "The repository"@,
        "is not signed"@,
    ]
}

/// Whether the package manager's output reports a broken repository.
pub fn detect_apt_errors(error_message: &str) -> (r: bool)
    ensures
        r == exists|i: int|
            0 <= i < apt_error_patterns().len() && contains(
                error_message@,
                #[trigger] apt_error_patterns()[i],
            ),
{
    let m = to_chars(error_message);
    let mut patterns: Vec<&str> = Vec::new();
    patterns.push("n'a pas de fichier Release");
    patterns.push("does not have a Release file");
    patterns.push("Policy will reject signature");
    patterns.push("NO_PUBKEY");
    patterns.push("The repository");
    patterns.push("is not signed");
    let ghost pv = apt_error_patterns();
    assert(patterns@.map_values(|p: &str| p@) =~= pv);
    let mut i: usize = 0;
    while i < patterns.len()
        invariant
            i <= patterns.len(),
            m@ == error_message@,
            patterns@.len() == pv.len(),
            pv == apt_error_patterns(),
            forall|j: int| 0 <= j < pv.len() ==> (#[trigger] patterns@[j])@ == pv[j],
            forall|j: int| 0 <= j < i ==> !contains(error_message@, #[trigger] pv[j]),
        decreases patterns.len() - i,
    {
        if contains_exec(&m, &to_chars(patterns[i])) {
            assert(contains(error_message@, pv[i as int]));
            return true;
        }
        i = i + 1;
    }
    false
}

/// Hosts whose package sources are known to break updates on the supported systems.
pub open spec fn problem_hosts() -> Seq<Seq<char>> {
    seq!["ftp.postgresql.org"@, "download.docker.com/linux/ubuntu"@, "apt.llvm.org"@]
}

/// Whether a package source list points at one of the known problem hosts.
pub fn is_problem_source(content: &str) -> (r: bool)
    ensures
        r == (contains(content@, problem_hosts()[0]) || contains(content@, problem_hosts()[1])
            || contains(content@, problem_hosts()[2])),
{
    let c = to_chars(content);
    contains_exec(&c, &to_chars("ftp.postgresql.org")) || contains_exec(
        &c,
        &to_chars("download.docker.com/linux/ubuntu"),
    ) || contains_exec(&c, &to_chars("apt.llvm.org"))
}

/// Whether the main package source list lacks the distribution's rolling repository.
pub fn lacks_rolling_sources(sources: &str) -> (r: bool)
    ensures
        r == !contains(sources@, "kali-rolling"@),
{
    !contains_exec(&to_chars(sources), &to_chars("kali-rolling"))
}

} // verus!
