//! Typed preference updates and Linux system detection: the preference
//! record the front-end submits, and the classification of a distribution
//! identifier (plus its family list) into the package manager it uses.

use vstd::prelude::*;

use vstd::string::StringExecFns;

verus! {

/// The preference update submitted by the front-end, already parsed into
/// plain fields; the shell forwards them to the engine's preference store.
#[derive(Debug, Clone, PartialEq, Eq)]
pub struct UpdateLeafPreferences {
    pub enable_ipv6: bool,
    pub prefer_ipv6: bool,
    pub memory_logger: bool,
    pub log_level: i32,
    pub api_port: u16,
    pub auto_reload: bool,
    pub user_agent: String,
    pub bypass_lan: bool,
    pub bypass_lan_in_core: bool,
    pub fake_ip: bool,
    pub force_resolve_domain: bool,
    pub internal_dns_server: bool,
    pub bypass_geoip_list: Option<Vec<String>>,
    pub bypass_geosite_list: Option<Vec<String>>,
    pub reject_geoip_list: Option<Vec<String>>,
    pub reject_geosite_list: Option<Vec<String>>,
}

/// What the shell reports about a Linux system: the package manager family
/// and the CPU architecture.
#[derive(Debug, Clone, PartialEq, Eq)]
pub struct LinuxSystemInfo {
    pub package_manager_type: String,
    pub arch: String,
}

/// Failure of the system detection.
#[derive(Debug, Clone, Copy, PartialEq, Eq, Structural)]
pub enum SystemInfoError {
    /// Neither the distribution identifier nor its family list matched a
    /// known package manager.
    UnknownPackageManager,
}

impl SystemInfoError {
    /// A human-readable description of the failure.
    pub fn message(&self) -> (r: &'static str)
        ensures
            r@ == "Could not determine Linux package manager type"@,
    {
        "Could not determine Linux package manager type"
    }
}

/// The family list names `name` (a distribution the system declares itself
/// like).
pub open spec fn family_has(family: Seq<String>, name: Seq<char>) -> bool {
    exists|i: int| 0 <= i < family.len() && (#[trigger] family[i])@ == name
}

/// Debian-family system: Ubuntu or Debian itself, or declared Debian-like.
pub open spec fn is_apt_system(distro: Seq<char>, family: Seq<String>) -> bool {
    ||| distro == "ubuntu"@
    ||| distro == "debian"@
    ||| family_has(family, "debian"@)
}

/// Red-Hat-family system: Fedora, CentOS or RHEL, or declared alike.
pub open spec fn is_rpm_system(distro: Seq<char>, family: Seq<String>) -> bool {
    ||| distro == "fedora"@
    ||| distro == "centos"@
    ||| distro == "rhel"@
    ||| family_has(family, "rhel"@)
    ||| family_has(family, "fedora"@)
}

/// Arch-family system: Arch itself or declared Arch-like.
pub open spec fn is_pacman_system(distro: Seq<char>, family: Seq<String>) -> bool {
    ||| distro == "arch"@
    ||| family_has(family, "arch"@)
}

/// The package manager a distribution classifies to, checked in a fixed
/// order: apt, then rpm, then pacman.
pub open spec fn package_manager_spec(distro: Seq<char>, family: Seq<String>) -> Option<Seq<char>> {
    if is_apt_system(distro, family) {
        Some("apt"@)
    } else if is_rpm_system(distro, family) {
        Some("rpm"@)
    } else if is_pacman_system(distro, family) {
        Some("pacman"@)
    } else {
        None
    }
}

/// Whether `a` holds exactly the text `b`.
fn str_eq(a: &String, b: &str) -> (r: bool)
    ensures
        r == (a@ == b@),
{
    let bs = String::from_str(b);
    *a == bs
}

/// Whether the family list names `name`.
fn family_contains(family: &Vec<String>, name: &str) -> (r: bool)
    ensures
        r == family_has(family@, name@),
{
    let mut i: usize = 0;
    while i < family.len()
        invariant
            i <= family@.len(),
            forall|j: int| 0 <= j < i ==> (#[trigger] family@[j])@ != name@,
        decreases family@.len() - i,
    {
        if str_eq(&family[i], name) {
            return true;
        }
        i = i + 1;
    }
    false
}

/// Classify the distribution into the package manager it uses, or `None`
/// when neither the identifier nor the family list matches a known one.
pub fn classify_package_manager(distro: &String, family: &Vec<String>) -> (r: Option<
    &'static str,
>)
    ensures
        r is Some <==> package_manager_spec(distro@, family@) is Some,
        r matches Some(s) ==> s@ == package_manager_spec(distro@, family@)->0,
{
    if str_eq(distro, "ubuntu") || str_eq(distro, "debian") || family_contains(family, "debian") {
        Some("apt")
    } else if str_eq(distro, "fedora") || str_eq(distro, "centos") || str_eq(distro, "rhel")
        || family_contains(family, "rhel") || family_contains(family, "fedora") {
        Some("rpm")
    } else if str_eq(distro, "arch") || family_contains(family, "arch") {
        Some("pacman")
    } else {
        None
    }
}

/// Detect what a Linux system uses, from the distribution identifier, the
/// list of distributions it declares itself like, and the CPU architecture,
/// each as the operating system reports them (identifiers lowercased).
/// Succeeds exactly when the distribution classifies to a known package
/// manager.
pub fn detect_linux_system_info(distro: String, family: Vec<String>, arch: String) -> (r: Result<
    LinuxSystemInfo,
    SystemInfoError,
>)
    ensures
        r is Ok <==> package_manager_spec(distro@, family@) is Some,
        r matches Ok(info) ==> info.package_manager_type@ == package_manager_spec(
            distro@,
            family@,
        )->0 && info.arch == arch,
        r matches Err(e) ==> e == SystemInfoError::UnknownPackageManager,
{
    match classify_package_manager(&distro, &family) {
        Some(pm) => Ok(
            LinuxSystemInfo { package_manager_type: String::from_str(pm), arch },
        ),
        None => Err(SystemInfoError::UnknownPackageManager),
    }
}

} // verus!
