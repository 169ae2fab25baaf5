//! System services (Apache, MariaDB, PostgreSQL): their status and the
//! commands that install, start and stop them.
use vstd::prelude::*;
use vstd::string::*;
use crate::text::{contains, contains_text, trim, trim_ws, same_text, views};

verus! {

broadcast use vstd::string::group_string_axioms;

/// State of a systemd service.
#[derive(Debug, Clone, Copy, PartialEq, Eq, Structural)]
pub enum ServiceStatus {
    Running,
    Stopped,
    NotInstalled,
    Unknown,
}

/// The systemd unit of a service.
pub fn unit_name(name: &str) -> (r: String)
    ensures
        r@ == name@ + ".service"@,
{
    let mut s = String::from_str(name);
    s.append(".service");
    s
}

/// A service's status from `systemctl is-active` (`None` when it could not run,
/// else its standard output) and whether the unit file exists (`systemctl cat`):
/// the exit code alone does not tell a missing unit from other failures.
pub fn get_service_status(is_active_output: Option<&str>, unit_exists: bool) -> (r: ServiceStatus)
    ensures
        r == match is_active_output {
            None => ServiceStatus::Unknown,
            Some(out) => if trim(out@) == "active"@ {
                ServiceStatus::Running
            } else if !unit_exists {
                ServiceStatus::NotInstalled
            } else {
                ServiceStatus::Stopped
            },
        },
{
    match is_active_output {
        None => ServiceStatus::Unknown,
        Some(out) => {
            let t = trim_ws(out);
            if same_text(t.as_str(), "active") {
                ServiceStatus::Running
            } else if !unit_exists {
                ServiceStatus::NotInstalled
            } else {
                ServiceStatus::Stopped
            }
        },
    }
}

/// The package that provides a service; only these three may be installed
/// (nothing else can be installed as root from the UI).
pub open spec fn spec_package_for(service: Seq<char>) -> Option<Seq<char>> {
    if service == "postgresql"@ {
        Some("postgresql"@)
    } else if service == "mariadb"@ {
        Some("mariadb-server"@)
    } else if service == "apache2"@ {
        Some("apache2"@)
    } else {
        None
    }
}

pub fn install_package_for(service: &str) -> (r: Option<&'static str>)
    ensures
        match r {
            Some(p) => spec_package_for(service@) == Some(p@),
            None => spec_package_for(service@) is None,
        },
{
    if same_text(service, "postgresql") {
        Some("postgresql")
    } else if same_text(service, "mariadb") {
        Some("mariadb-server")
    } else if same_text(service, "apache2") {
        Some("apache2")
    } else {
        None
    }
}

/// Arguments of `sudo` that install a service's package without prompts, or
/// why that service cannot be installed.
pub fn install_service_args(service: &str) -> (r: Result<Vec<String>, String>)
    ensures
        match r {
            Ok(args) => spec_package_for(service@) matches Some(p) && views(args@) == seq![
                "-n"@,
                "/usr/bin/apt-get"@,
                "install"@,
                "-y"@,
                p,
            ],
            Err(e) => spec_package_for(service@) is None && e@ == "설치할 수 있는 서비스가 아닙니다: "@
                + service@,
        },
{
    match install_package_for(service) {
        Some(package) => {
            let mut v: Vec<String> = Vec::new();
            v.push(String::from_str("-n"));
            v.push(String::from_str("/usr/bin/apt-get"));
            v.push(String::from_str("install"));
            v.push(String::from_str("-y"));
            v.push(String::from_str(package));
            assert(views(v@) =~= seq!["-n"@, "/usr/bin/apt-get"@, "install"@, "-y"@, package@]);
            Ok(v)
        },
        None => {
            let mut s = String::from_str("설치할 수 있는 서비스가 아닙니다: ");
            s.append(service);
            Err(s)
        },
    }
}

/// What to tell when the install failed: a missing sudo permission is named as
/// such, any other error is passed on.
pub fn install_failure(stderr: &str) -> (r: String)
    ensures
        r@ == (if contains_text(stderr@, "password is required"@) || contains_text(
            stderr@,
            "a password is required"@,
        ) {
            "설치 권한이 없습니다. install-sudoers.sh 를 다시 실행하십시오."@
        } else {
            stderr@
        }),
{
    if contains(stderr, "password is required") || contains(stderr, "a password is required") {
        String::from_str("설치 권한이 없습니다. install-sudoers.sh 를 다시 실행하십시오.")
    } else {
        String::from_str(stderr)
    }
}

/// Arguments of `sudo` that start or stop a service.
pub fn toggle_service_args(name: &str, start: bool) -> (r: Vec<String>)
    ensures
        views(r@) == seq![
            "-n"@,
            "systemctl"@,
            if start {
                "start"@
            } else {
                "stop"@
            },
            name@,
        ],
{
    let mut v: Vec<String> = Vec::new();
    v.push(String::from_str("-n"));
    v.push(String::from_str("systemctl"));
    v.push(String::from_str(if start { "start" } else { "stop" }));
    v.push(String::from_str(name));
    assert(views(v@) =~= seq!["-n"@, "systemctl"@, if start { "start"@ } else { "stop"@ }, name@]);
    v
}

} // verus!

verus! {

/// Only the three fixed packages are ever installed, whatever service name is
/// asked for: no outside input picks a package to install as root.
pub proof fn installable_packages_are_fixed(service: Seq<char>)
    ensures
        spec_package_for(service) matches Some(p) ==> (p == "postgresql"@ || p
            == "mariadb-server"@ || p == "apache2"@),
{
}

} // verus!
