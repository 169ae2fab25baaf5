use localman::apache::{
    adminer_download, adminer_download_result, adminer_project, enable_modules_args,
    enable_modules_failure, needed_proxy_modules, site_url, update_hosts_content,
    vhost_conf_path, vhost_enabled_path, vhost_staging_path,
};
use localman::log::{
    clear_log_failure, error_log_path, missing_log_message, sudo_tail_args, sudo_truncate_args,
    tail_lines, unreadable_log_message,
};
use localman::manifest::{detect_next_app_dir, manifest_declares_next};
use localman::paths::{app_data_dir, localman_dir};
use localman::text::parse_u16;
use localman::service::{
    get_service_status, install_failure, install_package_for, install_service_args,
    toggle_service_args, unit_name, ServiceStatus,
};
use localman::vhost::ProjectType;

const NEXT_PKG: &str = r#"{"dependencies":{"next":"16.3.0","react":"19.2.6"}}"#;

fn entry(name: &str, manifest: Option<&str>) -> (String, Option<String>) {
    (name.to_string(), manifest.map(|m| m.to_string()))
}

#[test]
fn detects_next_app_in_subdirectory() {
    let subdirs = vec![
        entry("landing", Some(r#"{"dependencies":{"esbuild":"0.2.0"}}"#)),
        entry("app", Some(NEXT_PKG)),
    ];
    assert_eq!(detect_next_app_dir(None, &subdirs, &vec![], &vec![]), Some("app".to_string()));
}

#[test]
fn detects_next_at_root_and_ignores_app_router_dir() {
    let subdirs = vec![entry("app", None)];
    assert_eq!(detect_next_app_dir(Some(NEXT_PKG), &subdirs, &vec![], &vec![]), Some(String::new()));
}

#[test]
fn detects_next_in_monorepo_apps_dir() {
    let apps = vec![entry("web", Some(NEXT_PKG))];
    let subdirs = vec![entry("apps", None)];
    assert_eq!(detect_next_app_dir(None, &subdirs, &apps, &vec![]), Some("apps/web".to_string()));
}

#[test]
fn returns_none_without_next_dependency() {
    let subdirs = vec![entry("web", Some(r#"{"dependencies":{"express":"4.0.0"}}"#))];
    assert_eq!(
        detect_next_app_dir(Some(r#"{"dependencies":{"vite":"5.0.0"}}"#), &subdirs, &vec![], &vec![]),
        None
    );
}

#[test]
fn next_detection_order_and_skipped_dirs() {
    let subdirs = vec![
        entry("zeta", Some(NEXT_PKG)),
        entry("alpha", Some(NEXT_PKG)),
        entry("www", Some(NEXT_PKG)),
        entry(".hidden", Some(NEXT_PKG)),
        entry("node_modules", Some(NEXT_PKG)),
    ];
    assert_eq!(detect_next_app_dir(None, &subdirs, &vec![], &vec![]), Some("www".to_string()));
    let plain = vec![entry("zeta", Some(NEXT_PKG)), entry("alpha", Some(NEXT_PKG))];
    assert_eq!(detect_next_app_dir(None, &plain, &vec![], &vec![]), Some("alpha".to_string()));
    let hidden_only = vec![entry(".next", Some(NEXT_PKG)), entry("vendor", Some(NEXT_PKG))];
    let packages = vec![entry("ui", Some(r#"{"devDependencies":{"next":"15"}}"#))];
    assert_eq!(
        detect_next_app_dir(None, &hidden_only, &vec![], &packages),
        Some("packages/ui".to_string())
    );
}

#[test]
fn manifest_parsing() {
    assert!(manifest_declares_next(Some(NEXT_PKG)));
    assert!(manifest_declares_next(Some(r#"{"devDependencies":{"next":"15"}}"#)));
    assert!(!manifest_declares_next(Some("not json")));
    assert!(!manifest_declares_next(Some(r#"{"dependencies":{"nextra":"1"}}"#)));
    assert!(!manifest_declares_next(None));
}

#[test]
fn vhost_file_paths() {
    assert_eq!(vhost_conf_path("demo"), "/etc/apache2/sites-available/demo.conf");
    assert_eq!(vhost_enabled_path("demo"), "/etc/apache2/sites-enabled/demo.conf");
    assert_eq!(vhost_staging_path("demo"), "/tmp/localman_vhost_demo.conf");
}

#[test]
fn hosts_file_updates() {
    let hosts = "127.0.0.1\tlocalhost\n::1\tlocalhost";
    assert_eq!(
        update_hosts_content(hosts, "demo.localhost", true).as_deref(),
        Some("127.0.0.1\tlocalhost\n::1\tlocalhost\n127.0.0.1\tdemo.localhost\n")
    );
    assert_eq!(update_hosts_content("x demo.localhost y", "demo.localhost", true), None);
    let with = "127.0.0.1\tlocalhost\n127.0.0.1\tdemo.localhost\n# keep\n";
    assert_eq!(
        update_hosts_content(with, "demo.localhost", false).as_deref(),
        Some("127.0.0.1\tlocalhost\n# keep\n")
    );
}

#[test]
fn proxy_modules() {
    assert!(needed_proxy_modules("proxy_http_module (shared)\nproxy_wstunnel_module\nrewrite_module", true).is_empty());
    assert_eq!(needed_proxy_modules("core_module", false), vec!["proxy", "proxy_http"]);
    assert_eq!(
        needed_proxy_modules("core_module", true),
        vec!["proxy", "proxy_http", "proxy_wstunnel", "rewrite"]
    );
    let m = vec!["proxy".to_string(), "rewrite".to_string()];
    assert_eq!(enable_modules_args(&m), vec!["-n", "/usr/sbin/a2enmod", "proxy", "rewrite"]);
    assert_eq!(
        enable_modules_failure(&m),
        "Apache proxy 모듈 활성화 실패.\n터미널에서 한 번 실행 후 재시도하세요:\nsudo a2enmod proxy rewrite && sudo systemctl reload apache2"
    );
}

#[test]
fn adminer_site() {
    let p = adminer_project("/data/pma");
    assert_eq!((p.id.as_str(), p.domain.as_str(), p.path.as_str()), ("pma", "pma.localhost", "/data/pma"));
    assert_eq!(p.project_type, ProjectType::Php);
    assert_eq!(p.port, 80);
    assert_eq!(site_url("pma.localhost"), "http://pma.localhost");
    let (prog, args) = adminer_download("/data/pma/index.php", false);
    assert_eq!(prog, "curl");
    assert_eq!(args, vec!["-fsSL", "https://www.adminer.org/latest.php", "-o", "/data/pma/index.php"]);
    let (prog2, args2) = adminer_download("/d/i.php", true);
    assert_eq!(prog2, "wget");
    assert_eq!(args2, vec!["-q", "https://www.adminer.org/latest.php", "-O", "/d/i.php"]);
    assert_eq!(adminer_download_result(false, true), Ok(()));
    assert_eq!(
        adminer_download_result(false, false),
        Err("Adminer 다운로드 실패 (curl/wget·인터넷 연결 확인)".to_string())
    );
}

#[test]
fn log_helpers() {
    assert_eq!(error_log_path("demo"), "/var/log/apache2/demo.error.log");
    assert_eq!(tail_lines("a\nb\nc\nd\n", 2), "c\nd");
    assert_eq!(tail_lines("a\nb", 5), "a\nb");
    assert_eq!(tail_lines("a\r\nb\r\n", 1), "b");
    assert_eq!(tail_lines("", 3), "");
    assert_eq!(tail_lines("a\nb", 0), "");
    assert!(missing_log_message("/var/log/apache2/x.error.log")
        .starts_with("로그 파일이 아직 없습니다:\n/var/log/apache2/x.error.log\n\n"));
    assert_eq!(sudo_tail_args("/l", 200), vec!["-n", "tail", "-n", "200", "/l"]);
    assert_eq!(
        unreadable_log_message(" denied \n"),
        "로그를 읽을 수 없습니다 (권한). sudoers 설정이 필요할 수 있습니다.\ndenied"
    );
    assert_eq!(sudo_truncate_args("/l"), vec!["-n", "truncate", "-s", "0", "/l"]);
    assert!(clear_log_failure("nope").ends_with("truncate 규칙을 추가하세요.\nnope"));
}

#[test]
fn service_status_and_commands() {
    assert_eq!(unit_name("mariadb"), "mariadb.service");
    assert_eq!(get_service_status(Some("active\n"), true), ServiceStatus::Running);
    assert_eq!(get_service_status(Some("inactive\n"), true), ServiceStatus::Stopped);
    assert_eq!(get_service_status(Some("inactive\n"), false), ServiceStatus::NotInstalled);
    assert_eq!(get_service_status(None, true), ServiceStatus::Unknown);
    assert_eq!(install_package_for("mariadb"), Some("mariadb-server"));
    assert_eq!(install_package_for("postgresql"), Some("postgresql"));
    assert_eq!(install_package_for("apache2"), Some("apache2"));
    assert_eq!(install_package_for("nginx"), None);
    assert_eq!(
        install_service_args("mariadb"),
        Ok(vec!["-n".to_string(), "/usr/bin/apt-get".into(), "install".into(), "-y".into(), "mariadb-server".into()])
    );
    assert_eq!(
        install_service_args("rm -rf"),
        Err("설치할 수 있는 서비스가 아닙니다: rm -rf".to_string())
    );
    assert_eq!(
        install_failure("sudo: a password is required"),
        "설치 권한이 없습니다. install-sudoers.sh 를 다시 실행하십시오."
    );
    assert_eq!(install_failure("E: broken"), "E: broken");
    assert_eq!(toggle_service_args("apache2", true), vec!["-n", "systemctl", "start", "apache2"]);
    assert_eq!(toggle_service_args("apache2", false), vec!["-n", "systemctl", "stop", "apache2"]);
}

#[test]
fn data_directory_under_user_data_dir() {
    assert_eq!(localman_dir(Some("/home/u/.local/share")), "/home/u/.local/share/localman");
    assert_eq!(localman_dir(Some("/home/u/.local/share/")), "/home/u/.local/share/localman");
    assert_eq!(localman_dir(None), "/tmp/localman");
    assert!(app_data_dir().ends_with("/localman"));
}

#[test]
fn parses_ports_like_str_parse() {
    assert_eq!(parse_u16("8000"), Some(8000));
    assert_eq!(parse_u16("+5"), Some(5));
    assert_eq!(parse_u16("065535"), Some(65535));
    assert_eq!(parse_u16("65536"), None);
    assert_eq!(parse_u16(""), None);
    assert_eq!(parse_u16("+"), None);
    assert_eq!(parse_u16("-1"), None);
    assert_eq!(parse_u16("12a"), None);
    assert_eq!(parse_u16("99999999999999999999"), None);
}
