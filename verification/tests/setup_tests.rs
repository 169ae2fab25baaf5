use localman::setup::{
    auto_detect_next_command, auto_detect_start_command, command_source, deps_marker, deps_ready,
    detect_package_manager, ignored_build_scripts, kill_group_args, missing_manifest_message,
    next_binary_path, node_install_report, node_installer, server_command, setup_project,
    start_entry_file, start_refusal, strip_ansi, CommandSource, SetupStep, START_ENTRIES,
};
use localman::vhost::{ProjectType, VhostProject};

fn project(t: ProjectType, path: &str, app_dir: &str, port: u16) -> VhostProject {
    VhostProject {
        id: "demo".into(),
        name: "Demo".into(),
        path: path.into(),
        domain: "demo.localhost".into(),
        project_type: t,
        port,
        start_command: String::new(),
        app_dir: app_dir.into(),
    }
}

#[test]
fn detects_pnpm_ignored_build_scripts() {
    let real = "\u{1b}[41m\u{1b}[31m[\u{1b}[39m\u{1b}[49m\u{1b}[41m\u{1b}[30mERR_PNPM_IGNORED_BUILDS\u{1b}[39m\u{1b}[49m\u{1b}[41m\u{1b}[31m]\u{1b}[39m\u{1b}[49m \u{1b}[31mIgnored build scripts: esbuild@0.28.2\u{1b}[39m\n\nRun \"pnpm approve-builds\" to pick which dependencies should be allowed to run scripts.\n";
    assert_eq!(ignored_build_scripts(real).as_deref(), Some("esbuild@0.28.2"));
}

#[test]
fn lists_every_ignored_package() {
    let out = "Ignored build scripts: @heroui-pro/react@1.0.0-beta.8, unrs-resolver@1.7.2.\n\
               Run \"pnpm approve-builds\" to pick which dependencies should be allowed.\n";
    let got = ignored_build_scripts(out).unwrap();
    assert!(got.contains("@heroui-pro/react@1.0.0-beta.8"), "got: {got}");
    assert!(got.contains("unrs-resolver@1.7.2"), "got: {got}");
}

#[test]
fn no_warning_on_clean_install() {
    let out = "Packages: +2\ndependencies:\n+ esbuild 0.28.2\nDone in 3.6s using pnpm v11.23.0\n";
    assert_eq!(ignored_build_scripts(out), None);
}

#[test]
fn strips_ansi_escape_codes() {
    assert_eq!(strip_ansi("\u{1b}[32m✓\u{1b}[39m ok"), "✓ ok");
    assert_eq!(strip_ansi("plain"), "plain");
}

#[test]
fn strip_ansi_drops_unterminated_escape() {
    assert_eq!(strip_ansi("ok\u{1b}[0"), "ok");
    assert!(!strip_ansi("\u{1b}[1;31mred\u{1b}[0m text").contains('\u{1b}'));
}

#[test]
fn ignored_builds_without_names_get_a_note() {
    let out = "Warning: build scripts were ignored.\n";
    assert_eq!(
        ignored_build_scripts(out).as_deref(),
        Some("(이름 확인 불가 — 설치 로그를 확인하세요)")
    );
}

#[test]
fn ignored_builds_mixed_case_announcement() {
    let out = "IGNORED BUILD SCRIPTS: core-js@3.1.0\nDone\n";
    assert_eq!(ignored_build_scripts(out).as_deref(), Some("core-js@3.1.0"));
}

#[test]
fn package_manager_follows_lockfile() {
    assert_eq!(detect_package_manager(true, true, false, false), "pnpm");
    assert_eq!(detect_package_manager(false, true, true, false), "yarn");
    assert_eq!(detect_package_manager(false, false, true, false), "bun");
    assert_eq!(detect_package_manager(false, false, false, true), "bun");
    assert_eq!(detect_package_manager(false, false, false, false), "npm");
}

#[test]
fn installer_falls_back_through_corepack_to_npm() {
    let (p, a) = node_installer("pnpm", true, true);
    assert_eq!((p.as_str(), a), ("pnpm", vec!["install".to_string()]));
    let (p, a) = node_installer("pnpm", false, true);
    assert_eq!((p.as_str(), a), ("corepack", vec!["pnpm".to_string(), "install".to_string()]));
    let (p, a) = node_installer("yarn", false, false);
    assert_eq!((p.as_str(), a), ("npm", vec!["install".to_string()]));
    let (p, _) = node_installer("npm", false, false);
    assert_eq!(p, "npm");
}

#[test]
fn install_reports() {
    assert_eq!(
        missing_manifest_message("/srv/x"),
        "package.json이 없습니다: /srv/x\n하위 디렉토리 설정을 확인하세요."
    );
    assert_eq!(
        node_install_report("pnpm", "pnpm", true, "done\n", ""),
        Ok("의존성 설치 완료 (pnpm)".to_string())
    );
    assert_eq!(
        node_install_report("corepack", "pnpm", true, "done\n", ""),
        Ok("의존성 설치 완료 (corepack pnpm)".to_string())
    );
    let warned = node_install_report("pnpm", "pnpm", true, "Ignored build scripts: esbuild@0.28.2\n", "");
    assert!(warned.unwrap().starts_with("의존성 설치 완료 (pnpm) — 다만 빌드 스크립트가 차단된 패키지가 있습니다: esbuild@0.28.2\n"));
    let failed = node_install_report("npm", "npm", false, "", "e1\ne2\n").unwrap_err();
    assert_eq!(failed, "의존성 설치 실패 (npm):\ne1\ne2");
}

#[test]
fn install_failure_keeps_last_fifteen_lines() {
    let mut err = String::new();
    for i in 0..20 {
        err.push_str(&format!("line{i}\n"));
    }
    let failed = node_install_report("npm", "npm", false, "", &err).unwrap_err();
    let expected: Vec<String> = (5..20).map(|i| format!("line{i}")).collect();
    assert_eq!(failed, format!("의존성 설치 실패 (npm):\n{}", expected.join("\n")));
}

#[test]
fn setup_step_per_type() {
    assert!(matches!(setup_project(&project(ProjectType::Python, "/p", "", 5001)), SetupStep::CreateVenv));
    assert!(matches!(setup_project(&project(ProjectType::NextJs, "/p", "", 5001)), SetupStep::InstallNodeModules));
    match setup_project(&project(ProjectType::Php, "/p", "", 80)) {
        SetupStep::Done(m) => assert_eq!(m, "PHP 프로젝트는 설치할 의존성이 없습니다."),
        _ => panic!("PHP has nothing to install"),
    }
}

#[test]
fn deps_ready_checks_the_right_marker_per_type() {
    let path = "/tmp/demo";
    assert!(deps_ready(&project(ProjectType::Php, path, "", 80), false));
    let next = project(ProjectType::NextJs, path, "app", 5001);
    assert_eq!(deps_marker(&next).as_deref(), Some("/tmp/demo/app/node_modules"));
    assert!(!deps_ready(&next, false));
    assert!(deps_ready(&next, true));
    let py = project(ProjectType::Python, path, "", 5001);
    assert_eq!(deps_marker(&py).as_deref(), Some("/tmp/demo/venv/bin/python3"));
    assert!(!deps_ready(&py, false));
    assert!(deps_ready(&py, true));
    assert_eq!(deps_marker(&project(ProjectType::Php, path, "", 80)), None);
}

#[test]
fn start_command_by_entry_file() {
    let mut present = vec![false; START_ENTRIES];
    assert_eq!(auto_detect_start_command(&present, 5001), "venv/bin/python3 app.py");
    present[1] = true;
    assert_eq!(
        auto_detect_start_command(&present, 5001),
        "venv/bin/python3 manage.py runserver 0.0.0.0:5001"
    );
    present[0] = true;
    assert_eq!(auto_detect_start_command(&present, 5001), "venv/bin/python3 run_server.py 5001");
    let mut only_asgi = vec![false; START_ENTRIES];
    only_asgi[6] = true;
    assert_eq!(start_entry_file(6), "asgi.py");
    assert_eq!(
        auto_detect_start_command(&only_asgi, 5002),
        "venv/bin/python3 -m uvicorn asgi:app --host 0.0.0.0 --port 5002"
    );
}

#[test]
fn next_command_prefers_local_binary_when_installed() {
    assert_eq!(next_binary_path("/srv/x"), "/srv/x/node_modules/.bin/next");
    assert_eq!(auto_detect_next_command("/srv/x", false, 5001), "npx next dev --port 5001");
    assert_eq!(
        auto_detect_next_command("/srv/x", true, 5001),
        "node_modules/.bin/next dev --port 5001"
    );
    assert_eq!(auto_detect_next_command("", true, 5001), "npx next dev --port 5001");
}

#[test]
fn starting_refusals_and_command() {
    let php = project(ProjectType::Php, "/srv/x", "", 80);
    assert_eq!(start_refusal(&php, false).as_deref(), Some("디렉토리가 없습니다: /srv/x"));
    assert_eq!(
        start_refusal(&php, true).as_deref(),
        Some("PHP 프로젝트는 Apache가 직접 서빙하므로 dev server가 없습니다.")
    );
    let mut py = project(ProjectType::Python, "/srv/x", "", 5001);
    assert_eq!(start_refusal(&py, true), None);
    assert_eq!(command_source(&py), CommandSource::DetectPython);
    assert_eq!(
        server_command(&py, "venv/bin/python3 app.py"),
        Ok(vec!["venv/bin/python3".to_string(), "app.py".to_string()])
    );
    py.start_command = "  ".into();
    assert_eq!(command_source(&py), CommandSource::Configured);
    assert_eq!(server_command(&py, "x"), Err("실행 명령어가 올바르지 않습니다.".to_string()));
    let next = project(ProjectType::NextJs, "/srv/x", "", 5001);
    assert_eq!(command_source(&next), CommandSource::DetectNext);
}

#[test]
fn kill_targets_the_process_group() {
    assert_eq!(kill_group_args(4242), vec!["-TERM", "--", "-4242"]);
}
