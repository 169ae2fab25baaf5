use localman::vhost::{
    add_project, auto_assign_port, build_vhost_conf, join_dir, process_alive, remove_project,
    seeks_new_proxied_port, server_status, server_to_stop, stop_server, sync_port_in_command, update_project,
    KillOutcome, ProjectType, ServerRegistry, ServerStatus, VhostProject,
};

fn project(t: ProjectType, path: &str, app_dir: &str, port: u16) -> VhostProject {
    VhostProject {
        id: "demo".into(),
        name: "Demo".into(),
        path: path.into(),
        domain: "demo.localhost".into(),
        project_type: t,
        port,
        start_command: String::new(),
        app_dir: app_dir.into(),
    }
}

fn with_id(id: &str, t: ProjectType, port: u16) -> VhostProject {
    let mut p = project(t, "/srv/x", "", port);
    p.id = id.into();
    p.domain = format!("{id}.localhost");
    p
}

#[test]
fn join_dir_handles_empty_and_slashes() {
    assert_eq!(join_dir("/srv/app", ""), "/srv/app");
    assert_eq!(join_dir("/srv/app/", ""), "/srv/app");
    assert_eq!(join_dir("/srv/app", "web"), "/srv/app/web");
    assert_eq!(join_dir("/srv/app/", "/web/"), "/srv/app/web");
    assert_eq!(join_dir("/srv/app", "apps/web"), "/srv/app/apps/web");
}

#[test]
fn work_dir_falls_back_to_path() {
    assert_eq!(project(ProjectType::NextJs, "/srv/x", "", 5001).work_dir(), "/srv/x");
    assert_eq!(project(ProjectType::NextJs, "/srv/x", "app", 5001).work_dir(), "/srv/x/app");
}

#[test]
fn sync_port_rewrites_existing_flags() {
    assert_eq!(sync_port_in_command("npx next dev --port 3003", 5001), "npx next dev --port 5001");
    assert_eq!(sync_port_in_command("npx next dev --port=3003", 5001), "npx next dev --port=5001");
    assert_eq!(sync_port_in_command("npm run dev -- -p 3000", 5002), "npm run dev -- -p 5002");
}

#[test]
fn sync_port_appends_when_missing() {
    assert_eq!(sync_port_in_command("npx next dev", 5001), "npx next dev --port 5001");
    assert_eq!(sync_port_in_command("   ", 5001), "");
}

#[test]
fn sync_port_normalises_spacing_and_trailing_flag() {
    assert_eq!(sync_port_in_command("  npx   next dev  ", 80), "npx next dev --port 80");
    assert_eq!(sync_port_in_command("next dev -p", 6000), "next dev -p 6000");
    assert_eq!(sync_port_in_command("npx next dev --port", 5001), "npx next dev --port 5001");
}

#[test]
fn next_vhost_proxies_websocket_before_root() {
    let conf = build_vhost_conf(&project(ProjectType::NextJs, "/srv/x", "app", 5005));
    assert!(conf.contains("RewriteCond %{HTTP:Upgrade} =websocket [NC]"));
    assert!(conf.contains("RewriteRule ^/?(.*) ws://127.0.0.1:5005/$1 [P,L]"));
    assert!(conf.contains("ProxyPass / http://127.0.0.1:5005/"));
    let ws = conf.find("RewriteRule").unwrap();
    let root = conf.find("ProxyPass / http").unwrap();
    assert!(ws < root, "the websocket rule comes after the root proxy");
}

#[test]
fn php_vhost_uses_app_dir_as_document_root() {
    let conf = build_vhost_conf(&project(ProjectType::Php, "/srv/laravel", "public", 80));
    assert!(conf.contains("DocumentRoot /srv/laravel/public"));
    let conf2 = build_vhost_conf(&project(ProjectType::Php, "/srv/plain", "", 80));
    assert!(conf2.contains("DocumentRoot /srv/plain\n"));
}

#[test]
fn python_vhost_unchanged() {
    let conf = build_vhost_conf(&project(ProjectType::Python, "/srv/x", "", 5001));
    assert!(conf.contains("ProxyPass / http://127.0.0.1:5001/"));
    assert!(!conf.contains("ws://"));
}

#[test]
fn php_vhost_full_text() {
    let conf = build_vhost_conf(&project(ProjectType::Php, "/srv/site", "", 80));
    assert_eq!(
        conf,
        "<VirtualHost *:80>\n    ServerName demo.localhost\n    DocumentRoot /srv/site\n    <Directory /srv/site>\n        AllowOverride All\n        Require all granted\n    </Directory>\n    ErrorLog ${APACHE_LOG_DIR}/demo.error.log\n    CustomLog ${APACHE_LOG_DIR}/demo.access.log combined\n</VirtualHost>\n"
    );
}

#[test]
fn proxied_types_and_work_dir() {
    assert!(!ProjectType::Php.is_proxied());
    assert!(ProjectType::Python.is_proxied());
    assert!(ProjectType::NextJs.is_proxied());
}

#[test]
fn registry_read_after_write() {
    let mut reg = ServerRegistry::new();
    assert_eq!(reg.get("a"), None);
    reg.insert("a", 100);
    reg.insert("b", 200);
    assert_eq!(reg.get("a"), Some(100));
    reg.insert("a", 300);
    assert_eq!(reg.get("a"), Some(300));
    assert_eq!(reg.get("b"), Some(200));
    reg.remove("a");
    assert_eq!(reg.get("a"), None);
    assert_eq!(reg.get("b"), Some(200));
}

#[test]
fn server_status_needs_a_live_registered_process() {
    let mut reg = ServerRegistry::new();
    assert_eq!(server_status(&reg, "demo", true), ServerStatus::Stopped);
    reg.insert("demo", 42);
    assert_eq!(server_status(&reg, "demo", true), ServerStatus::Running(42));
    assert_eq!(server_status(&reg, "demo", false), ServerStatus::Stopped);
}

#[test]
fn stopping_forgets_the_server_only_when_killed() {
    let mut reg = ServerRegistry::new();
    assert_eq!(server_to_stop(&reg, "demo"), Err("실행 중인 서버가 없습니다.".to_string()));
    reg.insert("demo", 7);
    assert_eq!(server_to_stop(&reg, "demo"), Ok(7));
    assert_eq!(
        stop_server(&mut reg, "demo", KillOutcome::Failed("no such process".into())),
        Err("kill 실패: no such process".to_string())
    );
    assert_eq!(reg.get("demo"), Some(7));
    assert_eq!(stop_server(&mut reg, "demo", KillOutcome::PidKilled), Ok(()));
    assert_eq!(reg.get("demo"), None);
    reg.insert("demo", 8);
    assert_eq!(stop_server(&mut reg, "demo", KillOutcome::GroupKilled), Ok(()));
    assert_eq!(reg.get("demo"), None);
}

#[test]
fn stopping_an_unregistered_server_is_refused() {
    let mut reg = ServerRegistry::new();
    reg.insert("other", 9);
    assert_eq!(
        stop_server(&mut reg, "demo", KillOutcome::GroupKilled),
        Err("실행 중인 서버가 없습니다.".to_string())
    );
    assert_eq!(reg.get("other"), Some(9));
    assert_eq!(reg.get("demo"), None);
}

#[test]
fn process_alive_reads_state_after_last_paren() {
    assert!(process_alive(Some("1234 (python3) S 1 1234 1234 0")));
    assert!(!process_alive(Some("1234 (node) Z 1 1234")));
    assert!(process_alive(Some("99 (weird) name) R 1")));
    assert!(!process_alive(Some("99 (a) Z) Z 1")));
    assert!(!process_alive(Some("no parenthesis here")));
    assert!(!process_alive(Some("12 (x)")));
    assert!(!process_alive(None));
}

#[test]
fn auto_assign_port_takes_first_free_from_5001() {
    assert_eq!(auto_assign_port(&vec![]), 5001);
    let list = vec![with_id("a", ProjectType::Python, 5001), with_id("b", ProjectType::Python, 5003)];
    assert_eq!(auto_assign_port(&list), 5002);
    let list2 = vec![with_id("a", ProjectType::Python, 5001), with_id("b", ProjectType::Python, 5002)];
    assert_eq!(auto_assign_port(&list2), 5003);
}

#[test]
fn add_project_replaces_same_id_and_syncs_next_port() {
    let list = vec![with_id("a", ProjectType::Php, 80), with_id("b", ProjectType::Php, 80)];
    let mut p = with_id("a", ProjectType::NextJs, 5010);
    p.start_command = "npx next dev --port 3000".into();
    let (out, stored) = add_project(&list, p);
    assert_eq!(stored.start_command, "npx next dev --port 5010");
    assert_eq!(out.len(), 2);
    assert_eq!(out[0].id, "b");
    assert_eq!(out[1].id, "a");
    assert_eq!(out[1].project_type, ProjectType::NextJs);
    assert_eq!(out[1].start_command, "npx next dev --port 5010");
}

#[test]
fn add_project_keeps_python_command() {
    let mut p = with_id("py", ProjectType::Python, 5004);
    p.start_command = "venv/bin/python3 app.py".into();
    let (out, stored) = add_project(&vec![], p);
    assert_eq!(stored.start_command, "venv/bin/python3 app.py");
    assert_eq!(out.len(), 1);
}

#[test]
fn remove_project_drops_every_entry_with_the_id() {
    let list = vec![
        with_id("a", ProjectType::Php, 80),
        with_id("b", ProjectType::Php, 80),
        with_id("a", ProjectType::Python, 5001),
    ];
    let (out, found) = remove_project(&list, "a");
    assert_eq!(out.len(), 1);
    assert_eq!(out[0].id, "b");
    assert_eq!(found.unwrap().project_type, ProjectType::Php);
    let (out2, none) = remove_project(&out, "zzz");
    assert_eq!(out2.len(), 1);
    assert!(none.is_none());
}

#[test]
fn update_project_reassigns_port_on_type_change() {
    let mut list = vec![with_id("a", ProjectType::Php, 80), with_id("b", ProjectType::Python, 5001)];
    let r = update_project(
        &mut list,
        "a",
        "A".into(),
        "/srv/a".into(),
        "npx next dev".into(),
        ProjectType::NextJs,
        "app".into(),
    );
    let p = r.unwrap();
    assert_eq!(p.port, 5002);
    assert_eq!(p.start_command, "npx next dev --port 5002");
    assert_eq!(p.domain, "a.localhost");
    assert_eq!(list[0].port, 5002);
    assert_eq!(list[0].app_dir, "app");
    assert_eq!(list[1].port, 5001);
}

#[test]
fn update_project_back_to_php_uses_port_80_and_unknown_id_errs() {
    let mut list = vec![with_id("a", ProjectType::Python, 5003)];
    let p = update_project(
        &mut list,
        "a",
        "A".into(),
        "/srv/a".into(),
        String::new(),
        ProjectType::Php,
        String::new(),
    )
    .unwrap();
    assert_eq!(p.port, 80);
    let err = update_project(
        &mut list,
        "missing",
        "A".into(),
        "/srv/a".into(),
        String::new(),
        ProjectType::Php,
        String::new(),
    );
    assert_eq!(err.unwrap_err(), "프로젝트를 찾을 수 없습니다.");
}

#[test]
fn update_project_keeps_port_of_same_proxied_type() {
    let mut list = vec![with_id("a", ProjectType::Python, 5003)];
    let p = update_project(
        &mut list,
        "a",
        "A".into(),
        "/srv/a".into(),
        "venv/bin/python3 app.py".into(),
        ProjectType::Python,
        String::new(),
    )
    .unwrap();
    assert_eq!(p.port, 5003);
    assert_eq!(p.start_command, "venv/bin/python3 app.py");
}

#[test]
fn syncing_twice_changes_nothing() {
    for cmd in ["npx next dev", "npx next dev --port=3000", "npm run dev -- -p 3000", "next dev -p 1 -p"] {
        let once = sync_port_in_command(cmd, 5003);
        assert_eq!(sync_port_in_command(&once, 5003), once, "{cmd}");
    }
}

#[test]
fn a_new_proxied_port_is_sought_only_when_needed() {
    let list = vec![with_id("a", ProjectType::Python, 5003), with_id("b", ProjectType::Php, 80)];
    assert!(!seeks_new_proxied_port(&list, "a", ProjectType::Python));
    assert!(seeks_new_proxied_port(&list, "a", ProjectType::NextJs));
    assert!(!seeks_new_proxied_port(&list, "a", ProjectType::Php));
    assert!(seeks_new_proxied_port(&list, "b", ProjectType::Python));
    assert!(!seeks_new_proxied_port(&list, "missing", ProjectType::NextJs));
    let legacy = vec![with_id("c", ProjectType::NextJs, 80)];
    assert!(seeks_new_proxied_port(&legacy, "c", ProjectType::NextJs));
}
