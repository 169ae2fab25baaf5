use localman::database::{DbCredentials, DbEngine, DbUser};
use localman::service::ServiceStatus;
use localman::ui::database::{
    derive_db_name, DatabaseAction, DatabaseMessage, DatabaseState, ReplyWith, SubTab,
};
use localman::ui::projects::{slugify, ProjectsAction, ProjectsMessage, ProjectsState};
use localman::ui::services::{ServicesAction, ServicesMessage, ServicesState};
use localman::ui::{App, AppAction, Message, Tab};
use localman::vhost::{ProjectType, VhostProject};

fn creds(engine: DbEngine, user: &str, password: &str) -> DbCredentials {
    DbCredentials { engine, user: user.into(), password: password.into() }
}

fn fresh_db() -> DatabaseState {
    DatabaseState::new(vec![]).0
}

#[test]
fn derives_import_target_from_file_name() {
    assert_eq!(derive_db_name("/path/eond.sql"), "eond");
    assert_eq!(derive_db_name("/path/eond.sql.gz"), "eond");
    assert_eq!(derive_db_name("/path/shop.dump"), "shop");
    assert_eq!(derive_db_name("/path/archive.gz"), "archive");
    assert_eq!(derive_db_name("/path/notes.txt"), "notes.txt");
    assert_eq!(derive_db_name("/path/.sql"), "imported");
    assert_eq!(derive_db_name("/"), "imported");
}

#[test]
fn slugs_follow_names() {
    assert_eq!(slugify("My Project"), "my-project");
    assert_eq!(slugify("  Hello, World!  "), "hello--world");
    assert_eq!(slugify("---"), "");
    assert_eq!(slugify("Café 2"), "café-2");
}

#[test]
fn database_panel_starts_from_saved_login() {
    let (state, action) = DatabaseState::new(vec![creds(DbEngine::PostgreSql, "postgres", "pw")]);
    assert_eq!(state.engine, DbEngine::PostgreSql);
    assert_eq!(state.user, "postgres");
    assert_eq!(state.new_user_host, "localhost");
    match action {
        DatabaseAction::Connect { engine, user, password } => {
            assert_eq!((engine, user.as_str(), password.as_str()), (DbEngine::PostgreSql, "postgres", "pw"));
        }
        other => panic!("expected a connection, got {other:?}"),
    }
    let (blank, none) = DatabaseState::new(vec![creds(DbEngine::PostgreSql, "", "pw")]);
    assert_eq!((blank.engine, blank.user.as_str()), (DbEngine::MariaDb, "root"));
    assert!(matches!(none, DatabaseAction::Nothing));
}

#[test]
fn switching_engine_disconnects_and_swaps_admin() {
    let mut s = fresh_db();
    s.connected = true;
    s.databases = vec!["a".into()];
    let a = s.update(DatabaseMessage::EngineSelected(DbEngine::PostgreSql));
    assert!(matches!(a, DatabaseAction::Nothing));
    assert!(!s.connected);
    assert!(s.databases.is_empty());
    assert_eq!(s.user, "postgres");
    assert_eq!(s.new_user_host, "local");
    s.update(DatabaseMessage::EngineSelected(DbEngine::MariaDb));
    assert_eq!(s.user, "root");
    assert_eq!(s.new_user_host, "localhost");
    s.update(DatabaseMessage::UserChanged("alice".into()));
    s.update(DatabaseMessage::EngineSelected(DbEngine::PostgreSql));
    assert_eq!(s.user, "alice");
}

#[test]
fn connecting_saves_the_login() {
    let mut s = DatabaseState::new(vec![creds(DbEngine::MariaDb, "old", "")]).0;
    s.update(DatabaseMessage::UserChanged("root".into()));
    s.update(DatabaseMessage::PasswordChanged("pw".into()));
    match s.update(DatabaseMessage::Connect) {
        DatabaseAction::Connect { user, password, .. } => assert_eq!((user.as_str(), password.as_str()), ("root", "pw")),
        other => panic!("unexpected {other:?}"),
    }
    let a = s.update(DatabaseMessage::Connected(vec!["shop".into()], vec![]));
    assert!(s.connected);
    assert_eq!(s.status, Some(Ok("연결 성공 (접속 목록에 저장됨)".to_string())));
    match a {
        DatabaseAction::SaveConnections(list) => {
            s.set_saved_connections(list);
            assert_eq!(s.saved_connections.len(), 2);
            assert_eq!(s.saved_connections[0].user, "root");
            assert_eq!(s.saved_connections[1].user, "old");
        }
        other => panic!("unexpected {other:?}"),
    }
    let b = s.update(DatabaseMessage::Connected(vec![], vec![]));
    assert!(!s.connected);
    assert_eq!(s.status, Some(Err("연결 실패 또는 DB 없음".to_string())));
    assert!(matches!(b, DatabaseAction::Nothing));
}

#[test]
fn selecting_a_saved_connection() {
    let mut s = DatabaseState::new(vec![
        creds(DbEngine::MariaDb, "", ""),
        creds(DbEngine::PostgreSql, "postgres", "pw"),
    ])
    .0;
    s.update(DatabaseMessage::SavedConnectionSelected(1));
    assert_eq!(s.engine, DbEngine::PostgreSql);
    assert_eq!(s.password, "pw");
    assert_eq!(s.status, Some(Ok("저장된 연결 선택: PostgreSQL / postgres".to_string())));
    assert_eq!(s.new_user_host, "local");
    s.update(DatabaseMessage::SavedConnectionSelected(9));
    assert_eq!(s.engine, DbEngine::PostgreSql);
}

#[test]
fn creating_and_renaming_databases() {
    let mut s = fresh_db();
    s.update(DatabaseMessage::NewDbNameChanged("shop".into()));
    match s.update(DatabaseMessage::CreateDb) {
        DatabaseAction::Run { plan, success, reply } => {
            let plan = plan.unwrap();
            assert_eq!(plan.len(), 1);
            assert!(plan[0].args.last().unwrap().starts_with("CREATE DATABASE `shop`"));
            assert_eq!(success, "'shop' 생성 완료");
            assert_eq!(reply, ReplyWith::Done);
        }
        other => panic!("unexpected {other:?}"),
    }
    assert!(s.new_db_name.is_empty());
    s.update(DatabaseMessage::EditDb("shop".into()));
    assert_eq!(s.editing_db.as_deref(), Some("shop"));
    s.update(DatabaseMessage::EditDbNameChanged("   ".into()));
    assert!(matches!(s.update(DatabaseMessage::SaveDbEdit("shop".into())), DatabaseAction::Nothing));
    assert_eq!(s.status, Some(Err("새 DB 이름을 입력하세요.".to_string())));
    s.update(DatabaseMessage::EditDbNameChanged(" store ".into()));
    match s.update(DatabaseMessage::SaveDbEdit("shop".into())) {
        DatabaseAction::Run { plan, success, .. } => {
            assert!(plan.is_err());
            assert_eq!(success, "'shop' → 'store' 이름 변경 완료");
        }
        other => panic!("unexpected {other:?}"),
    }
    assert!(s.editing_db.is_none());
    assert!(s.edit_db_name.is_empty());
}

#[test]
fn finished_operations_update_status_and_reload() {
    let mut s = fresh_db();
    s.update(DatabaseMessage::ImportDbNameChanged("x".into()));
    let a = s.update(DatabaseMessage::Done(Ok("done".into())));
    assert!(matches!(a, DatabaseAction::ReloadDatabases { .. }));
    assert!(s.import_db_name.is_empty());
    assert_eq!(s.status, Some(Ok("done".to_string())));
    s.set_databases(vec!["a".into(), "b".into()]);
    assert_eq!(s.databases.len(), 2);
    s.update(DatabaseMessage::ImportDbNameChanged("y".into()));
    let b = s.update(DatabaseMessage::Done(Err("boom".into())));
    assert!(matches!(b, DatabaseAction::Nothing));
    assert_eq!(s.import_db_name, "y");
    let c = s.update(DatabaseMessage::UserActionDone(Ok("ok".into())));
    assert!(matches!(c, DatabaseAction::ReloadUsers { .. }));
    s.set_users(vec![DbUser { username: "u".into(), host: "h".into() }]);
    assert_eq!(s.db_users.len(), 1);
}

#[test]
fn backups_restores_and_imports() {
    let mut s = fresh_db();
    assert!(matches!(s.update(DatabaseMessage::BackupDb("shop".into())), DatabaseAction::PickBackupPath(n) if n == "shop"));
    assert!(matches!(s.update(DatabaseMessage::BackupPathSelected("shop".into(), None)), DatabaseAction::Nothing));
    match s.update(DatabaseMessage::BackupPathSelected("shop".into(), Some("/b/shop.sql".into()))) {
        DatabaseAction::Backup { dump, path, success } => {
            assert_eq!(dump.program, "mysqldump");
            assert_eq!(path, "/b/shop.sql");
            assert_eq!(success, "백업 완료: /b/shop.sql");
        }
        other => panic!("unexpected {other:?}"),
    }
    match s.update(DatabaseMessage::RestorePathSelected("shop".into(), Some("/b/shop.sql".into()))) {
        DatabaseAction::Import { db_name, create_db, success, .. } => {
            assert_eq!(db_name, "shop");
            assert!(!create_db);
            assert_eq!(success, "복원 완료: shop");
        }
        other => panic!("unexpected {other:?}"),
    }
    match s.update(DatabaseMessage::ImportPathSelected(Some("/b/eond.sql.gz".into()))) {
        DatabaseAction::Import { db_name, create_db, success, .. } => {
            assert_eq!(db_name, "eond");
            assert!(create_db);
            assert_eq!(success, "가져오기 완료: eond ← /b/eond.sql.gz");
        }
        other => panic!("unexpected {other:?}"),
    }
    s.update(DatabaseMessage::ImportDbNameChanged("  target ".into()));
    match s.update(DatabaseMessage::ImportPathSelected(Some("/b/eond.sql".into()))) {
        DatabaseAction::Import { db_name, .. } => assert_eq!(db_name, "target"),
        other => panic!("unexpected {other:?}"),
    }
}

#[test]
fn adminer_and_clipboard() {
    let mut s = fresh_db();
    assert!(matches!(s.update(DatabaseMessage::OpenAdminer), DatabaseAction::PrepareAdminer));
    assert_eq!(s.status, Some(Ok("Adminer 준비 중...".to_string())));
    match s.update(DatabaseMessage::AdminerReady(Ok("http://pma.localhost".into()))) {
        DatabaseAction::OpenUrl(u) => assert_eq!(u, "http://pma.localhost"),
        other => panic!("unexpected {other:?}"),
    }
    assert_eq!(s.status, Some(Ok("Adminer 열림: http://pma.localhost".to_string())));
    s.update(DatabaseMessage::AdminerReady(Err("down".into())));
    assert_eq!(s.status, Some(Err("down".to_string())));
    assert!(matches!(s.update(DatabaseMessage::CopyText("x".into())), DatabaseAction::CopyText(t) if t == "x"));
    s.update(DatabaseMessage::TogglePasswordVisibility);
    assert!(s.show_password);
    s.update(DatabaseMessage::SubTabSelected(SubTab::Users));
    assert_eq!(s.subtab, SubTab::Users);
}

#[test]
fn account_management() {
    let mut s = fresh_db();
    assert!(matches!(s.update(DatabaseMessage::CreateUser), DatabaseAction::Nothing));
    assert_eq!(s.user_status, Some(Err("사용자명과 비밀번호를 입력하세요.".to_string())));
    s.update(DatabaseMessage::NewUserNameChanged("app".into()));
    s.update(DatabaseMessage::NewUserPasswordChanged("pw".into()));
    match s.update(DatabaseMessage::CreateUser) {
        DatabaseAction::Run { success, reply, .. } => {
            assert_eq!(success, "'app'@'localhost' 생성 완료");
            assert_eq!(reply, ReplyWith::UserActionDone);
        }
        other => panic!("unexpected {other:?}"),
    }
    assert!(s.new_user_name.is_empty() && s.new_user_password.is_empty());
    match s.update(DatabaseMessage::DropUser("app".into(), "%".into())) {
        DatabaseAction::Run { success, .. } => assert_eq!(success, "'app'@'%' 삭제 완료"),
        other => panic!("unexpected {other:?}"),
    }
    match s.update(DatabaseMessage::GrantPrivileges("app".into(), "localhost".into(), "shop".into())) {
        DatabaseAction::Run { plan, success, .. } => {
            assert_eq!(plan.unwrap().len(), 1);
            assert_eq!(success, "'app'@'localhost' → shop 권한 부여 완료");
        }
        other => panic!("unexpected {other:?}"),
    }
}

#[test]
fn editing_an_account() {
    let mut s = fresh_db();
    s.update(DatabaseMessage::EditUser("app".into(), "localhost".into()));
    assert_eq!(s.editing_user, Some(("app".to_string(), "localhost".to_string())));
    assert_eq!(s.edit_user_name, "app");
    match s.update(DatabaseMessage::SaveUserEdit("app".into(), "localhost".into())) {
        DatabaseAction::Run { plan, success, .. } => {
            assert!(plan.unwrap().is_empty());
            assert_eq!(success, "'app' 사용자 편집 완료");
        }
        other => panic!("unexpected {other:?}"),
    }
    s.update(DatabaseMessage::EditUser("app".into(), "localhost".into()));
    s.update(DatabaseMessage::EditUserNameChanged("web".into()));
    s.update(DatabaseMessage::EditUserPasswordChanged("new".into()));
    match s.update(DatabaseMessage::SaveUserEdit("app".into(), "localhost".into())) {
        DatabaseAction::Run { plan, .. } => {
            let plan = plan.unwrap();
            assert_eq!(plan.len(), 2);
            assert!(plan[0].args.last().unwrap().starts_with("RENAME USER 'app'@'localhost' TO 'web'@'localhost'"));
            assert!(plan[1].args.last().unwrap().starts_with("ALTER USER 'web'@'localhost' IDENTIFIED BY 'new'"));
        }
        other => panic!("unexpected {other:?}"),
    }
    assert!(s.editing_user.is_none());
    s.update(DatabaseMessage::EditUser("app".into(), "localhost".into()));
    s.update(DatabaseMessage::EditUserNameChanged("  ".into()));
    assert!(matches!(s.update(DatabaseMessage::SaveUserEdit("app".into(), "localhost".into())), DatabaseAction::Nothing));
    assert_eq!(s.user_status, Some(Err("새 사용자명을 입력하세요.".to_string())));
    s.update(DatabaseMessage::CancelUserEdit);
    assert!(s.editing_user.is_none() && s.edit_user_name.is_empty());
}

#[test]
fn projects_form_and_validation() {
    let mut s = ProjectsState::new(vec![]);
    assert_eq!(s.new_port, "8000");
    assert_eq!(s.new_type, ProjectType::Php);
    s.update(ProjectsMessage::NameChanged("My Site".into()));
    assert_eq!(s.new_id, "my-site");
    s.update(ProjectsMessage::NameChanged("My Site 2".into()));
    assert_eq!(s.new_id, "my-site-2");
    s.update(ProjectsMessage::IdChanged("custom".into()));
    s.update(ProjectsMessage::NameChanged("Other".into()));
    assert_eq!(s.new_id, "custom");
    s.update(ProjectsMessage::PortChanged("80a".into()));
    assert_eq!(s.new_port, "8000");
    s.update(ProjectsMessage::PortChanged("5005".into()));
    assert_eq!(s.new_port, "5005");
    assert!(matches!(s.update(ProjectsMessage::AddProject), ProjectsAction::Nothing));
    assert_eq!(s.error.as_deref(), Some("PHP 프로젝트는 경로가 필요합니다."));
    s.update(ProjectsMessage::TypeSelected(ProjectType::Python));
    match s.update(ProjectsMessage::AddProject) {
        ProjectsAction::Add(p) => {
            assert_eq!(p.id, "custom");
            assert_eq!(p.domain, "custom.localhost");
            assert_eq!(p.port, 5005);
            assert_eq!(p.project_type, ProjectType::Python);
        }
        other => panic!("unexpected {other:?}"),
    }
    s.update(ProjectsMessage::IdChanged(String::new()));
    assert!(matches!(s.update(ProjectsMessage::AddProject), ProjectsAction::Nothing));
    assert_eq!(s.error.as_deref(), Some("ID를 입력하세요."));
}

#[test]
fn projects_outcomes() {
    let mut s = ProjectsState::new(vec![]);
    s.update(ProjectsMessage::NameChanged("X".into()));
    s.update(ProjectsMessage::PortChanged("".into()));
    s.update(ProjectsMessage::TypeSelected(ProjectType::Python));
    match s.update(ProjectsMessage::AddProject) {
        ProjectsAction::Add(p) => assert_eq!(p.port, 8000),
        other => panic!("unexpected {other:?}"),
    }
    s.project_added(Err("vhost 파일 쓰기 실패: denied".into()));
    assert_eq!(s.error.as_deref(), Some("vhost 파일 쓰기 실패: denied"));
    let stored = VhostProject {
        id: "x".into(),
        name: "X".into(),
        path: String::new(),
        domain: "x.localhost".into(),
        project_type: ProjectType::Python,
        port: 8000,
        start_command: String::new(),
        app_dir: String::new(),
    };
    s.project_added(Ok(vec![stored]));
    assert!(s.error.is_none());
    assert!(s.new_name.is_empty() && s.new_id.is_empty());
    assert_eq!(s.new_type, ProjectType::Php);
    assert_eq!(s.projects.len(), 1);
    assert!(matches!(s.update(ProjectsMessage::RemoveProject("x".into())), ProjectsAction::Remove(i) if i == "x"));
    s.project_removed(Ok(vec![]));
    assert!(s.projects.is_empty());
    assert!(matches!(s.update(ProjectsMessage::OpenFilePicker), ProjectsAction::PickFolder));
    s.update(ProjectsMessage::PathSelected(Some("/srv/p".into())));
    assert_eq!(s.new_path, "/srv/p");
    s.update(ProjectsMessage::PathSelected(None));
    assert_eq!(s.new_path, "/srv/p");
    assert!(matches!(s.update(ProjectsMessage::Refresh), ProjectsAction::LoadProjects));
}

#[test]
fn services_panel() {
    let mut s = ServicesState::new(ServiceStatus::Running, ServiceStatus::Stopped);
    assert_eq!(s.update(ServicesMessage::Refresh), ServicesAction::ReadStatuses);
    assert_eq!(
        s.update(ServicesMessage::Toggle("mariadb".into(), true)),
        ServicesAction::Toggle("mariadb".into(), true)
    );
    assert_eq!(s.update(ServicesMessage::Toggled("mariadb".into(), Err("denied".into()))), ServicesAction::Nothing);
    assert_eq!(s.error.as_deref(), Some("denied"));
    assert_eq!(
        s.update(ServicesMessage::Toggled("mariadb".into(), Ok(()))),
        ServicesAction::ReadStatus("mariadb".into())
    );
    assert!(s.error.is_none());
    assert_eq!(s.update(ServicesMessage::Toggled("postgresql".into(), Ok(()))), ServicesAction::Nothing);
    s.set_status("mariadb", ServiceStatus::Running);
    assert_eq!(s.mariadb_status, ServiceStatus::Running);
    s.set_status("nginx", ServiceStatus::Stopped);
    assert_eq!(s.apache_status, ServiceStatus::Running);
    s.refresh(ServiceStatus::NotInstalled, ServiceStatus::Unknown);
    assert_eq!((s.apache_status, s.mariadb_status), (ServiceStatus::NotInstalled, ServiceStatus::Unknown));
}

#[test]
fn app_routes_messages() {
    let mut app = App::new(
        ServicesState::new(ServiceStatus::Unknown, ServiceStatus::Unknown),
        ProjectsState::new(vec![]),
        fresh_db(),
    );
    assert_eq!(app.active_tab, Tab::Services);
    assert!(matches!(app.update(Message::TabSelected(Tab::Database)), AppAction::Nothing));
    assert_eq!(app.active_tab, Tab::Database);
    assert!(matches!(app.update(Message::RefreshServices), AppAction::Services(ServicesAction::ReadStatuses)));
    assert!(matches!(
        app.update(Message::Projects(ProjectsMessage::OpenFilePicker)),
        AppAction::Projects(ProjectsAction::PickFolder)
    ));
    assert!(matches!(
        app.update(Message::Database(DatabaseMessage::ImportSql)),
        AppAction::Database(DatabaseAction::PickImportFile)
    ));
}

#[test]
fn cloned_messages_keep_their_contents() {
    let users = vec![DbUser { username: "app".into(), host: "localhost".into() }];
    let msg = Message::Database(DatabaseMessage::Connected(vec!["shop".into()], users));
    match msg.clone() {
        Message::Database(DatabaseMessage::Connected(dbs, users)) => {
            assert_eq!(dbs, vec!["shop".to_string()]);
            assert_eq!(users.len(), 1);
            assert_eq!(users[0].username, "app");
            assert_eq!(users[0].host, "localhost");
        }
        other => panic!("unexpected clone: {other:?}"),
    }
    match ServicesMessage::Toggled("apache2".into(), Err("denied".into())).clone() {
        ServicesMessage::Toggled(name, Err(e)) => {
            assert_eq!(name, "apache2");
            assert_eq!(e, "denied");
        }
        other => panic!("unexpected clone: {other:?}"),
    }
    match ProjectsMessage::PathSelected(Some("/srv/site".into())).clone() {
        ProjectsMessage::PathSelected(Some(p)) => assert_eq!(p, "/srv/site"),
        other => panic!("unexpected clone: {other:?}"),
    }
}
