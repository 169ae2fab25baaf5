//! The database panel: connection form, database and account lists, and the
//! operations started from them.
use vstd::prelude::*;
use vstd::string::*;
use crate::database::{
    backup_database, change_user_password, create_database, create_user, creds_view, drop_database,
    drop_user, grant_privileges, plan_result_view, plan_view, rename_database, rename_user,
    save_db_connection, spec_backup_database, spec_change_user_password, spec_create_database,
    spec_create_user, spec_drop_database, spec_drop_user, spec_grant_privileges,
    spec_rename_database, spec_rename_user, spec_saved_connections, user_views, DbCredentials,
    DbEngine, DbUser, Invocation, InvocationView,
};
use crate::paths::{file_name, path_file_name};
use crate::setup::result_view;
use crate::text::{
    chars_of, concat2, concat3, concat4, concat5, concat7, ends_with, ends_with_text, same_text, string_from_range,
    trim, trim_ws, views,
};
use crate::ui::services::opt_text;

verus! {

broadcast use vstd::string::group_string_axioms;

// ---------------------------------------------------------------- import target name

/// A dump file name without its `.sql.gz`, `.sql`, `.gz` or `.dump` ending
/// (the first of these that it has).
pub open spec fn strip_dump_suffix(s: Seq<char>) -> Seq<char> {
    if ends_with(s, ".sql.gz"@) {
        s.take(s.len() - 7)
    } else if ends_with(s, ".sql"@) {
        s.take(s.len() - 4)
    } else if ends_with(s, ".gz"@) {
        s.take(s.len() - 3)
    } else if ends_with(s, ".dump"@) {
        s.take(s.len() - 5)
    } else {
        s
    }
}

/// The database a dump is imported into when none is named: the file name
/// without its dump ending, or `imported` when that leaves nothing.
pub open spec fn spec_derive_db_name(path: Seq<char>) -> Seq<char> {
    let stem = match path_file_name(path) {
        Some(f) => f,
        None => "imported"@,
    };
    let name = strip_dump_suffix(stem);
    if name.len() == 0 {
        "imported"@
    } else {
        name
    }
}

fn strip_dump_suffix_of(s: &str) -> (r: String)
    ensures
        r@ == strip_dump_suffix(s@),
{
    proof {
        reveal_strlit(".sql.gz");
        reveal_strlit(".sql");
        reveal_strlit(".gz");
        reveal_strlit(".dump");
    }
    let v = chars_of(s);
    if ends_with_text(s, ".sql.gz") {
        string_from_range(&v, 0, v.len() - 7)
    } else if ends_with_text(s, ".sql") {
        string_from_range(&v, 0, v.len() - 4)
    } else if ends_with_text(s, ".gz") {
        string_from_range(&v, 0, v.len() - 3)
    } else if ends_with_text(s, ".dump") {
        string_from_range(&v, 0, v.len() - 5)
    } else {
        String::from_str(s)
    }
}

pub fn derive_db_name(path: &str) -> (r: String)
    ensures
        r@ == spec_derive_db_name(path@),
{
    let stem = match file_name(path) {
        Some(f) => f,
        None => String::from_str("imported"),
    };
    let name = strip_dump_suffix_of(stem.as_str());
    if name.as_str().is_empty() {
        String::from_str("imported")
    } else {
        name
    }
}

// ---------------------------------------------------------------- state

/// Which list the panel shows.
#[derive(Debug, Clone, Copy, PartialEq, Eq, Structural)]
pub enum SubTab {
    Databases,
    Users,
}

/// What the database panel is asked to do.
#[derive(Debug)]
pub enum DatabaseMessage {
    EngineSelected(DbEngine),
    SavedConnectionSelected(usize),
    UserChanged(String),
    PasswordChanged(String),
    TogglePasswordVisibility,
    Connect,
    /// The databases and accounts a connection listed.
    Connected(Vec<String>, Vec<DbUser>),
    NewDbNameChanged(String),
    CreateDb,
    DropDb(String),
    EditDb(String),
    EditDbNameChanged(String),
    SaveDbEdit(String),
    CancelDbEdit,
    BackupDb(String),
    BackupPathSelected(String, Option<String>),
    RestoreDb(String),
    RestorePathSelected(String, Option<String>),
    ImportDbNameChanged(String),
    ImportSql,
    ImportPathSelected(Option<String>),
    CopyText(String),
    OpenAdminer,
    AdminerReady(Result<String, String>),
    /// A database operation ended.
    Done(Result<String, String>),
    SubTabSelected(SubTab),
    NewUserNameChanged(String),
    NewUserPasswordChanged(String),
    NewUserHostChanged(String),
    CreateUser,
    DropUser(String, String),
    EditUser(String, String),
    EditUserNameChanged(String),
    EditUserPasswordChanged(String),
    SaveUserEdit(String, String),
    CancelUserEdit,
    GrantPrivileges(String, String, String),
    /// An account operation ended.
    UserActionDone(Result<String, String>),
}

fn clone_result(r: &Result<String, String>) -> (c: Result<String, String>)
    ensures
        c == *r,
{
    match r {
        Ok(s) => Ok(s.clone()),
        Err(e) => Err(e.clone()),
    }
}

fn clone_opt(o: &Option<String>) -> (c: Option<String>)
    ensures
        c == *o,
{
    match o {
        Some(s) => Some(s.clone()),
        None => None,
    }
}

fn clone_names(v: &Vec<String>) -> (c: Vec<String>)
    ensures
        c@ == v@,
{
    let mut c: Vec<String> = Vec::new();
    for i in 0..v.len()
        invariant
            c@ == v@.take(i as int),
    {
        c.push(v[i].clone());
        assert(c@ =~= v@.take(i + 1));
    }
    assert(v@.take(v.len() as int) =~= v@);
    c
}

fn clone_users(v: &Vec<DbUser>) -> (c: Vec<DbUser>)
    ensures
        c@ == v@,
{
    let mut c: Vec<DbUser> = Vec::new();
    for i in 0..v.len()
        invariant
            c@ == v@.take(i as int),
    {
        c.push(v[i].duplicate());
        assert(c@ =~= v@.take(i + 1));
    }
    assert(v@.take(v.len() as int) =~= v@);
    c
}

/// `b` is a copy of `a`: the same message, its lists holding the same items.
pub open spec fn same_message(a: DatabaseMessage, b: DatabaseMessage) -> bool {
    match a {
        DatabaseMessage::Connected(dbs, users) => {
            &&& b matches DatabaseMessage::Connected(dbs2, users2)
            &&& dbs2@ == dbs@
            &&& users2@ == users@
        },
        _ => b == a,
    }
}

impl Clone for DatabaseMessage {
    fn clone(&self) -> (r: Self)
        ensures
            same_message(*self, r),
    {
        match self {
            DatabaseMessage::EngineSelected(a0) => DatabaseMessage::EngineSelected(*a0),
            DatabaseMessage::SavedConnectionSelected(a0) => DatabaseMessage::SavedConnectionSelected(*a0),
            DatabaseMessage::UserChanged(a0) => DatabaseMessage::UserChanged(a0.clone()),
            DatabaseMessage::PasswordChanged(a0) => DatabaseMessage::PasswordChanged(a0.clone()),
            DatabaseMessage::TogglePasswordVisibility => DatabaseMessage::TogglePasswordVisibility,
            DatabaseMessage::Connect => DatabaseMessage::Connect,
            DatabaseMessage::Connected(a0, a1) => DatabaseMessage::Connected(clone_names(a0), clone_users(a1)),
            DatabaseMessage::NewDbNameChanged(a0) => DatabaseMessage::NewDbNameChanged(a0.clone()),
            DatabaseMessage::CreateDb => DatabaseMessage::CreateDb,
            DatabaseMessage::DropDb(a0) => DatabaseMessage::DropDb(a0.clone()),
            DatabaseMessage::EditDb(a0) => DatabaseMessage::EditDb(a0.clone()),
            DatabaseMessage::EditDbNameChanged(a0) => DatabaseMessage::EditDbNameChanged(a0.clone()),
            DatabaseMessage::SaveDbEdit(a0) => DatabaseMessage::SaveDbEdit(a0.clone()),
            DatabaseMessage::CancelDbEdit => DatabaseMessage::CancelDbEdit,
            DatabaseMessage::BackupDb(a0) => DatabaseMessage::BackupDb(a0.clone()),
            DatabaseMessage::BackupPathSelected(a0, a1) => DatabaseMessage::BackupPathSelected(a0.clone(), clone_opt(a1)),
            DatabaseMessage::RestoreDb(a0) => DatabaseMessage::RestoreDb(a0.clone()),
            DatabaseMessage::RestorePathSelected(a0, a1) => DatabaseMessage::RestorePathSelected(a0.clone(), clone_opt(a1)),
            DatabaseMessage::ImportDbNameChanged(a0) => DatabaseMessage::ImportDbNameChanged(a0.clone()),
            DatabaseMessage::ImportSql => DatabaseMessage::ImportSql,
            DatabaseMessage::ImportPathSelected(a0) => DatabaseMessage::ImportPathSelected(clone_opt(a0)),
            DatabaseMessage::CopyText(a0) => DatabaseMessage::CopyText(a0.clone()),
            DatabaseMessage::OpenAdminer => DatabaseMessage::OpenAdminer,
            DatabaseMessage::AdminerReady(a0) => DatabaseMessage::AdminerReady(clone_result(a0)),
            DatabaseMessage::Done(a0) => DatabaseMessage::Done(clone_result(a0)),
            DatabaseMessage::SubTabSelected(a0) => DatabaseMessage::SubTabSelected(*a0),
            DatabaseMessage::NewUserNameChanged(a0) => DatabaseMessage::NewUserNameChanged(a0.clone()),
            DatabaseMessage::NewUserPasswordChanged(a0) => DatabaseMessage::NewUserPasswordChanged(a0.clone()),
            DatabaseMessage::NewUserHostChanged(a0) => DatabaseMessage::NewUserHostChanged(a0.clone()),
            DatabaseMessage::CreateUser => DatabaseMessage::CreateUser,
            DatabaseMessage::DropUser(a0, a1) => DatabaseMessage::DropUser(a0.clone(), a1.clone()),
            DatabaseMessage::EditUser(a0, a1) => DatabaseMessage::EditUser(a0.clone(), a1.clone()),
            DatabaseMessage::EditUserNameChanged(a0) => DatabaseMessage::EditUserNameChanged(a0.clone()),
            DatabaseMessage::EditUserPasswordChanged(a0) => DatabaseMessage::EditUserPasswordChanged(a0.clone()),
            DatabaseMessage::SaveUserEdit(a0, a1) => DatabaseMessage::SaveUserEdit(a0.clone(), a1.clone()),
            DatabaseMessage::CancelUserEdit => DatabaseMessage::CancelUserEdit,
            DatabaseMessage::GrantPrivileges(a0, a1, a2) => DatabaseMessage::GrantPrivileges(a0.clone(), a1.clone(), a2.clone()),
            DatabaseMessage::UserActionDone(a0) => DatabaseMessage::UserActionDone(clone_result(a0)),
        }
    }
}

/// Which message reports how a run of client programs ended.
#[derive(Debug, Clone, Copy, PartialEq, Eq, Structural)]
pub enum ReplyWith {
    Done,
    UserActionDone,
}

/// Outside work the panel asks for.
#[derive(Debug)]
pub enum DatabaseAction {
    Nothing,
    /// List the databases and accounts (`list_databases`, `list_users`) and
    /// send `Connected`.
    Connect { engine: DbEngine, user: String, password: String },
    /// Store this list of connections, then hand it to `set_saved_connections`.
    SaveConnections(Vec<DbCredentials>),
    /// Run the client programs in order, stopping at the first that fails
    /// (`Err`: fail at once with that message), and reply with `success` or
    /// with the error.
    Run { plan: Result<Vec<Invocation>, String>, success: String, reply: ReplyWith },
    /// Ask where to save a backup of this database; send `BackupPathSelected`.
    PickBackupPath(String),
    /// Run the dump and write its output to `path`; reply with `Done`.
    Backup { dump: Invocation, path: String, success: String },
    /// Ask for a dump file to restore into this database; send `RestorePathSelected`.
    PickRestoreFile(String),
    /// Ask for a dump file to import; send `ImportPathSelected`.
    PickImportFile,
    /// Import the dump (`import_sql`); reply with `Done`.
    Import {
        engine: DbEngine,
        user: String,
        password: String,
        db_name: String,
        path: String,
        create_db: bool,
        success: String,
    },
    CopyText(String),
    /// Make sure the Adminer site exists; send `AdminerReady`.
    PrepareAdminer,
    OpenUrl(String),
    /// List the databases again and hand the names to `set_databases`.
    ReloadDatabases { engine: DbEngine, user: String, password: String },
    /// List the accounts again and hand them to `set_users`.
    ReloadUsers { engine: DbEngine, user: String, password: String },
}

/// The panel's state.
#[derive(Debug)]
pub struct DatabaseState {
    pub engine: DbEngine,
    pub user: String,
    pub password: String,
    pub saved_connections: Vec<DbCredentials>,
    pub show_password: bool,
    pub databases: Vec<String>,
    pub db_users: Vec<DbUser>,
    pub new_db_name: String,
    pub import_db_name: String,
    pub connected: bool,
    pub status: Option<Result<String, String>>,
    pub editing_db: Option<String>,
    pub edit_db_name: String,
    pub subtab: SubTab,
    pub new_user_name: String,
    pub new_user_password: String,
    pub new_user_host: String,
    pub editing_user: Option<(String, String)>,
    pub edit_user_name: String,
    pub edit_user_password: String,
    pub user_status: Option<Result<String, String>>,
}

/// The panel's state as values.
pub struct DatabaseModel {
    pub engine: DbEngine,
    pub user: Seq<char>,
    pub password: Seq<char>,
    pub saved_connections: Seq<(DbEngine, Seq<char>, Seq<char>)>,
    pub show_password: bool,
    pub databases: Seq<Seq<char>>,
    pub db_users: Seq<(Seq<char>, Seq<char>)>,
    pub new_db_name: Seq<char>,
    pub import_db_name: Seq<char>,
    pub connected: bool,
    pub status: Option<Result<Seq<char>, Seq<char>>>,
    pub editing_db: Option<Seq<char>>,
    pub edit_db_name: Seq<char>,
    pub subtab: SubTab,
    pub new_user_name: Seq<char>,
    pub new_user_password: Seq<char>,
    pub new_user_host: Seq<char>,
    pub editing_user: Option<(Seq<char>, Seq<char>)>,
    pub edit_user_name: Seq<char>,
    pub edit_user_password: Seq<char>,
    pub user_status: Option<Result<Seq<char>, Seq<char>>>,
}

pub open spec fn status_view(o: Option<Result<String, String>>) -> Option<Result<Seq<char>, Seq<char>>> {
    match o {
        Some(r) => Some(result_view(r)),
        None => None,
    }
}

pub open spec fn pair_view(o: Option<(String, String)>) -> Option<(Seq<char>, Seq<char>)> {
    match o {
        Some(p) => Some((p.0@, p.1@)),
        None => None,
    }
}

impl View for DatabaseState {
    type V = DatabaseModel;

    open spec fn view(&self) -> DatabaseModel {
        DatabaseModel {
            engine: self.engine,
            user: self.user@,
            password: self.password@,
            saved_connections: creds_view(self.saved_connections@),
            show_password: self.show_password,
            databases: views(self.databases@),
            db_users: user_views(self.db_users@),
            new_db_name: self.new_db_name@,
            import_db_name: self.import_db_name@,
            connected: self.connected,
            status: status_view(self.status),
            editing_db: opt_text(self.editing_db),
            edit_db_name: self.edit_db_name@,
            subtab: self.subtab,
            new_user_name: self.new_user_name@,
            new_user_password: self.new_user_password@,
            new_user_host: self.new_user_host@,
            editing_user: pair_view(self.editing_user),
            edit_user_name: self.edit_user_name@,
            edit_user_password: self.edit_user_password@,
            user_status: status_view(self.user_status),
        }
    }
}

/// The outside work an answer asks for, as values.
pub enum ActionModel {
    Nothing,
    Connect(DbEngine, Seq<char>, Seq<char>),
    SaveConnections(Seq<(DbEngine, Seq<char>, Seq<char>)>),
    Run(Result<Seq<InvocationView>, Seq<char>>, Seq<char>, ReplyWith),
    PickBackupPath(Seq<char>),
    Backup(InvocationView, Seq<char>, Seq<char>),
    PickRestoreFile(Seq<char>),
    PickImportFile,
    Import(DbEngine, Seq<char>, Seq<char>, Seq<char>, Seq<char>, bool, Seq<char>),
    CopyText(Seq<char>),
    PrepareAdminer,
    OpenUrl(Seq<char>),
    ReloadDatabases(DbEngine, Seq<char>, Seq<char>),
    ReloadUsers(DbEngine, Seq<char>, Seq<char>),
}

impl View for DatabaseAction {
    type V = ActionModel;

    open spec fn view(&self) -> ActionModel {
        match self {
            DatabaseAction::Nothing => ActionModel::Nothing,
            DatabaseAction::Connect { engine, user, password } => ActionModel::Connect(
                *engine,
                user@,
                password@,
            ),
            DatabaseAction::SaveConnections(list) => ActionModel::SaveConnections(
                creds_view(list@),
            ),
            DatabaseAction::Run { plan, success, reply } => ActionModel::Run(
                plan_result_view(*plan),
                success@,
                *reply,
            ),
            DatabaseAction::PickBackupPath(n) => ActionModel::PickBackupPath(n@),
            DatabaseAction::Backup { dump, path, success } => ActionModel::Backup(
                dump@,
                path@,
                success@,
            ),
            DatabaseAction::PickRestoreFile(n) => ActionModel::PickRestoreFile(n@),
            DatabaseAction::PickImportFile => ActionModel::PickImportFile,
            DatabaseAction::Import {
                engine,
                user,
                password,
                db_name,
                path,
                create_db,
                success,
            } => ActionModel::Import(
                *engine,
                user@,
                password@,
                db_name@,
                path@,
                *create_db,
                success@,
            ),
            DatabaseAction::CopyText(s) => ActionModel::CopyText(s@),
            DatabaseAction::PrepareAdminer => ActionModel::PrepareAdminer,
            DatabaseAction::OpenUrl(u) => ActionModel::OpenUrl(u@),
            DatabaseAction::ReloadDatabases { engine, user, password } => ActionModel::ReloadDatabases(
                *engine,
                user@,
                password@,
            ),
            DatabaseAction::ReloadUsers { engine, user, password } => ActionModel::ReloadUsers(
                *engine,
                user@,
                password@,
            ),
        }
    }
}

// ---------------------------------------------------------------- transitions

/// The default host of a new account: `local` for PostgreSQL, else `localhost`.
pub open spec fn default_host(engine: DbEngine) -> Seq<char> {
    if engine == DbEngine::PostgreSql {
        "local"@
    } else {
        "localhost"@
    }
}

/// The user name after switching engines: the stock administrator follows the
/// engine (`root` for MariaDB, `postgres` for PostgreSQL); any other name stays.
pub open spec fn user_for_engine(user: Seq<char>, engine: DbEngine) -> Seq<char> {
    if user == "root"@ && engine == DbEngine::PostgreSql {
        "postgres"@
    } else if user == "postgres"@ && engine == DbEngine::MariaDb {
        "root"@
    } else {
        user
    }
}

/// A connection listed something.
pub open spec fn connection_ok(dbs: Seq<String>, users: Seq<DbUser>) -> bool {
    dbs.len() > 0 || users.len() > 0
}

/// The import target: the typed name, trimmed, or else one derived from the file.
pub open spec fn import_target(m: DatabaseModel, path: Seq<char>) -> Seq<char> {
    if trim(m.import_db_name).len() == 0 {
        spec_derive_db_name(path)
    } else {
        trim(m.import_db_name)
    }
}

/// The runs an account edit makes: a rename when the name changed, then a
/// password change (under the new name) when a password was typed.
pub open spec fn user_edit_plan(
    m: DatabaseModel,
    target: Seq<char>,
    host: Seq<char>,
    new_user: Seq<char>,
) -> Seq<InvocationView> {
    (if new_user != target {
        spec_rename_user(m.engine, m.user, m.password, target, host, new_user)
    } else {
        Seq::<InvocationView>::empty()
    }) + (if m.edit_user_password.len() > 0 {
        spec_change_user_password(
            m.engine,
            m.user,
            m.password,
            new_user,
            host,
            m.edit_user_password,
        )
    } else {
        Seq::<InvocationView>::empty()
    })
}

/// The state after a message.
pub open spec fn next_model(m: DatabaseModel, msg: DatabaseMessage) -> DatabaseModel {
    match msg {
        DatabaseMessage::EngineSelected(e) => DatabaseModel {
            engine: e,
            connected: false,
            databases: Seq::empty(),
            db_users: Seq::empty(),
            status: None,
            user: user_for_engine(m.user, e),
            new_user_host: default_host(e),
            ..m
        },
        DatabaseMessage::SavedConnectionSelected(i) => if i < m.saved_connections.len() {
            let c = m.saved_connections[i as int];
            DatabaseModel {
                engine: c.0,
                user: c.1,
                password: c.2,
                connected: false,
                databases: Seq::empty(),
                db_users: Seq::empty(),
                status: Some(Ok("저장된 연결 선택: "@ + c.0.spec_label() + " / "@ + c.1)),
                new_user_host: default_host(c.0),
                ..m
            }
        } else {
            m
        },
        DatabaseMessage::UserChanged(v) => DatabaseModel { user: v@, ..m },
        DatabaseMessage::PasswordChanged(v) => DatabaseModel { password: v@, ..m },
        DatabaseMessage::TogglePasswordVisibility => DatabaseModel {
            show_password: !m.show_password,
            ..m
        },
        DatabaseMessage::Connected(dbs, users) => DatabaseModel {
            connected: connection_ok(dbs@, users@),
            databases: views(dbs@),
            db_users: user_views(users@),
            status: Some(
                if connection_ok(dbs@, users@) {
                    Ok("연결 성공 (접속 목록에 저장됨)"@)
                } else {
                    Err("연결 실패 또는 DB 없음"@)
                },
            ),
            ..m
        },
        DatabaseMessage::NewDbNameChanged(v) => DatabaseModel { new_db_name: v@, ..m },
        DatabaseMessage::CreateDb => DatabaseModel { new_db_name: Seq::empty(), ..m },
        DatabaseMessage::EditDb(n) => DatabaseModel {
            editing_db: Some(n@),
            edit_db_name: n@,
            ..m
        },
        DatabaseMessage::EditDbNameChanged(v) => DatabaseModel { edit_db_name: v@, ..m },
        DatabaseMessage::SaveDbEdit(_) => if trim(m.edit_db_name).len() == 0 {
            DatabaseModel { status: Some(Err("새 DB 이름을 입력하세요."@)), ..m }
        } else {
            DatabaseModel { editing_db: None, edit_db_name: Seq::empty(), ..m }
        },
        DatabaseMessage::CancelDbEdit => DatabaseModel {
            editing_db: None,
            edit_db_name: Seq::empty(),
            ..m
        },
        DatabaseMessage::ImportDbNameChanged(v) => DatabaseModel { import_db_name: v@, ..m },
        DatabaseMessage::OpenAdminer => DatabaseModel {
            status: Some(Ok("Adminer 준비 중..."@)),
            ..m
        },
        DatabaseMessage::AdminerReady(r) => DatabaseModel {
            status: Some(
                match r {
                    Ok(url) => Ok("Adminer 열림: "@ + url@),
                    Err(e) => Err(e@),
                },
            ),
            ..m
        },
        DatabaseMessage::Done(r) => DatabaseModel {
            status: Some(result_view(r)),
            import_db_name: if r is Ok {
                Seq::empty()
            } else {
                m.import_db_name
            },
            ..m
        },
        DatabaseMessage::SubTabSelected(t) => DatabaseModel { subtab: t, ..m },
        DatabaseMessage::NewUserNameChanged(v) => DatabaseModel { new_user_name: v@, ..m },
        DatabaseMessage::NewUserPasswordChanged(v) => DatabaseModel { new_user_password: v@, ..m },
        DatabaseMessage::NewUserHostChanged(v) => DatabaseModel { new_user_host: v@, ..m },
        DatabaseMessage::CreateUser => if m.new_user_name.len() == 0 || m.new_user_password.len()
            == 0 {
            DatabaseModel { user_status: Some(Err("사용자명과 비밀번호를 입력하세요."@)), ..m }
        } else {
            DatabaseModel { new_user_name: Seq::empty(), new_user_password: Seq::empty(), ..m }
        },
        DatabaseMessage::EditUser(t, h) => DatabaseModel {
            editing_user: Some((t@, h@)),
            edit_user_name: t@,
            edit_user_password: Seq::empty(),
            ..m
        },
        DatabaseMessage::EditUserNameChanged(v) => DatabaseModel { edit_user_name: v@, ..m },
        DatabaseMessage::EditUserPasswordChanged(v) => DatabaseModel {
            edit_user_password: v@,
            ..m
        },
        DatabaseMessage::SaveUserEdit(_, _) => if trim(m.edit_user_name).len() == 0 {
            DatabaseModel { user_status: Some(Err("새 사용자명을 입력하세요."@)), ..m }
        } else {
            DatabaseModel {
                editing_user: None,
                edit_user_name: Seq::empty(),
                edit_user_password: Seq::empty(),
                ..m
            }
        },
        DatabaseMessage::CancelUserEdit => DatabaseModel {
            editing_user: None,
            edit_user_name: Seq::empty(),
            edit_user_password: Seq::empty(),
            ..m
        },
        DatabaseMessage::UserActionDone(r) => DatabaseModel {
            user_status: Some(result_view(r)),
            ..m
        },
        _ => m,
    }
}

/// The outside work a message asks for.
pub open spec fn next_action(m: DatabaseModel, msg: DatabaseMessage) -> ActionModel {
    match msg {
        DatabaseMessage::Connect => ActionModel::Connect(m.engine, m.user, m.password),
        DatabaseMessage::Connected(dbs, users) => if connection_ok(dbs@, users@) {
            ActionModel::SaveConnections(
                spec_saved_connections(m.saved_connections, m.engine, m.user, m.password),
            )
        } else {
            ActionModel::Nothing
        },
        DatabaseMessage::CreateDb => ActionModel::Run(
            Ok(spec_create_database(m.engine, m.user, m.password, m.new_db_name)),
            "'"@ + m.new_db_name + "' 생성 완료"@,
            ReplyWith::Done,
        ),
        DatabaseMessage::DropDb(n) => ActionModel::Run(
            Ok(spec_drop_database(m.engine, m.user, m.password, n@)),
            "'"@ + n@ + "' 삭제 완료"@,
            ReplyWith::Done,
        ),
        DatabaseMessage::SaveDbEdit(old) => if trim(m.edit_db_name).len() == 0 {
            ActionModel::Nothing
        } else {
            ActionModel::Run(
                spec_rename_database(m.engine, m.user, m.password, old@, trim(m.edit_db_name)),
                "'"@ + old@ + "' → '"@ + trim(m.edit_db_name) + "' 이름 변경 완료"@,
                ReplyWith::Done,
            )
        },
        DatabaseMessage::BackupDb(n) => ActionModel::PickBackupPath(n@),
        DatabaseMessage::BackupPathSelected(n, p) => match p {
            Some(p) => ActionModel::Backup(
                spec_backup_database(m.engine, m.user, m.password, n@),
                p@,
                "백업 완료: "@ + p@,
            ),
            None => ActionModel::Nothing,
        },
        DatabaseMessage::RestoreDb(n) => ActionModel::PickRestoreFile(n@),
        DatabaseMessage::RestorePathSelected(n, p) => match p {
            Some(p) => ActionModel::Import(
                m.engine,
                m.user,
                m.password,
                n@,
                p@,
                false,
                "복원 완료: "@ + n@,
            ),
            None => ActionModel::Nothing,
        },
        DatabaseMessage::ImportSql => ActionModel::PickImportFile,
        DatabaseMessage::ImportPathSelected(p) => match p {
            Some(p) => ActionModel::Import(
                m.engine,
                m.user,
                m.password,
                import_target(m, p@),
                p@,
                true,
                "가져오기 완료: "@ + import_target(m, p@) + " ← "@ + p@,
            ),
            None => ActionModel::Nothing,
        },
        DatabaseMessage::CopyText(s) => ActionModel::CopyText(s@),
        DatabaseMessage::OpenAdminer => ActionModel::PrepareAdminer,
        DatabaseMessage::AdminerReady(r) => match r {
            Ok(url) => ActionModel::OpenUrl(url@),
            Err(_) => ActionModel::Nothing,
        },
        DatabaseMessage::Done(r) => if r is Ok {
            ActionModel::ReloadDatabases(m.engine, m.user, m.password)
        } else {
            ActionModel::Nothing
        },
        DatabaseMessage::CreateUser => if m.new_user_name.len() == 0 || m.new_user_password.len()
            == 0 {
            ActionModel::Nothing
        } else {
            ActionModel::Run(
                Ok(
                    spec_create_user(
                        m.engine,
                        m.user,
                        m.password,
                        m.new_user_name,
                        m.new_user_password,
                        m.new_user_host,
                    ),
                ),
                "'"@ + m.new_user_name + "'@'"@ + m.new_user_host + "' 생성 완료"@,
                ReplyWith::UserActionDone,
            )
        },
        DatabaseMessage::DropUser(t, h) => ActionModel::Run(
            Ok(spec_drop_user(m.engine, m.user, m.password, t@, h@)),
            "'"@ + t@ + "'@'"@ + h@ + "' 삭제 완료"@,
            ReplyWith::UserActionDone,
        ),
        DatabaseMessage::SaveUserEdit(t, h) => if trim(m.edit_user_name).len() == 0 {
            ActionModel::Nothing
        } else {
            ActionModel::Run(
                Ok(user_edit_plan(m, t@, h@, trim(m.edit_user_name))),
                "'"@ + t@ + "' 사용자 편집 완료"@,
                ReplyWith::UserActionDone,
            )
        },
        DatabaseMessage::GrantPrivileges(t, h, d) => ActionModel::Run(
            Ok(spec_grant_privileges(m.engine, m.user, m.password, t@, h@, d@)),
            "'"@ + t@ + "'@'"@ + h@ + "' → "@ + d@ + " 권한 부여 완료"@,
            ReplyWith::UserActionDone,
        ),
        DatabaseMessage::UserActionDone(r) => if r is Ok {
            ActionModel::ReloadUsers(m.engine, m.user, m.password)
        } else {
            ActionModel::Nothing
        },
        _ => ActionModel::Nothing,
    }
}

/// The saved connection the panel starts from: the first saved one when it
/// names a user, else MariaDB's `root` with no password.
pub open spec fn start_login(saved: Seq<(DbEngine, Seq<char>, Seq<char>)>) -> (
    DbEngine,
    Seq<char>,
    Seq<char>,
) {
    if saved.len() > 0 && saved[0].1.len() > 0 {
        saved[0]
    } else {
        (DbEngine::MariaDb, "root"@, Seq::empty())
    }
}

/// The panel as it starts over the saved connections.
pub open spec fn initial_model(saved: Seq<(DbEngine, Seq<char>, Seq<char>)>) -> DatabaseModel {
    DatabaseModel {
        engine: start_login(saved).0,
        user: start_login(saved).1,
        password: start_login(saved).2,
        saved_connections: saved,
        show_password: false,
        databases: Seq::empty(),
        db_users: Seq::empty(),
        new_db_name: Seq::empty(),
        import_db_name: Seq::empty(),
        connected: false,
        status: None,
        editing_db: None,
        edit_db_name: Seq::empty(),
        subtab: SubTab::Databases,
        new_user_name: Seq::empty(),
        new_user_password: Seq::empty(),
        new_user_host: "localhost"@,
        editing_user: None,
        edit_user_name: Seq::empty(),
        edit_user_password: Seq::empty(),
        user_status: None,
    }
}

/// A saved login is connected to at once.
pub open spec fn initial_action(saved: Seq<(DbEngine, Seq<char>, Seq<char>)>) -> ActionModel {
    if saved.len() > 0 && saved[0].1.len() > 0 {
        ActionModel::Connect(saved[0].0, saved[0].1, saved[0].2)
    } else {
        ActionModel::Nothing
    }
}

fn empty_strings() -> (r: Vec<String>)
    ensures
        views(r@) == Seq::<Seq<char>>::empty(),
{
    let v: Vec<String> = Vec::new();
    assert(views(v@) =~= Seq::<Seq<char>>::empty());
    v
}

fn empty_users() -> (r: Vec<DbUser>)
    ensures
        user_views(r@) == Seq::<(Seq<char>, Seq<char>)>::empty(),
{
    let v: Vec<DbUser> = Vec::new();
    assert(user_views(v@) =~= Seq::<(Seq<char>, Seq<char>)>::empty());
    v
}

fn default_host_of(engine: DbEngine) -> (r: String)
    ensures
        r@ == default_host(engine),
{
    if engine == DbEngine::PostgreSql {
        String::from_str("local")
    } else {
        String::from_str("localhost")
    }
}

fn join_plans(a: Vec<Invocation>, b: Vec<Invocation>) -> (r: Vec<Invocation>)
    ensures
        plan_view(r@) == plan_view(a@) + plan_view(b@),
{
    let mut a = a;
    let mut b = b;
    let ghost pa = plan_view(a@);
    let ghost pb = plan_view(b@);
    let ghost sa = a@;
    let ghost sb = b@;
    a.append(&mut b);
    assert(a@ == sa + sb);
    assert(plan_view(a@) =~= pa + pb);
    a
}

impl DatabaseState {
    /// The panel over the saved connections, and the connection to make at once
    /// when the first of them names a user.
    pub fn new(saved: Vec<DbCredentials>) -> (r: (Self, DatabaseAction))
        ensures
            r.0@ == initial_model(creds_view(saved@)),
            r.1@ == initial_action(creds_view(saved@)),
    {
        let ghost sv = creds_view(saved@);
        let mut engine = DbEngine::MariaDb;
        let mut user = String::from_str("root");
        let mut password = String::new();
        let mut autoconnect = false;
        if saved.len() > 0 && !saved[0].user.as_str().is_empty() {
            engine = saved[0].engine;
            user = saved[0].user.clone();
            password = saved[0].password.clone();
            autoconnect = true;
        }
        let action = if autoconnect {
            DatabaseAction::Connect {
                engine,
                user: user.clone(),
                password: password.clone(),
            }
        } else {
            DatabaseAction::Nothing
        };
        let state = DatabaseState {
            engine,
            user,
            password,
            saved_connections: saved,
            show_password: false,
            databases: empty_strings(),
            db_users: empty_users(),
            new_db_name: String::new(),
            import_db_name: String::new(),
            connected: false,
            status: None,
            editing_db: None,
            edit_db_name: String::new(),
            subtab: SubTab::Databases,
            new_user_name: String::new(),
            new_user_password: String::new(),
            new_user_host: String::from_str("localhost"),
            editing_user: None,
            edit_user_name: String::new(),
            edit_user_password: String::new(),
            user_status: None,
        };
        (state, action)
    }

    /// Takes in the stored list of connections.
    pub fn set_saved_connections(&mut self, list: Vec<DbCredentials>)
        ensures
            final(self)@ == (DatabaseModel { saved_connections: creds_view(list@), ..old(self)@ }),
    {
        self.saved_connections = list;
    }

    /// Takes in a fresh list of database names.
    pub fn set_databases(&mut self, names: Vec<String>)
        ensures
            final(self)@ == (DatabaseModel { databases: views(names@), ..old(self)@ }),
    {
        self.databases = names;
    }

    /// Takes in a fresh list of accounts.
    pub fn set_users(&mut self, users: Vec<DbUser>)
        ensures
            final(self)@ == (DatabaseModel { db_users: user_views(users@), ..old(self)@ }),
    {
        self.db_users = users;
    }

    fn login(&self) -> (r: (DbEngine, String, String))
        ensures
            r.0 == self.engine,
            r.1@ == self.user@,
            r.2@ == self.password@,
    {
        (self.engine, self.user.clone(), self.password.clone())
    }

    /// Answers a message (see `next_model` and `next_action`).
    pub fn update(&mut self, msg: DatabaseMessage) -> (r: DatabaseAction)
        ensures
            final(self)@ == next_model(old(self)@, msg),
            r@ == next_action(old(self)@, msg),
    {
        match msg {
            DatabaseMessage::EngineSelected(engine) => self.on_engine_selected(engine),
            DatabaseMessage::SavedConnectionSelected(index) => self.on_saved_connection_selected(index),
            DatabaseMessage::UserChanged(v) => self.on_user_changed(v),
            DatabaseMessage::PasswordChanged(v) => self.on_password_changed(v),
            DatabaseMessage::TogglePasswordVisibility => self.on_toggle_password_visibility(),
            DatabaseMessage::Connect => self.on_connect(),
            DatabaseMessage::Connected(dbs, users) => self.on_connected(dbs, users),
            DatabaseMessage::NewDbNameChanged(v) => self.on_new_db_name_changed(v),
            DatabaseMessage::CreateDb => self.on_create_db(),
            DatabaseMessage::DropDb(name) => self.on_drop_db(name),
            DatabaseMessage::EditDb(name) => self.on_edit_db(name),
            DatabaseMessage::EditDbNameChanged(v) => self.on_edit_db_name_changed(v),
            DatabaseMessage::SaveDbEdit(old_name) => self.on_save_db_edit(old_name),
            DatabaseMessage::CancelDbEdit => self.on_cancel_db_edit(),
            DatabaseMessage::BackupDb(name) => self.on_backup_db(name),
            DatabaseMessage::BackupPathSelected(name, path) => self.on_backup_path_selected(name, path),
            DatabaseMessage::RestoreDb(name) => self.on_restore_db(name),
            DatabaseMessage::RestorePathSelected(name, path) => self.on_restore_path_selected(name, path),
            DatabaseMessage::ImportDbNameChanged(v) => self.on_import_db_name_changed(v),
            DatabaseMessage::ImportSql => self.on_import_sql(),
            DatabaseMessage::ImportPathSelected(path) => self.on_import_path_selected(path),
            DatabaseMessage::CopyText(s) => self.on_copy_text(s),
            DatabaseMessage::OpenAdminer => self.on_open_adminer(),
            DatabaseMessage::AdminerReady(result) => self.on_adminer_ready(result),
            DatabaseMessage::Done(result) => self.on_done(result),
            DatabaseMessage::SubTabSelected(t) => self.on_sub_tab_selected(t),
            DatabaseMessage::NewUserNameChanged(v) => self.on_new_user_name_changed(v),
            DatabaseMessage::NewUserPasswordChanged(v) => self.on_new_user_password_changed(v),
            DatabaseMessage::NewUserHostChanged(v) => self.on_new_user_host_changed(v),
            DatabaseMessage::CreateUser => self.on_create_user(),
            DatabaseMessage::DropUser(target, host) => self.on_drop_user(target, host),
            DatabaseMessage::EditUser(target, host) => self.on_edit_user(target, host),
            DatabaseMessage::EditUserNameChanged(v) => self.on_edit_user_name_changed(v),
            DatabaseMessage::EditUserPasswordChanged(v) => self.on_edit_user_password_changed(v),
            DatabaseMessage::SaveUserEdit(target, host) => self.on_save_user_edit(target, host),
            DatabaseMessage::CancelUserEdit => self.on_cancel_user_edit(),
            DatabaseMessage::GrantPrivileges(target, host, db) => self.on_grant_privileges(target, host, db),
            DatabaseMessage::UserActionDone(result) => self.on_user_action_done(result),
        }
    }

    fn on_engine_selected(&mut self, engine: DbEngine) -> (r: DatabaseAction)
        ensures
            final(self)@ == next_model(old(self)@, DatabaseMessage::EngineSelected(engine)),
            r@ == next_action(old(self)@, DatabaseMessage::EngineSelected(engine)),
    {
        self.engine = engine;
        self.connected = false;
        self.databases = empty_strings();
        self.db_users = empty_users();
        self.status = None;
        if engine == DbEngine::PostgreSql && same_text(self.user.as_str(), "root") {
            self.user = String::from_str("postgres");
        } else if engine == DbEngine::MariaDb && same_text(self.user.as_str(), "postgres") {
            self.user = String::from_str("root");
        }
        self.new_user_host = default_host_of(engine);
        DatabaseAction::Nothing
    }

    fn on_saved_connection_selected(&mut self, index: usize) -> (r: DatabaseAction)
        ensures
            final(self)@ == next_model(old(self)@, DatabaseMessage::SavedConnectionSelected(index)),
            r@ == next_action(old(self)@, DatabaseMessage::SavedConnectionSelected(index)),
    {
        if index < self.saved_connections.len() {
            let saved = self.saved_connections[index].duplicate();
            self.engine = saved.engine;
            self.connected = false;
            self.databases = empty_strings();
            self.db_users = empty_users();
            self.status = Some(
                Ok(
                    concat4("저장된 연결 선택: ", saved.engine.label(), " / ", saved.user.as_str()),
                ),
            );
            self.user = saved.user;
            self.password = saved.password;
            self.new_user_host = default_host_of(saved.engine);
        }
        DatabaseAction::Nothing
    }

    fn on_user_changed(&mut self, v: String) -> (r: DatabaseAction)
        ensures
            final(self)@ == next_model(old(self)@, DatabaseMessage::UserChanged(v)),
            r@ == next_action(old(self)@, DatabaseMessage::UserChanged(v)),
    {
        self.user = v;
        DatabaseAction::Nothing
    }

    fn on_password_changed(&mut self, v: String) -> (r: DatabaseAction)
        ensures
            final(self)@ == next_model(old(self)@, DatabaseMessage::PasswordChanged(v)),
            r@ == next_action(old(self)@, DatabaseMessage::PasswordChanged(v)),
    {
        self.password = v;
        DatabaseAction::Nothing
    }

    fn on_toggle_password_visibility(&mut self) -> (r: DatabaseAction)
        ensures
            final(self)@ == next_model(old(self)@, DatabaseMessage::TogglePasswordVisibility),
            r@ == next_action(old(self)@, DatabaseMessage::TogglePasswordVisibility),
    {
        self.show_password = !self.show_password;
        DatabaseAction::Nothing
    }

    fn on_connect(&mut self) -> (r: DatabaseAction)
        ensures
            final(self)@ == next_model(old(self)@, DatabaseMessage::Connect),
            r@ == next_action(old(self)@, DatabaseMessage::Connect),
    {
        let (engine, user, password) = self.login();
        DatabaseAction::Connect { engine, user, password }
    }

    fn on_connected(&mut self, dbs: Vec<String>, users: Vec<DbUser>) -> (r: DatabaseAction)
        ensures
            final(self)@ == next_model(old(self)@, DatabaseMessage::Connected(dbs, users)),
            r@ == next_action(old(self)@, DatabaseMessage::Connected(dbs, users)),
    {
        let ok = dbs.len() > 0 || users.len() > 0;
        self.connected = ok;
        self.databases = dbs;
        self.db_users = users;
        if ok {
            self.status = Some(Ok(String::from_str("연결 성공 (접속 목록에 저장됨)")));
            DatabaseAction::SaveConnections(
                save_db_connection(
                    &self.saved_connections,
                    self.engine,
                    self.user.as_str(),
                    self.password.as_str(),
                ),
            )
        } else {
            self.status = Some(Err(String::from_str("연결 실패 또는 DB 없음")));
            DatabaseAction::Nothing
        }
    }

    fn on_new_db_name_changed(&mut self, v: String) -> (r: DatabaseAction)
        ensures
            final(self)@ == next_model(old(self)@, DatabaseMessage::NewDbNameChanged(v)),
            r@ == next_action(old(self)@, DatabaseMessage::NewDbNameChanged(v)),
    {
        self.new_db_name = v;
        DatabaseAction::Nothing
    }

    fn on_create_db(&mut self) -> (r: DatabaseAction)
        ensures
            final(self)@ == next_model(old(self)@, DatabaseMessage::CreateDb),
            r@ == next_action(old(self)@, DatabaseMessage::CreateDb),
    {
        let name = self.new_db_name.clone();
        self.new_db_name = String::new();
        let plan = create_database(
            self.engine,
            self.user.as_str(),
            self.password.as_str(),
            name.as_str(),
        );
        DatabaseAction::Run {
            plan: Ok(plan),
            success: concat3("'", name.as_str(), "' 생성 완료"),
            reply: ReplyWith::Done,
        }
    }

    fn on_drop_db(&mut self, name: String) -> (r: DatabaseAction)
        ensures
            final(self)@ == next_model(old(self)@, DatabaseMessage::DropDb(name)),
            r@ == next_action(old(self)@, DatabaseMessage::DropDb(name)),
    {
        let plan = drop_database(
            self.engine,
            self.user.as_str(),
            self.password.as_str(),
            name.as_str(),
        );
        DatabaseAction::Run {
            plan: Ok(plan),
            success: concat3("'", name.as_str(), "' 삭제 완료"),
            reply: ReplyWith::Done,
        }
    }

    fn on_edit_db(&mut self, name: String) -> (r: DatabaseAction)
        ensures
            final(self)@ == next_model(old(self)@, DatabaseMessage::EditDb(name)),
            r@ == next_action(old(self)@, DatabaseMessage::EditDb(name)),
    {
        self.edit_db_name = name.clone();
        self.editing_db = Some(name);
        DatabaseAction::Nothing
    }

    fn on_edit_db_name_changed(&mut self, v: String) -> (r: DatabaseAction)
        ensures
            final(self)@ == next_model(old(self)@, DatabaseMessage::EditDbNameChanged(v)),
            r@ == next_action(old(self)@, DatabaseMessage::EditDbNameChanged(v)),
    {
        self.edit_db_name = v;
        DatabaseAction::Nothing
    }

    fn on_save_db_edit(&mut self, old_name: String) -> (r: DatabaseAction)
        ensures
            final(self)@ == next_model(old(self)@, DatabaseMessage::SaveDbEdit(old_name)),
            r@ == next_action(old(self)@, DatabaseMessage::SaveDbEdit(old_name)),
    {
        let new_name = trim_ws(self.edit_db_name.as_str());
        if new_name.as_str().is_empty() {
            self.status = Some(Err(String::from_str("새 DB 이름을 입력하세요.")));
            return DatabaseAction::Nothing;
        }
        self.editing_db = None;
        self.edit_db_name = String::new();
        let plan = rename_database(
            self.engine,
            self.user.as_str(),
            self.password.as_str(),
            old_name.as_str(),
            new_name.as_str(),
        );
        DatabaseAction::Run {
            plan,
            success: concat5(
                "'",
                old_name.as_str(),
                "' → '",
                new_name.as_str(),
                "' 이름 변경 완료",
            ),
            reply: ReplyWith::Done,
        }
    }

    fn on_cancel_db_edit(&mut self) -> (r: DatabaseAction)
        ensures
            final(self)@ == next_model(old(self)@, DatabaseMessage::CancelDbEdit),
            r@ == next_action(old(self)@, DatabaseMessage::CancelDbEdit),
    {
        self.editing_db = None;
        self.edit_db_name = String::new();
        DatabaseAction::Nothing
    }

    fn on_backup_db(&mut self, name: String) -> (r: DatabaseAction)
        ensures
            final(self)@ == next_model(old(self)@, DatabaseMessage::BackupDb(name)),
            r@ == next_action(old(self)@, DatabaseMessage::BackupDb(name)),
    {
        DatabaseAction::PickBackupPath(name)
    }

    fn on_backup_path_selected(&mut self, name: String, path: Option<String>) -> (r: DatabaseAction)
        ensures
            final(self)@ == next_model(old(self)@, DatabaseMessage::BackupPathSelected(name, path)),
            r@ == next_action(old(self)@, DatabaseMessage::BackupPathSelected(name, path)),
    {
        match path {
        Some(path) => {
            let dump = backup_database(
                self.engine,
                self.user.as_str(),
                self.password.as_str(),
                name.as_str(),
            );
            let success = concat2("백업 완료: ", path.as_str());
            DatabaseAction::Backup { dump, path, success }
        },
        None => DatabaseAction::Nothing,
    }
    }

    fn on_restore_db(&mut self, name: String) -> (r: DatabaseAction)
        ensures
            final(self)@ == next_model(old(self)@, DatabaseMessage::RestoreDb(name)),
            r@ == next_action(old(self)@, DatabaseMessage::RestoreDb(name)),
    {
        DatabaseAction::PickRestoreFile(name)
    }

    fn on_restore_path_selected(&mut self, name: String, path: Option<String>) -> (r: DatabaseAction)
        ensures
            final(self)@ == next_model(old(self)@, DatabaseMessage::RestorePathSelected(name, path)),
            r@ == next_action(old(self)@, DatabaseMessage::RestorePathSelected(name, path)),
    {
        match path {
        Some(path) => {
            let (engine, user, password) = self.login();
            let success = concat2("복원 완료: ", name.as_str());
            DatabaseAction::Import {
                engine,
                user,
                password,
                db_name: name,
                path,
                create_db: false,
                success,
            }
        },
        None => DatabaseAction::Nothing,
    }
    }

    fn on_import_db_name_changed(&mut self, v: String) -> (r: DatabaseAction)
        ensures
            final(self)@ == next_model(old(self)@, DatabaseMessage::ImportDbNameChanged(v)),
            r@ == next_action(old(self)@, DatabaseMessage::ImportDbNameChanged(v)),
    {
        self.import_db_name = v;
        DatabaseAction::Nothing
    }

    fn on_import_sql(&mut self) -> (r: DatabaseAction)
        ensures
            final(self)@ == next_model(old(self)@, DatabaseMessage::ImportSql),
            r@ == next_action(old(self)@, DatabaseMessage::ImportSql),
    {
        DatabaseAction::PickImportFile
    }

    fn on_import_path_selected(&mut self, path: Option<String>) -> (r: DatabaseAction)
        ensures
            final(self)@ == next_model(old(self)@, DatabaseMessage::ImportPathSelected(path)),
            r@ == next_action(old(self)@, DatabaseMessage::ImportPathSelected(path)),
    {
        match path {
        Some(path) => {
            let typed = trim_ws(self.import_db_name.as_str());
            let db_name = if typed.as_str().is_empty() {
                derive_db_name(path.as_str())
            } else {
                typed
            };
            let (engine, user, password) = self.login();
            let success = concat4("가져오기 완료: ", db_name.as_str(), " ← ", path.as_str());
            DatabaseAction::Import {
                engine,
                user,
                password,
                db_name,
                path,
                create_db: true,
                success,
            }
        },
        None => DatabaseAction::Nothing,
    }
    }

    fn on_copy_text(&mut self, s: String) -> (r: DatabaseAction)
        ensures
            final(self)@ == next_model(old(self)@, DatabaseMessage::CopyText(s)),
            r@ == next_action(old(self)@, DatabaseMessage::CopyText(s)),
    {
        DatabaseAction::CopyText(s)
    }

    fn on_open_adminer(&mut self) -> (r: DatabaseAction)
        ensures
            final(self)@ == next_model(old(self)@, DatabaseMessage::OpenAdminer),
            r@ == next_action(old(self)@, DatabaseMessage::OpenAdminer),
    {
        self.status = Some(Ok(String::from_str("Adminer 준비 중...")));
        DatabaseAction::PrepareAdminer
    }

    fn on_adminer_ready(&mut self, result: Result<String, String>) -> (r: DatabaseAction)
        ensures
            final(self)@ == next_model(old(self)@, DatabaseMessage::AdminerReady(result)),
            r@ == next_action(old(self)@, DatabaseMessage::AdminerReady(result)),
    {
        match result {
        Ok(url) => {
            self.status = Some(Ok(concat2("Adminer 열림: ", url.as_str())));
            DatabaseAction::OpenUrl(url)
        },
        Err(e) => {
            self.status = Some(Err(e));
            DatabaseAction::Nothing
        },
    }
    }

    fn on_done(&mut self, result: Result<String, String>) -> (r: DatabaseAction)
        ensures
            final(self)@ == next_model(old(self)@, DatabaseMessage::Done(result)),
            r@ == next_action(old(self)@, DatabaseMessage::Done(result)),
    {
        let action = if result.is_ok() {
            self.import_db_name = String::new();
            let (engine, user, password) = self.login();
            DatabaseAction::ReloadDatabases { engine, user, password }
        } else {
            DatabaseAction::Nothing
        };
        self.status = Some(result);
        action
    }

    fn on_sub_tab_selected(&mut self, t: SubTab) -> (r: DatabaseAction)
        ensures
            final(self)@ == next_model(old(self)@, DatabaseMessage::SubTabSelected(t)),
            r@ == next_action(old(self)@, DatabaseMessage::SubTabSelected(t)),
    {
        self.subtab = t;
        DatabaseAction::Nothing
    }

    fn on_new_user_name_changed(&mut self, v: String) -> (r: DatabaseAction)
        ensures
            final(self)@ == next_model(old(self)@, DatabaseMessage::NewUserNameChanged(v)),
            r@ == next_action(old(self)@, DatabaseMessage::NewUserNameChanged(v)),
    {
        self.new_user_name = v;
        DatabaseAction::Nothing
    }

    fn on_new_user_password_changed(&mut self, v: String) -> (r: DatabaseAction)
        ensures
            final(self)@ == next_model(old(self)@, DatabaseMessage::NewUserPasswordChanged(v)),
            r@ == next_action(old(self)@, DatabaseMessage::NewUserPasswordChanged(v)),
    {
        self.new_user_password = v;
        DatabaseAction::Nothing
    }

    fn on_new_user_host_changed(&mut self, v: String) -> (r: DatabaseAction)
        ensures
            final(self)@ == next_model(old(self)@, DatabaseMessage::NewUserHostChanged(v)),
            r@ == next_action(old(self)@, DatabaseMessage::NewUserHostChanged(v)),
    {
        self.new_user_host = v;
        DatabaseAction::Nothing
    }

    fn on_create_user(&mut self) -> (r: DatabaseAction)
        ensures
            final(self)@ == next_model(old(self)@, DatabaseMessage::CreateUser),
            r@ == next_action(old(self)@, DatabaseMessage::CreateUser),
    {
        if self.new_user_name.as_str().is_empty() || self.new_user_password.as_str().is_empty() {
            self.user_status = Some(Err(String::from_str("사용자명과 비밀번호를 입력하세요.")));
            return DatabaseAction::Nothing;
        }
        let new_user = self.new_user_name.clone();
        let new_pw = self.new_user_password.clone();
        self.new_user_name = String::new();
        self.new_user_password = String::new();
        let plan = create_user(
            self.engine,
            self.user.as_str(),
            self.password.as_str(),
            new_user.as_str(),
            new_pw.as_str(),
            self.new_user_host.as_str(),
        );
        DatabaseAction::Run {
            plan: Ok(plan),
            success: concat5(
                "'",
                new_user.as_str(),
                "'@'",
                self.new_user_host.as_str(),
                "' 생성 완료",
            ),
            reply: ReplyWith::UserActionDone,
        }
    }

    fn on_drop_user(&mut self, target: String, host: String) -> (r: DatabaseAction)
        ensures
            final(self)@ == next_model(old(self)@, DatabaseMessage::DropUser(target, host)),
            r@ == next_action(old(self)@, DatabaseMessage::DropUser(target, host)),
    {
        let plan = drop_user(
            self.engine,
            self.user.as_str(),
            self.password.as_str(),
            target.as_str(),
            host.as_str(),
        );
        DatabaseAction::Run {
            plan: Ok(plan),
            success: concat5("'", target.as_str(), "'@'", host.as_str(), "' 삭제 완료"),
            reply: ReplyWith::UserActionDone,
        }
    }

    fn on_edit_user(&mut self, target: String, host: String) -> (r: DatabaseAction)
        ensures
            final(self)@ == next_model(old(self)@, DatabaseMessage::EditUser(target, host)),
            r@ == next_action(old(self)@, DatabaseMessage::EditUser(target, host)),
    {
        self.edit_user_name = target.clone();
        self.editing_user = Some((target, host));
        self.edit_user_password = String::new();
        DatabaseAction::Nothing
    }

    fn on_edit_user_name_changed(&mut self, v: String) -> (r: DatabaseAction)
        ensures
            final(self)@ == next_model(old(self)@, DatabaseMessage::EditUserNameChanged(v)),
            r@ == next_action(old(self)@, DatabaseMessage::EditUserNameChanged(v)),
    {
        self.edit_user_name = v;
        DatabaseAction::Nothing
    }

    fn on_edit_user_password_changed(&mut self, v: String) -> (r: DatabaseAction)
        ensures
            final(self)@ == next_model(old(self)@, DatabaseMessage::EditUserPasswordChanged(v)),
            r@ == next_action(old(self)@, DatabaseMessage::EditUserPasswordChanged(v)),
    {
        self.edit_user_password = v;
        DatabaseAction::Nothing
    }

    fn on_save_user_edit(&mut self, target: String, host: String) -> (r: DatabaseAction)
        ensures
            final(self)@ == next_model(old(self)@, DatabaseMessage::SaveUserEdit(target, host)),
            r@ == next_action(old(self)@, DatabaseMessage::SaveUserEdit(target, host)),
    {
        let new_user = trim_ws(self.edit_user_name.as_str());
        if new_user.as_str().is_empty() {
            self.user_status = Some(Err(String::from_str("새 사용자명을 입력하세요.")));
            return DatabaseAction::Nothing;
        }
        let ghost m = self@;
        let new_password = self.edit_user_password.clone();
        self.editing_user = None;
        self.edit_user_name = String::new();
        self.edit_user_password = String::new();
        let renamed = if !same_text(new_user.as_str(), target.as_str()) {
            rename_user(
                self.engine,
                self.user.as_str(),
                self.password.as_str(),
                target.as_str(),
                host.as_str(),
                new_user.as_str(),
            )
        } else {
            let v: Vec<Invocation> = Vec::new();
            assert(plan_view(v@) =~= Seq::<InvocationView>::empty());
            v
        };
        let repassed = if !new_password.as_str().is_empty() {
            change_user_password(
                self.engine,
                self.user.as_str(),
                self.password.as_str(),
                new_user.as_str(),
                host.as_str(),
                new_password.as_str(),
            )
        } else {
            let v: Vec<Invocation> = Vec::new();
            assert(plan_view(v@) =~= Seq::<InvocationView>::empty());
            v
        };
        let plan = join_plans(renamed, repassed);
        assert(plan_view(plan@) == user_edit_plan(m, target@, host@, new_user@));
        DatabaseAction::Run {
            plan: Ok(plan),
            success: concat3("'", target.as_str(), "' 사용자 편집 완료"),
            reply: ReplyWith::UserActionDone,
        }
    }

    fn on_cancel_user_edit(&mut self) -> (r: DatabaseAction)
        ensures
            final(self)@ == next_model(old(self)@, DatabaseMessage::CancelUserEdit),
            r@ == next_action(old(self)@, DatabaseMessage::CancelUserEdit),
    {
        self.editing_user = None;
        self.edit_user_name = String::new();
        self.edit_user_password = String::new();
        DatabaseAction::Nothing
    }

    fn on_grant_privileges(&mut self, target: String, host: String, db: String) -> (r: DatabaseAction)
        ensures
            final(self)@ == next_model(old(self)@, DatabaseMessage::GrantPrivileges(target, host, db)),
            r@ == next_action(old(self)@, DatabaseMessage::GrantPrivileges(target, host, db)),
    {
        let plan = grant_privileges(
            self.engine,
            self.user.as_str(),
            self.password.as_str(),
            target.as_str(),
            host.as_str(),
            db.as_str(),
        );
        DatabaseAction::Run {
            plan: Ok(plan),
            success: concat7(
                "'",
                target.as_str(),
                "'@'",
                host.as_str(),
                "' → ",
                db.as_str(),
                " 권한 부여 완료",
            ),
            reply: ReplyWith::UserActionDone,
        }
    }

    fn on_user_action_done(&mut self, result: Result<String, String>) -> (r: DatabaseAction)
        ensures
            final(self)@ == next_model(old(self)@, DatabaseMessage::UserActionDone(result)),
            r@ == next_action(old(self)@, DatabaseMessage::UserActionDone(result)),
    {
        let action = if result.is_ok() {
            let (engine, user, password) = self.login();
            DatabaseAction::ReloadUsers { engine, user, password }
        } else {
            DatabaseAction::Nothing
        };
        self.user_status = Some(result);
        action
    }
}

} // verus!
