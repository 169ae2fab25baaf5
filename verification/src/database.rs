//! MariaDB and PostgreSQL administration through their command-line clients:
//! the SQL each operation sends, the client invocations that carry it and the
//! reading of what the clients print.
use vstd::prelude::*;
use vstd::string::*;
use crate::text::{
    chars_of, concat3, concat5, lines, lines_of, replace_all, replace_char, same_text, string_from_range, trim,
    trim_ws, views,
};
use crate::paths::{extension, path_extension};
use crate::setup::take_at_most;

verus! {

broadcast use vstd::string::group_string_axioms;

/// A database server.
#[derive(Debug, Clone, Copy, PartialEq, Eq, Structural)]
pub enum DbEngine {
    MariaDb,
    PostgreSql,
}

impl Default for DbEngine {
    fn default() -> (r: Self)
        ensures
            r == DbEngine::MariaDb,
    {
        DbEngine::MariaDb
    }
}

impl DbEngine {
    pub open spec fn spec_label(self) -> Seq<char> {
        match self {
            DbEngine::MariaDb => "MariaDB"@,
            DbEngine::PostgreSql => "PostgreSQL"@,
        }
    }

    /// The engine's display name.
    pub fn label(self) -> (r: &'static str)
        ensures
            r@ == self.spec_label(),
    {
        match self {
            DbEngine::MariaDb => "MariaDB",
            DbEngine::PostgreSql => "PostgreSQL",
        }
    }
}

/// A database on the server.
#[derive(Debug, Clone)]
pub struct DbInfo {
    pub name: String,
}

/// Saved connection credentials (local development use: stored in plain text).
#[derive(Debug, Clone)]
pub struct DbCredentials {
    pub engine: DbEngine,
    pub user: String,
    pub password: String,
}

impl Default for DbCredentials {
    fn default() -> (r: Self)
        ensures
            r.engine == DbEngine::MariaDb,
            r.user@ == Seq::<char>::empty(),
            r.password@ == Seq::<char>::empty(),
    {
        DbCredentials { engine: DbEngine::MariaDb, user: String::new(), password: String::new() }
    }
}

impl DbCredentials {
    /// A copy with the same fields.
    pub fn duplicate(&self) -> (r: Self)
        ensures
            r == *self,
    {
        DbCredentials {
            engine: self.engine,
            user: self.user.clone(),
            password: self.password.clone(),
        }
    }
}

/// A database account (`host` is `local` for PostgreSQL roles).
#[derive(Debug, Clone)]
pub struct DbUser {
    pub username: String,
    pub host: String,
}

impl DbUser {
    pub fn duplicate(&self) -> (r: Self)
        ensures
            r == *self,
    {
        DbUser { username: self.username.clone(), host: self.host.clone() }
    }
}

/// A client program to run: its name, arguments and extra environment.
#[derive(Debug, Clone)]
pub struct Invocation {
    pub program: String,
    pub args: Vec<String>,
    pub env: Vec<(String, String)>,
}

pub type InvocationView = (Seq<char>, Seq<Seq<char>>, Seq<(Seq<char>, Seq<char>)>);

pub open spec fn env_views(e: Seq<(String, String)>) -> Seq<(Seq<char>, Seq<char>)> {
    e.map_values(|p: (String, String)| (p.0@, p.1@))
}

impl View for Invocation {
    type V = InvocationView;

    open spec fn view(&self) -> InvocationView {
        (self.program@, views(self.args@), env_views(self.env@))
    }
}

/// A sequence of client runs: they run in order, the first that fails ends the
/// operation with its error output, and the operation succeeds when all do.
pub open spec fn plan_view(p: Seq<Invocation>) -> Seq<InvocationView> {
    p.map_values(|i: Invocation| i@)
}

/// `<program> -u<user> -p<password> <rest>` for a MariaDB client program.
pub open spec fn maria_run(
    program: Seq<char>,
    user: Seq<char>,
    password: Seq<char>,
    rest: Seq<Seq<char>>,
) -> InvocationView {
    (program, seq!["-u"@ + user, "-p"@ + password] + rest, seq![])
}

/// `mysql -u<user> -p<password> <rest>`.
pub open spec fn mysql_run(user: Seq<char>, password: Seq<char>, rest: Seq<Seq<char>>) -> InvocationView {
    maria_run("mysql"@, user, password, rest)
}

/// `<program> -h 127.0.0.1 -U <user> -d <db> <rest>`, with `PGPASSWORD` set when
/// a password is given.
pub open spec fn pg_run(
    program: Seq<char>,
    user: Seq<char>,
    password: Seq<char>,
    db: Seq<char>,
    rest: Seq<Seq<char>>,
) -> InvocationView {
    (
        program,
        seq!["-h"@, "127.0.0.1"@, "-U"@, user, "-d"@, db] + rest,
        if password.len() == 0 {
            seq![]
        } else {
            seq![("PGPASSWORD"@, password)]
        },
    )
}

/// `psql` running one statement on `db`, stopping at the first SQL error.
pub open spec fn pg_sql(user: Seq<char>, password: Seq<char>, db: Seq<char>, sql: Seq<char>) -> InvocationView {
    pg_run("psql"@, user, password, db, seq!["-v"@, "ON_ERROR_STOP=1"@, "-c"@, sql])
}

/// `mysql` running `sql`.
pub open spec fn mysql_sql(user: Seq<char>, password: Seq<char>, sql: Seq<char>) -> InvocationView {
    mysql_run(user, password, seq!["-e"@, sql])
}

fn strings2(a: &str, b: &str) -> (r: Vec<String>)
    ensures
        views(r@) == seq![a@, b@],
{
    let mut v: Vec<String> = Vec::new();
    v.push(String::from_str(a));
    v.push(String::from_str(b));
    assert(views(v@) =~= seq![a@, b@]);
    v
}

fn push_str(v: &mut Vec<String>, s: &str)
    ensures
        views(final(v)@) == views(old(v)@).push(s@),
{
    v.push(String::from_str(s));
    assert(views(v@) =~= views(old(v)@).push(s@));
}

fn append_all(v: &mut Vec<String>, rest: Vec<String>)
    ensures
        views(final(v)@) == views(old(v)@) + views(rest@),
{
    let mut i: usize = 0;
    while i < rest.len()
        invariant
            i <= rest.len(),
            views(v@) == views(old(v)@) + views(rest@).take(i as int),
        decreases rest.len() - i,
    {
        let ghost before = views(v@);
        v.push(rest[i].clone());
        assert(views(v@) =~= before.push(rest@[i as int]@));
        assert(views(rest@).take(i + 1) =~= views(rest@).take(i as int).push(rest@[i as int]@));
        i += 1;
    }
    assert(views(rest@).take(rest.len() as int) =~= views(rest@));
}

fn maria(program: &str, user: &str, password: &str, rest: Vec<String>) -> (r: Invocation)
    ensures
        r@ == maria_run(program@, user@, password@, views(rest@)),
{
    let mut u = String::from_str("-u");
    u.append(user);
    let mut p = String::from_str("-p");
    p.append(password);
    let mut args: Vec<String> = Vec::new();
    args.push(u);
    args.push(p);
    assert(views(args@) =~= seq!["-u"@ + user@, "-p"@ + password@]);
    append_all(&mut args, rest);
    let env: Vec<(String, String)> = Vec::new();
    assert(env_views(env@) =~= Seq::<(Seq<char>, Seq<char>)>::empty());
    Invocation { program: String::from_str(program), args, env }
}

fn mysql(user: &str, password: &str, rest: Vec<String>) -> (r: Invocation)
    ensures
        r@ == mysql_run(user@, password@, views(rest@)),
{
    maria("mysql", user, password, rest)
}

fn postgres(program: &str, user: &str, password: &str, db: &str, rest: Vec<String>) -> (r: Invocation)
    ensures
        r@ == pg_run(program@, user@, password@, db@, views(rest@)),
{
    let mut args: Vec<String> = Vec::new();
    args.push(String::from_str("-h"));
    args.push(String::from_str("127.0.0.1"));
    args.push(String::from_str("-U"));
    args.push(String::from_str(user));
    args.push(String::from_str("-d"));
    args.push(String::from_str(db));
    assert(views(args@) =~= seq!["-h"@, "127.0.0.1"@, "-U"@, user@, "-d"@, db@]);
    append_all(&mut args, rest);
    let mut env: Vec<(String, String)> = Vec::new();
    if !password.is_empty() {
        env.push((String::from_str("PGPASSWORD"), String::from_str(password)));
    }
    assert(env_views(env@) =~= if password@.len() == 0 {
        Seq::<(Seq<char>, Seq<char>)>::empty()
    } else {
        seq![("PGPASSWORD"@, password@)]
    });
    Invocation { program: String::from_str(program), args, env }
}

fn pg_statement(user: &str, password: &str, db: &str, sql: &str) -> (r: Invocation)
    ensures
        r@ == pg_sql(user@, password@, db@, sql@),
{
    let mut rest = strings2("-v", "ON_ERROR_STOP=1");
    push_str(&mut rest, "-c");
    push_str(&mut rest, sql);
    assert(views(rest@) =~= seq!["-v"@, "ON_ERROR_STOP=1"@, "-c"@, sql@]);
    postgres("psql", user, password, db, rest)
}

fn mysql_statement(user: &str, password: &str, sql: &str) -> (r: Invocation)
    ensures
        r@ == mysql_sql(user@, password@, sql@),
{
    let rest = strings2("-e", sql);
    mysql(user, password, rest)
}

/// A PostgreSQL identifier: double-quoted, inner `"` doubled.
pub open spec fn spec_pg_ident(v: Seq<char>) -> Seq<char> {
    "\""@ + replace_char(v, '"', "\"\""@) + "\""@
}

/// A PostgreSQL string literal's contents: `'` doubled.
pub open spec fn spec_pg_literal(v: Seq<char>) -> Seq<char> {
    replace_char(v, '\'', "''"@)
}

pub fn pg_ident(value: &str) -> (r: String)
    ensures
        r@ == spec_pg_ident(value@),
{
    let mut s = String::from_str("\"");
    let inner = replace_all(value, '"', "\"\"");
    s.append(inner.as_str());
    s.append("\"");
    s
}

pub fn pg_literal(value: &str) -> (r: String)
    ensures
        r@ == spec_pg_literal(value@),
{
    replace_all(value, '\'', "''")
}

fn one(i: Invocation) -> (r: Vec<Invocation>)
    ensures
        plan_view(r@) == seq![i@],
{
    let mut v: Vec<Invocation> = Vec::new();
    v.push(i);
    assert(plan_view(v@) =~= seq![i@]);
    v
}

// ---------------------------------------------------------------- listing

/// The client run that lists the databases.
pub open spec fn spec_list_databases(engine: DbEngine, user: Seq<char>, password: Seq<char>) -> InvocationView {
    match engine {
        DbEngine::MariaDb => mysql_run(
            user,
            password,
            seq!["-e"@, "SHOW DATABASES;"@, "--skip-column-names"@],
        ),
        DbEngine::PostgreSql => pg_run(
            "psql"@,
            user,
            password,
            "postgres"@,
            seq![
                "-At"@,
                "-c"@,
                "SELECT datname FROM pg_database WHERE datistemplate = false ORDER BY datname;"@,
            ],
        ),
    }
}

pub fn list_databases(engine: DbEngine, user: &str, password: &str) -> (r: Invocation)
    ensures
        r@ == spec_list_databases(engine, user@, password@),
{
    match engine {
        DbEngine::MariaDb => {
            let mut rest = strings2("-e", "SHOW DATABASES;");
            push_str(&mut rest, "--skip-column-names");
            assert(views(rest@) =~= seq!["-e"@, "SHOW DATABASES;"@, "--skip-column-names"@]);
            mysql(user, password, rest)
        },
        DbEngine::PostgreSql => {
            let mut rest = strings2("-At", "-c");
            push_str(
                &mut rest,
                "SELECT datname FROM pg_database WHERE datistemplate = false ORDER BY datname;",
            );
            assert(views(rest@) =~= seq![
                "-At"@,
                "-c"@,
                "SELECT datname FROM pg_database WHERE datistemplate = false ORDER BY datname;"@,
            ]);
            postgres("psql", user, password, "postgres", rest)
        },
    }
}

/// A database the server keeps for itself, left out of listings.
pub open spec fn is_system_database(engine: DbEngine, name: Seq<char>) -> bool {
    match engine {
        DbEngine::MariaDb => name == "information_schema"@ || name == "performance_schema"@ || name
            == "mysql"@ || name == "sys"@,
        DbEngine::PostgreSql => name == "postgres"@,
    }
}

fn system_database(engine: DbEngine, name: &str) -> (r: bool)
    ensures
        r == is_system_database(engine, name@),
{
    match engine {
        DbEngine::MariaDb => same_text(name, "information_schema") || same_text(
            name,
            "performance_schema",
        ) || same_text(name, "mysql") || same_text(name, "sys"),
        DbEngine::PostgreSql => same_text(name, "postgres"),
    }
}

pub open spec fn db_names(v: Seq<DbInfo>) -> Seq<Seq<char>> {
    v.map_values(|d: DbInfo| d.name@)
}

/// The databases a listing shows: none when the client failed, else one per
/// output line, system databases left out.
pub open spec fn spec_parse_databases(engine: DbEngine, success: bool, stdout: Seq<char>) -> Seq<
    Seq<char>,
> {
    if !success {
        seq![]
    } else {
        lines(stdout).filter(|l: Seq<char>| !is_system_database(engine, l))
    }
}

pub fn parse_databases(engine: DbEngine, success: bool, stdout: &str) -> (r: Vec<DbInfo>)
    ensures
        db_names(r@) == spec_parse_databases(engine, success, stdout@),
{
    let mut out: Vec<DbInfo> = Vec::new();
    if !success {
        assert(db_names(out@) =~= Seq::<Seq<char>>::empty());
        return out;
    }
    let ls = lines_of(stdout);
    let mut i: usize = 0;
    while i < ls.len()
        invariant
            i <= ls.len(),
            db_names(out@) == views(ls@).take(i as int).filter(
                |l: Seq<char>| !is_system_database(engine, l),
            ),
        decreases ls.len() - i,
    {
        proof {
            reveal_with_fuel(Seq::filter, 1);
            assert(views(ls@).take(i + 1).drop_last() =~= views(ls@).take(i as int));
        }
        let ghost before = db_names(out@);
        if !system_database(engine, ls[i].as_str()) {
            out.push(DbInfo { name: ls[i].clone() });
            assert(db_names(out@) =~= before.push(ls@[i as int]@));
        }
        i += 1;
    }
    assert(views(ls@).take(ls.len() as int) =~= views(ls@));
    out
}

/// The client run that lists the accounts.
pub open spec fn spec_list_users(engine: DbEngine, user: Seq<char>, password: Seq<char>) -> InvocationView {
    match engine {
        DbEngine::MariaDb => mysql_run(
            user,
            password,
            seq![
                "-e"@,
                "SELECT User, Host FROM mysql.user WHERE User != '' ORDER BY User, Host;"@,
                "--skip-column-names"@,
            ],
        ),
        DbEngine::PostgreSql => pg_run(
            "psql"@,
            user,
            password,
            "postgres"@,
            seq![
                "-At"@,
                "-c"@,
                "SELECT rolname FROM pg_roles WHERE rolcanlogin = true ORDER BY rolname;"@,
            ],
        ),
    }
}

pub fn list_users(engine: DbEngine, user: &str, password: &str) -> (r: Invocation)
    ensures
        r@ == spec_list_users(engine, user@, password@),
{
    match engine {
        DbEngine::MariaDb => {
            let mut rest = strings2(
                "-e",
                "SELECT User, Host FROM mysql.user WHERE User != '' ORDER BY User, Host;",
            );
            push_str(&mut rest, "--skip-column-names");
            assert(views(rest@) =~= seq![
                "-e"@,
                "SELECT User, Host FROM mysql.user WHERE User != '' ORDER BY User, Host;"@,
                "--skip-column-names"@,
            ]);
            mysql(user, password, rest)
        },
        DbEngine::PostgreSql => {
            let mut rest = strings2("-At", "-c");
            push_str(
                &mut rest,
                "SELECT rolname FROM pg_roles WHERE rolcanlogin = true ORDER BY rolname;",
            );
            assert(views(rest@) =~= seq![
                "-At"@,
                "-c"@,
                "SELECT rolname FROM pg_roles WHERE rolcanlogin = true ORDER BY rolname;"@,
            ]);
            postgres("psql", user, password, "postgres", rest)
        },
    }
}

pub open spec fn user_views(v: Seq<DbUser>) -> Seq<(Seq<char>, Seq<char>)> {
    v.map_values(|u: DbUser| (u.username@, u.host@))
}

/// `k` is the position of the first tab in `l`.
pub open spec fn first_tab_at(l: Seq<char>, k: int) -> bool {
    &&& 0 <= k < l.len()
    &&& l[k] == '\t'
    &&& forall|j: int| 0 <= j < k ==> l[j] != '\t'
}

/// A MariaDB account line `user<TAB>host` (cut at the first tab); none without a tab.
pub open spec fn mariadb_account(l: Seq<char>) -> Seq<(Seq<char>, Seq<char>)> {
    if exists|k: int| first_tab_at(l, k) {
        let k = choose|k: int| first_tab_at(l, k);
        seq![(l.take(k), l.skip(k + 1))]
    } else {
        seq![]
    }
}

proof fn first_tab_unique(l: Seq<char>, k: int)
    requires
        first_tab_at(l, k),
    ensures
        (choose|j: int| first_tab_at(l, j)) == k,
{
    let j = choose|j: int| first_tab_at(l, j);
    assert(first_tab_at(l, j));
    if j < k {
        assert(l[j] != '\t');
    }
    if k < j {
        assert(l[k] != '\t');
    }
}

pub open spec fn mariadb_accounts(ls: Seq<Seq<char>>) -> Seq<(Seq<char>, Seq<char>)>
    decreases ls.len(),
{
    if ls.len() == 0 {
        seq![]
    } else {
        mariadb_accounts(ls.drop_last()) + mariadb_account(ls.last())
    }
}

/// The accounts a listing shows: none when the client failed; for MariaDB each
/// line with a tab, for PostgreSQL each line as a role of host `local`.
pub open spec fn spec_parse_users(engine: DbEngine, success: bool, stdout: Seq<char>) -> Seq<
    (Seq<char>, Seq<char>),
> {
    if !success {
        seq![]
    } else {
        match engine {
            DbEngine::MariaDb => mariadb_accounts(lines(stdout)),
            DbEngine::PostgreSql => lines(stdout).map_values(|l: Seq<char>| (l, "local"@)),
        }
    }
}

fn first_tab(v: &Vec<char>) -> (r: Option<usize>)
    ensures
        match r {
            Some(k) => first_tab_at(v@, k as int),
            None => forall|k: int| 0 <= k < v.len() ==> v@[k] != '\t',
        },
{
    let mut j: usize = 0;
    while j < v.len()
        invariant
            j <= v.len(),
            forall|k: int| 0 <= k < j ==> v@[k] != '\t',
        decreases v.len() - j,
    {
        if v[j] == '\t' {
            assert(v@[j as int] == '\t');
            return Some(j);
        }
        j += 1;
    }
    None
}

pub fn parse_users(engine: DbEngine, success: bool, stdout: &str) -> (r: Vec<DbUser>)
    ensures
        user_views(r@) == spec_parse_users(engine, success, stdout@),
{
    let mut out: Vec<DbUser> = Vec::new();
    if !success {
        assert(user_views(out@) =~= Seq::<(Seq<char>, Seq<char>)>::empty());
        return out;
    }
    let ls = lines_of(stdout);
    let mut i: usize = 0;
    while i < ls.len()
        invariant
            i <= ls.len(),
            user_views(out@) == match engine {
                DbEngine::MariaDb => mariadb_accounts(views(ls@).take(i as int)),
                DbEngine::PostgreSql => views(ls@).take(i as int).map_values(
                    |l: Seq<char>| (l, "local"@),
                ),
            },
        decreases ls.len() - i,
    {
        let ghost before = user_views(out@);
        assert(views(ls@).take(i + 1).drop_last() =~= views(ls@).take(i as int));
        match engine {
            DbEngine::MariaDb => {
                let v = chars_of(ls[i].as_str());
                match first_tab(&v) {
                    Some(k) => {
                        proof {
                            first_tab_unique(v@, k as int);
                        }
                        assert(k < v.len());
                        let name = string_from_range(&v, 0, k);
                        let host = string_from_range(&v, k + 1, v.len());
                        out.push(DbUser { username: name, host });
                        assert(user_views(out@) =~= before + mariadb_account(ls@[i as int]@));
                    },
                    None => {
                        assert(!exists|k: int| first_tab_at(v@, k));
                        assert(user_views(out@) =~= before + mariadb_account(ls@[i as int]@));
                    },
                }
            },
            DbEngine::PostgreSql => {
                out.push(DbUser { username: ls[i].clone(), host: String::from_str("local") });
                let ghost f = |l: Seq<char>| (l, "local"@);
                assert(views(ls@).take(i + 1) =~= views(ls@).take(i as int).push(ls@[i as int]@));
                assert(user_views(out@) =~= before.push((ls@[i as int]@, "local"@)));
                assert(views(ls@).take(i + 1).map_values(f) =~= views(ls@).take(
                    i as int,
                ).map_values(f).push(f(ls@[i as int]@)));
            },
        }
        i += 1;
    }
    assert(views(ls@).take(ls.len() as int) =~= views(ls@));
    out
}

// ---------------------------------------------------------------- statements

/// MariaDB: `CREATE DATABASE` in utf8mb4 with the unicode collation.
pub open spec fn maria_create_sql(db: Seq<char>) -> Seq<char> {
    "CREATE DATABASE `"@ + db + "` CHARACTER SET utf8mb4 COLLATE utf8mb4_unicode_ci;"@
}

/// MariaDB: the same, skipped when the database exists.
pub open spec fn maria_create_if_missing_sql(db: Seq<char>) -> Seq<char> {
    "CREATE DATABASE IF NOT EXISTS `"@ + db + "` CHARACTER SET utf8mb4 COLLATE utf8mb4_unicode_ci;"@
}

pub open spec fn pg_create_sql(db: Seq<char>) -> Seq<char> {
    "CREATE DATABASE "@ + spec_pg_ident(db) + " ENCODING 'UTF8';"@
}

/// What `create_database` runs.
pub open spec fn spec_create_database(
    engine: DbEngine,
    user: Seq<char>,
    password: Seq<char>,
    db: Seq<char>,
) -> Seq<InvocationView> {
    match engine {
        DbEngine::MariaDb => seq![mysql_sql(user, password, maria_create_sql(db))],
        DbEngine::PostgreSql => seq![pg_sql(user, password, "postgres"@, pg_create_sql(db))],
    }
}

/// The client runs that create a database.
pub fn create_database(engine: DbEngine, user: &str, password: &str, db_name: &str) -> (r: Vec<
    Invocation,
>)
    ensures
        plan_view(r@) == spec_create_database(engine, user@, password@, db_name@),
{
    match engine {
        DbEngine::MariaDb => {
            let sql = concat3(
                "CREATE DATABASE `",
                db_name,
                "` CHARACTER SET utf8mb4 COLLATE utf8mb4_unicode_ci;",
            );
            one(mysql_statement(user, password, sql.as_str()))
        },
        DbEngine::PostgreSql => one(create_postgres_database(user, password, db_name)),
    }
}

fn create_postgres_database(user: &str, password: &str, db_name: &str) -> (r: Invocation)
    ensures
        r@ == pg_sql(user@, password@, "postgres"@, pg_create_sql(db_name@)),
{
    let ident = pg_ident(db_name);
    let sql = concat3("CREATE DATABASE ", ident.as_str(), " ENCODING 'UTF8';");
    pg_statement(user, password, "postgres", sql.as_str())
}

/// What `drop_database` runs.
pub open spec fn spec_drop_database(
    engine: DbEngine,
    user: Seq<char>,
    password: Seq<char>,
    db: Seq<char>,
) -> Seq<InvocationView> {
    match engine {
        DbEngine::MariaDb => seq![mysql_sql(user, password, "DROP DATABASE `"@ + db + "`;"@)],
        DbEngine::PostgreSql => seq![
            pg_sql(user, password, "postgres"@, "DROP DATABASE "@ + spec_pg_ident(db) + ";"@),
        ],
    }
}

/// The client runs that drop a database.
pub fn drop_database(engine: DbEngine, user: &str, password: &str, db_name: &str) -> (r: Vec<
    Invocation,
>)
    ensures
        plan_view(r@) == spec_drop_database(engine, user@, password@, db_name@),
{
    match engine {
        DbEngine::MariaDb => {
            let sql = concat3("DROP DATABASE `", db_name, "`;");
            one(mysql_statement(user, password, sql.as_str()))
        },
        DbEngine::PostgreSql => one(drop_postgres_database(user, password, db_name)),
    }
}

fn drop_postgres_database(user: &str, password: &str, db_name: &str) -> (r: Invocation)
    ensures
        r@ == pg_sql(user@, password@, "postgres"@, "DROP DATABASE "@ + spec_pg_ident(db_name@) + ";"@),
{
    let ident = pg_ident(db_name);
    let sql = concat3("DROP DATABASE ", ident.as_str(), ";");
    pg_statement(user, password, "postgres", sql.as_str())
}

/// Why MariaDB databases are not renamed.
pub open spec fn maria_rename_refusal() -> Seq<char> {
    "MariaDB/MySQL은 안전한 DB 이름 변경을 직접 지원하지 않습니다. 새 DB 생성 후 덤프/복원으로 이관하세요."@
}

/// What `rename_database` answers: MariaDB refuses, PostgreSQL runs `ALTER DATABASE`.
pub open spec fn spec_rename_database(
    engine: DbEngine,
    user: Seq<char>,
    password: Seq<char>,
    old_name: Seq<char>,
    new_name: Seq<char>,
) -> Result<Seq<InvocationView>, Seq<char>> {
    match engine {
        DbEngine::MariaDb => Err(maria_rename_refusal()),
        DbEngine::PostgreSql => Ok(
            seq![
                pg_sql(
                    user,
                    password,
                    "postgres"@,
                    "ALTER DATABASE "@ + spec_pg_ident(old_name) + " RENAME TO "@ + spec_pg_ident(
                        new_name,
                    ) + ";"@,
                ),
            ],
        ),
    }
}

pub open spec fn plan_result_view(r: Result<Vec<Invocation>, String>) -> Result<
    Seq<InvocationView>,
    Seq<char>,
> {
    match r {
        Ok(p) => Ok(plan_view(p@)),
        Err(e) => Err(e@),
    }
}

/// The client runs that rename a database, or why it cannot be renamed.
pub fn rename_database(
    engine: DbEngine,
    user: &str,
    password: &str,
    old_name: &str,
    new_name: &str,
) -> (r: Result<Vec<Invocation>, String>)
    ensures
        plan_result_view(r) == spec_rename_database(engine, user@, password@, old_name@, new_name@),
{
    match engine {
        DbEngine::MariaDb => Err(
            String::from_str(
                "MariaDB/MySQL은 안전한 DB 이름 변경을 직접 지원하지 않습니다. 새 DB 생성 후 덤프/복원으로 이관하세요.",
            ),
        ),
        DbEngine::PostgreSql => {
            let a = pg_ident(old_name);
            let b = pg_ident(new_name);
            let sql = concat5("ALTER DATABASE ", a.as_str(), " RENAME TO ", b.as_str(), ";");
            Ok(one(pg_statement(user, password, "postgres", sql.as_str())))
        },
    }
}

/// The dump client run whose standard output is the backup.
pub open spec fn spec_backup_database(
    engine: DbEngine,
    user: Seq<char>,
    password: Seq<char>,
    db: Seq<char>,
) -> InvocationView {
    match engine {
        DbEngine::MariaDb => maria_run(
            "mysqldump"@,
            user,
            password,
            seq!["--single-transaction"@, db],
        ),
        DbEngine::PostgreSql => pg_run(
            "pg_dump"@,
            user,
            password,
            db,
            seq!["--no-owner"@, "--no-privileges"@],
        ),
    }
}

/// The client run that dumps a database; on success its standard output is
/// written to the backup file.
pub fn backup_database(engine: DbEngine, user: &str, password: &str, db_name: &str) -> (r:
    Invocation)
    ensures
        r@ == spec_backup_database(engine, user@, password@, db_name@),
{
    match engine {
        DbEngine::MariaDb => {
            let rest = strings2("--single-transaction", db_name);
            maria("mysqldump", user, password, rest)
        },
        DbEngine::PostgreSql => {
            let rest = strings2("--no-owner", "--no-privileges");
            postgres("pg_dump", user, password, db_name, rest)
        },
    }
}

/// MariaDB account `'user'@'host'`.
pub open spec fn maria_account(user: Seq<char>, host: Seq<char>) -> Seq<char> {
    "'"@ + user + "'@'"@ + host + "'"@
}

fn account(user: &str, host: &str) -> (r: String)
    ensures
        r@ == maria_account(user@, host@),
{
    concat5("'", user, "'@'", host, "'")
}

/// What `create_user` runs.
pub open spec fn spec_create_user(
    engine: DbEngine,
    admin: Seq<char>,
    admin_pw: Seq<char>,
    new_user: Seq<char>,
    new_pw: Seq<char>,
    host: Seq<char>,
) -> Seq<InvocationView> {
    match engine {
        DbEngine::MariaDb => seq![
            mysql_sql(
                admin,
                admin_pw,
                "CREATE USER "@ + maria_account(new_user, host) + " IDENTIFIED BY '"@ + new_pw
                    + "'; FLUSH PRIVILEGES;"@,
            ),
        ],
        DbEngine::PostgreSql => seq![
            pg_sql(
                admin,
                admin_pw,
                "postgres"@,
                "CREATE USER "@ + spec_pg_ident(new_user) + " WITH PASSWORD '"@ + spec_pg_literal(
                    new_pw,
                ) + "';"@,
            ),
        ],
    }
}

/// The client runs that create an account (PostgreSQL roles have no host).
pub fn create_user(
    engine: DbEngine,
    admin: &str,
    admin_pw: &str,
    new_user: &str,
    new_pw: &str,
    host: &str,
) -> (r: Vec<Invocation>)
    ensures
        plan_view(r@) == spec_create_user(engine, admin@, admin_pw@, new_user@, new_pw@, host@),
{
    match engine {
        DbEngine::MariaDb => {
            let who = account(new_user, host);
            let sql = concat5(
                "CREATE USER ",
                who.as_str(),
                " IDENTIFIED BY '",
                new_pw,
                "'; FLUSH PRIVILEGES;",
            );
            one(mysql_statement(admin, admin_pw, sql.as_str()))
        },
        DbEngine::PostgreSql => one(create_postgres_user(admin, admin_pw, new_user, new_pw)),
    }
}

fn create_postgres_user(admin: &str, admin_pw: &str, new_user: &str, new_pw: &str) -> (r:
    Invocation)
    ensures
        r@ == pg_sql(
            admin@,
            admin_pw@,
            "postgres"@,
            "CREATE USER "@ + spec_pg_ident(new_user@) + " WITH PASSWORD '"@ + spec_pg_literal(
                new_pw@,
            ) + "';"@,
        ),
{
    let ident = pg_ident(new_user);
    let lit = pg_literal(new_pw);
    let sql = concat5("CREATE USER ", ident.as_str(), " WITH PASSWORD '", lit.as_str(), "';");
    pg_statement(admin, admin_pw, "postgres", sql.as_str())
}

/// What `drop_user` runs.
pub open spec fn spec_drop_user(
    engine: DbEngine,
    admin: Seq<char>,
    admin_pw: Seq<char>,
    target: Seq<char>,
    host: Seq<char>,
) -> Seq<InvocationView> {
    match engine {
        DbEngine::MariaDb => seq![
            mysql_sql(
                admin,
                admin_pw,
                "DROP USER "@ + maria_account(target, host) + "; FLUSH PRIVILEGES;"@,
            ),
        ],
        DbEngine::PostgreSql => seq![
            pg_sql(admin, admin_pw, "postgres"@, "DROP USER "@ + spec_pg_ident(target) + ";"@),
        ],
    }
}

/// The client runs that drop an account.
pub fn drop_user(engine: DbEngine, admin: &str, admin_pw: &str, target_user: &str, host: &str) -> (r:
    Vec<Invocation>)
    ensures
        plan_view(r@) == spec_drop_user(engine, admin@, admin_pw@, target_user@, host@),
{
    match engine {
        DbEngine::MariaDb => {
            let who = account(target_user, host);
            let sql = concat3("DROP USER ", who.as_str(), "; FLUSH PRIVILEGES;");
            one(mysql_statement(admin, admin_pw, sql.as_str()))
        },
        DbEngine::PostgreSql => one(drop_postgres_user(admin, admin_pw, target_user)),
    }
}

fn drop_postgres_user(admin: &str, admin_pw: &str, target_user: &str) -> (r: Invocation)
    ensures
        r@ == pg_sql(admin@, admin_pw@, "postgres"@, "DROP USER "@ + spec_pg_ident(target_user@) + ";"@),
{
    let ident = pg_ident(target_user);
    let sql = concat3("DROP USER ", ident.as_str(), ";");
    pg_statement(admin, admin_pw, "postgres", sql.as_str())
}

/// What `rename_user` runs (a MariaDB account keeps its host).
pub open spec fn spec_rename_user(
    engine: DbEngine,
    admin: Seq<char>,
    admin_pw: Seq<char>,
    target: Seq<char>,
    host: Seq<char>,
    new_user: Seq<char>,
) -> Seq<InvocationView> {
    match engine {
        DbEngine::MariaDb => seq![
            mysql_sql(
                admin,
                admin_pw,
                "RENAME USER "@ + maria_account(target, host) + " TO "@ + maria_account(
                    new_user,
                    host,
                ) + "; FLUSH PRIVILEGES;"@,
            ),
        ],
        DbEngine::PostgreSql => seq![
            pg_sql(
                admin,
                admin_pw,
                "postgres"@,
                "ALTER USER "@ + spec_pg_ident(target) + " RENAME TO "@ + spec_pg_ident(new_user)
                    + ";"@,
            ),
        ],
    }
}

/// The client runs that rename an account.
pub fn rename_user(
    engine: DbEngine,
    admin: &str,
    admin_pw: &str,
    target_user: &str,
    host: &str,
    new_user: &str,
) -> (r: Vec<Invocation>)
    ensures
        plan_view(r@) == spec_rename_user(engine, admin@, admin_pw@, target_user@, host@, new_user@),
{
    match engine {
        DbEngine::MariaDb => {
            let from = account(target_user, host);
            let to = account(new_user, host);
            let sql = concat5(
                "RENAME USER ",
                from.as_str(),
                " TO ",
                to.as_str(),
                "; FLUSH PRIVILEGES;",
            );
            one(mysql_statement(admin, admin_pw, sql.as_str()))
        },
        DbEngine::PostgreSql => {
            let a = pg_ident(target_user);
            let b = pg_ident(new_user);
            let sql = concat5("ALTER USER ", a.as_str(), " RENAME TO ", b.as_str(), ";");
            one(pg_statement(admin, admin_pw, "postgres", sql.as_str()))
        },
    }
}

/// What `change_user_password` runs; in both dialects the password's `'` is doubled.
pub open spec fn spec_change_user_password(
    engine: DbEngine,
    admin: Seq<char>,
    admin_pw: Seq<char>,
    target: Seq<char>,
    host: Seq<char>,
    new_pw: Seq<char>,
) -> Seq<InvocationView> {
    match engine {
        DbEngine::MariaDb => seq![
            mysql_sql(
                admin,
                admin_pw,
                "ALTER USER "@ + maria_account(target, host) + " IDENTIFIED BY '"@ + replace_char(
                    new_pw,
                    '\'',
                    "''"@,
                ) + "'; FLUSH PRIVILEGES;"@,
            ),
        ],
        DbEngine::PostgreSql => seq![
            pg_sql(
                admin,
                admin_pw,
                "postgres"@,
                "ALTER USER "@ + spec_pg_ident(target) + " WITH PASSWORD '"@ + spec_pg_literal(
                    new_pw,
                ) + "';"@,
            ),
        ],
    }
}

/// The client runs that set an account's password.
pub fn change_user_password(
    engine: DbEngine,
    admin: &str,
    admin_pw: &str,
    target_user: &str,
    host: &str,
    new_pw: &str,
) -> (r: Vec<Invocation>)
    ensures
        plan_view(r@) == spec_change_user_password(
            engine,
            admin@,
            admin_pw@,
            target_user@,
            host@,
            new_pw@,
        ),
{
    match engine {
        DbEngine::MariaDb => {
            let who = account(target_user, host);
            let pw = replace_all(new_pw, '\'', "''");
            let sql = concat5(
                "ALTER USER ",
                who.as_str(),
                " IDENTIFIED BY '",
                pw.as_str(),
                "'; FLUSH PRIVILEGES;",
            );
            one(mysql_statement(admin, admin_pw, sql.as_str()))
        },
        DbEngine::PostgreSql => {
            let ident = pg_ident(target_user);
            let lit = pg_literal(new_pw);
            let sql = concat5("ALTER USER ", ident.as_str(), " WITH PASSWORD '", lit.as_str(), "';");
            one(pg_statement(admin, admin_pw, "postgres", sql.as_str()))
        },
    }
}

/// PostgreSQL: the rights on schema `public` given along with a database.
pub open spec fn pg_schema_grants(u: Seq<char>) -> Seq<char> {
    "GRANT USAGE, CREATE ON SCHEMA public TO "@ + u
        + "; GRANT ALL PRIVILEGES ON ALL TABLES IN SCHEMA public TO "@ + u
        + "; GRANT ALL PRIVILEGES ON ALL SEQUENCES IN SCHEMA public TO "@ + u
        + "; ALTER DEFAULT PRIVILEGES IN SCHEMA public GRANT ALL ON TABLES TO "@ + u
        + "; ALTER DEFAULT PRIVILEGES IN SCHEMA public GRANT ALL ON SEQUENCES TO "@ + u + ";"@
}

/// What `grant_privileges` runs: for PostgreSQL the database grant, then, in
/// that database, the schema grants.
pub open spec fn spec_grant_privileges(
    engine: DbEngine,
    admin: Seq<char>,
    admin_pw: Seq<char>,
    target: Seq<char>,
    host: Seq<char>,
    db: Seq<char>,
) -> Seq<InvocationView> {
    match engine {
        DbEngine::MariaDb => seq![
            mysql_sql(
                admin,
                admin_pw,
                "GRANT ALL PRIVILEGES ON `"@ + db + "`.* TO "@ + maria_account(target, host)
                    + "; FLUSH PRIVILEGES;"@,
            ),
        ],
        DbEngine::PostgreSql => seq![
            pg_sql(
                admin,
                admin_pw,
                "postgres"@,
                "GRANT ALL PRIVILEGES ON DATABASE "@ + spec_pg_ident(db) + " TO "@ + spec_pg_ident(
                    target,
                ) + ";"@,
            ),
            pg_sql(admin, admin_pw, db, pg_schema_grants(spec_pg_ident(target))),
        ],
    }
}

/// The client runs that give an account every right on a database.
pub fn grant_privileges(
    engine: DbEngine,
    admin: &str,
    admin_pw: &str,
    target_user: &str,
    host: &str,
    db_name: &str,
) -> (r: Vec<Invocation>)
    ensures
        plan_view(r@) == spec_grant_privileges(engine, admin@, admin_pw@, target_user@, host@, db_name@),
{
    match engine {
        DbEngine::MariaDb => {
            let who = account(target_user, host);
            let sql = concat5(
                "GRANT ALL PRIVILEGES ON `",
                db_name,
                "`.* TO ",
                who.as_str(),
                "; FLUSH PRIVILEGES;",
            );
            one(mysql_statement(admin, admin_pw, sql.as_str()))
        },
        DbEngine::PostgreSql => grant_postgres_privileges(admin, admin_pw, target_user, db_name),
    }
}

fn schema_grants(u: &str) -> (r: String)
    ensures
        r@ == pg_schema_grants(u@),
{
    let mut s = String::from_str("GRANT USAGE, CREATE ON SCHEMA public TO ");
    s.append(u);
    s.append("; GRANT ALL PRIVILEGES ON ALL TABLES IN SCHEMA public TO ");
    s.append(u);
    s.append("; GRANT ALL PRIVILEGES ON ALL SEQUENCES IN SCHEMA public TO ");
    s.append(u);
    s.append("; ALTER DEFAULT PRIVILEGES IN SCHEMA public GRANT ALL ON TABLES TO ");
    s.append(u);
    s.append("; ALTER DEFAULT PRIVILEGES IN SCHEMA public GRANT ALL ON SEQUENCES TO ");
    s.append(u);
    s.append(";");
    s
}

fn grant_postgres_privileges(admin: &str, admin_pw: &str, target_user: &str, db_name: &str) -> (r:
    Vec<Invocation>)
    ensures
        plan_view(r@) == spec_grant_privileges(
            DbEngine::PostgreSql,
            admin@,
            admin_pw@,
            target_user@,
            Seq::<char>::empty(),
            db_name@,
        ),
{
    let user_ident = pg_ident(target_user);
    let db_ident = pg_ident(db_name);
    let sql = concat5(
        "GRANT ALL PRIVILEGES ON DATABASE ",
        db_ident.as_str(),
        " TO ",
        user_ident.as_str(),
        ";",
    );
    let first = pg_statement(admin, admin_pw, "postgres", sql.as_str());
    let schema_sql = schema_grants(user_ident.as_str());
    let second = pg_statement(admin, admin_pw, db_name, schema_sql.as_str());
    let ghost a = first@;
    let ghost b = second@;
    let mut v: Vec<Invocation> = Vec::new();
    v.push(first);
    v.push(second);
    assert(plan_view(v@) =~= seq![a, b]);
    v
}

/// How one client run ends an operation step: its error output when it failed.
pub open spec fn spec_step_result(success: bool, stderr: Seq<char>) -> Result<(), Seq<char>> {
    if success {
        Ok(())
    } else {
        Err(stderr)
    }
}

pub open spec fn unit_result_view(r: Result<(), String>) -> Result<(), Seq<char>> {
    match r {
        Ok(()) => Ok(()),
        Err(e) => Err(e@),
    }
}

pub fn step_result(success: bool, stderr: &str) -> (r: Result<(), String>)
    ensures
        unit_result_view(r) == spec_step_result(success, stderr@),
{
    if success {
        Ok(())
    } else {
        Err(String::from_str(stderr))
    }
}

// ---------------------------------------------------------------- import

/// A file extension naming gzip: `gz` in any ASCII case.
pub open spec fn is_gz(e: Seq<char>) -> bool {
    e.len() == 2 && (e[0] == 'g' || e[0] == 'G') && (e[1] == 'z' || e[1] == 'Z')
}

pub open spec fn spec_is_gzip_path(path: Seq<char>) -> bool {
    match path_extension(path) {
        Some(e) => is_gz(e),
        None => false,
    }
}

/// Whether a dump file is gzip-compressed, going by its extension.
pub fn is_gzip_path(sql_path: &str) -> (r: bool)
    ensures
        r == spec_is_gzip_path(sql_path@),
{
    match extension(sql_path) {
        Some(e) => {
            let v = chars_of(e.as_str());
            v.len() == 2 && (v[0] == 'g' || v[0] == 'G') && (v[1] == 'z' || v[1] == 'Z')
        },
        None => false,
    }
}

/// The `sed -E` script a dump passes through before the client reads it: it
/// drops PHP warning and notice lines that some exporters put at the start of a
/// line, and maps MySQL 8 collations to ones MariaDB knows.
pub open spec fn dump_cleanup_script() -> Seq<char> {
    "/^<br ?\\/>[[:space:]]*$/d\n/^<b>Warning/d\n/^<b>Notice/d\n/^<b>Deprecated/d\n/^<b>Fatal error/d\n/^<b>Parse error/d\n/^Warning: /d\n/^Notice: /d\ns/utf8mb4_0900_ai_ci/utf8mb4_unicode_ci/g\ns/utf8mb4_0900_as_cs/utf8mb4_unicode_ci/g\ns/utf8mb4_0900_bin/utf8mb4_bin/g"@
}

/// The client that reads the dump on its standard input.
pub open spec fn spec_import_client(
    engine: DbEngine,
    user: Seq<char>,
    password: Seq<char>,
    db: Seq<char>,
) -> InvocationView {
    match engine {
        DbEngine::MariaDb => mysql_run(user, password, seq!["--default-character-set=utf8mb4"@, db]),
        DbEngine::PostgreSql => pg_run("psql"@, user, password, db, seq!["-v"@, "ON_ERROR_STOP=1"@]),
    }
}

/// The pipeline a dump file flows through: `gunzip -c` for a gzip file, the
/// cleanup `sed`, then the client.
pub open spec fn spec_import_stages(
    engine: DbEngine,
    user: Seq<char>,
    password: Seq<char>,
    db: Seq<char>,
    path: Seq<char>,
) -> Seq<InvocationView> {
    (if spec_is_gzip_path(path) {
        seq![("gunzip"@, seq!["-c"@], Seq::<(Seq<char>, Seq<char>)>::empty())]
    } else {
        Seq::<InvocationView>::empty()
    }) + seq![
        ("sed"@, seq!["-E"@, dump_cleanup_script()], Seq::<(Seq<char>, Seq<char>)>::empty()),
        spec_import_client(engine, user, password, db),
    ]
}

/// How a dump is to be imported: whether the target database is first created
/// when missing, and the pipeline whose first stage reads the file.
#[derive(Debug)]
pub struct ImportPlan {
    pub create_first: bool,
    pub stages: Vec<Invocation>,
}

pub open spec fn import_plan_view(r: Result<ImportPlan, String>) -> Result<
    (bool, Seq<InvocationView>),
    Seq<char>,
> {
    match r {
        Ok(p) => Ok((p.create_first, plan_view(p.stages@))),
        Err(e) => Err(e@),
    }
}

pub open spec fn empty_target_message() -> Seq<char> {
    "대상 데이터베이스 이름이 비어 있습니다."@
}

pub open spec fn missing_file_message() -> Seq<char> {
    "SQL 파일을 찾을 수 없습니다."@
}

/// What `import_sql` answers: an error for a blank database name or a missing
/// file, else the plan.
pub open spec fn spec_import_sql(
    engine: DbEngine,
    user: Seq<char>,
    password: Seq<char>,
    db: Seq<char>,
    path: Seq<char>,
    create_db: bool,
    file_exists: bool,
) -> Result<(bool, Seq<InvocationView>), Seq<char>> {
    if trim(db).len() == 0 {
        Err(empty_target_message())
    } else if !file_exists {
        Err(missing_file_message())
    } else {
        Ok((create_db, spec_import_stages(engine, user, password, db, path)))
    }
}

fn simple_invocation(program: &str, args: Vec<String>) -> (r: Invocation)
    ensures
        r@ == (program@, views(args@), Seq::<(Seq<char>, Seq<char>)>::empty()),
{
    let env: Vec<(String, String)> = Vec::new();
    assert(env_views(env@) =~= Seq::<(Seq<char>, Seq<char>)>::empty());
    Invocation { program: String::from_str(program), args, env }
}

fn import_client(engine: DbEngine, user: &str, password: &str, db_name: &str) -> (r: Invocation)
    ensures
        r@ == spec_import_client(engine, user@, password@, db_name@),
{
    match engine {
        DbEngine::MariaDb => mysql(
            user,
            password,
            strings2("--default-character-set=utf8mb4", db_name),
        ),
        DbEngine::PostgreSql => postgres(
            "psql",
            user,
            password,
            db_name,
            strings2("-v", "ON_ERROR_STOP=1"),
        ),
    }
}

/// The plan for importing the SQL dump at `sql_path` into `db_name`
/// (`file_exists`: whether that file exists). With `create_db` the database is
/// first created when missing (see `create_database_if_not_exists`).
pub fn import_sql(
    engine: DbEngine,
    user: &str,
    password: &str,
    db_name: &str,
    sql_path: &str,
    create_db: bool,
    file_exists: bool,
) -> (r: Result<ImportPlan, String>)
    ensures
        import_plan_view(r) == spec_import_sql(
            engine,
            user@,
            password@,
            db_name@,
            sql_path@,
            create_db,
            file_exists,
        ),
{
    let trimmed = trim_ws(db_name);
    if trimmed.as_str().is_empty() {
        return Err(String::from_str("대상 데이터베이스 이름이 비어 있습니다."));
    }
    if !file_exists {
        return Err(String::from_str("SQL 파일을 찾을 수 없습니다."));
    }
    let mut stages: Vec<Invocation> = Vec::new();
    if is_gzip_path(sql_path) {
        let mut args: Vec<String> = Vec::new();
        push_str(&mut args, "-c");
        assert(views(args@) =~= seq!["-c"@]);
        stages.push(simple_invocation("gunzip", args));
    }
    let ghost before = plan_view(stages@);
    let script = String::from_str(
        "/^<br ?\\/>[[:space:]]*$/d\n/^<b>Warning/d\n/^<b>Notice/d\n/^<b>Deprecated/d\n/^<b>Fatal error/d\n/^<b>Parse error/d\n/^Warning: /d\n/^Notice: /d\ns/utf8mb4_0900_ai_ci/utf8mb4_unicode_ci/g\ns/utf8mb4_0900_as_cs/utf8mb4_unicode_ci/g\ns/utf8mb4_0900_bin/utf8mb4_bin/g",
    );
    let sed = simple_invocation("sed", strings2("-E", script.as_str()));
    let client = import_client(engine, user, password, db_name);
    let ghost sed_view = sed@;
    let ghost client_view = client@;
    stages.push(sed);
    stages.push(client);
    assert(plan_view(stages@) =~= before + seq![sed_view, client_view]);
    assert(plan_view(stages@) =~= spec_import_stages(engine, user@, password@, db_name@, sql_path@));
    Ok(ImportPlan { create_first: create_db, stages })
}

/// `import_sql` into an existing database.
pub fn restore_database(
    engine: DbEngine,
    user: &str,
    password: &str,
    db_name: &str,
    sql_path: &str,
    file_exists: bool,
) -> (r: Result<ImportPlan, String>)
    ensures
        import_plan_view(r) == spec_import_sql(
            engine,
            user@,
            password@,
            db_name@,
            sql_path@,
            false,
            file_exists,
        ),
{
    import_sql(engine, user, password, db_name, sql_path, false, file_exists)
}

/// PostgreSQL: the query that prints `1` when the database exists.
pub open spec fn pg_exists_sql(db: Seq<char>) -> Seq<char> {
    "SELECT 1 FROM pg_database WHERE datname = '"@ + spec_pg_literal(db) + "';"@
}

/// The first client run of "create the database if it is missing": for MariaDB
/// the whole of it; for PostgreSQL the existence query, whose outcome
/// `create_postgres_database_if_not_exists` reads.
pub open spec fn spec_create_if_missing(
    engine: DbEngine,
    user: Seq<char>,
    password: Seq<char>,
    db: Seq<char>,
) -> InvocationView {
    match engine {
        DbEngine::MariaDb => mysql_sql(user, password, maria_create_if_missing_sql(db)),
        DbEngine::PostgreSql => pg_run(
            "psql"@,
            user,
            password,
            "postgres"@,
            seq!["-At"@, "-c"@, pg_exists_sql(db)],
        ),
    }
}

pub fn create_database_if_not_exists(engine: DbEngine, user: &str, password: &str, db_name: &str) -> (r:
    Invocation)
    ensures
        r@ == spec_create_if_missing(engine, user@, password@, db_name@),
{
    match engine {
        DbEngine::MariaDb => {
            let sql = concat3(
                "CREATE DATABASE IF NOT EXISTS `",
                db_name,
                "` CHARACTER SET utf8mb4 COLLATE utf8mb4_unicode_ci;",
            );
            mysql_statement(user, password, sql.as_str())
        },
        DbEngine::PostgreSql => {
            let lit = pg_literal(db_name);
            let sql = concat3("SELECT 1 FROM pg_database WHERE datname = '", lit.as_str(), "';");
            let mut rest = strings2("-At", "-c");
            push_str(&mut rest, sql.as_str());
            assert(views(rest@) =~= seq!["-At"@, "-c"@, sql@]);
            postgres("psql", user, password, "postgres", rest)
        },
    }
}

/// After the PostgreSQL existence query: its error output when it failed,
/// nothing more to do when it printed `1`, else the run that creates the database.
pub open spec fn spec_after_exists_check(
    user: Seq<char>,
    password: Seq<char>,
    db: Seq<char>,
    success: bool,
    stdout: Seq<char>,
    stderr: Seq<char>,
) -> Result<Option<InvocationView>, Seq<char>> {
    if !success {
        Err(stderr)
    } else if trim(stdout) == "1"@ {
        Ok(None)
    } else {
        Ok(Some(pg_sql(user, password, "postgres"@, pg_create_sql(db))))
    }
}

pub open spec fn next_step_view(r: Result<Option<Invocation>, String>) -> Result<
    Option<InvocationView>,
    Seq<char>,
> {
    match r {
        Ok(Some(i)) => Ok(Some(i@)),
        Ok(None) => Ok(None),
        Err(e) => Err(e@),
    }
}

pub fn create_postgres_database_if_not_exists(
    user: &str,
    password: &str,
    db_name: &str,
    check_success: bool,
    check_stdout: &str,
    check_stderr: &str,
) -> (r: Result<Option<Invocation>, String>)
    ensures
        next_step_view(r) == spec_after_exists_check(
            user@,
            password@,
            db_name@,
            check_success,
            check_stdout@,
            check_stderr@,
        ),
{
    if !check_success {
        return Err(String::from_str(check_stderr));
    }
    let out = trim_ws(check_stdout);
    if same_text(out.as_str(), "1") {
        return Ok(None);
    }
    Ok(Some(create_postgres_database(user, password, db_name)))
}

/// How the import ends: the client's trimmed error output, or a fixed message
/// when that is empty.
pub open spec fn spec_import_result(success: bool, stderr: Seq<char>) -> Result<(), Seq<char>> {
    if success {
        Ok(())
    } else if trim(stderr).len() == 0 {
        Err("가져오기 실패 (원인 불명)"@)
    } else {
        Err(trim(stderr))
    }
}

pub fn import_result(success: bool, stderr: &str) -> (r: Result<(), String>)
    ensures
        unit_result_view(r) == spec_import_result(success, stderr@),
{
    if success {
        return Ok(());
    }
    let err = trim_ws(stderr);
    if err.as_str().is_empty() {
        Err(String::from_str("가져오기 실패 (원인 불명)"))
    } else {
        Err(err)
    }
}

// ---------------------------------------------------------------- saved connections

pub open spec fn cred_view(c: DbCredentials) -> (DbEngine, Seq<char>, Seq<char>) {
    (c.engine, c.user@, c.password@)
}

pub open spec fn creds_view(s: Seq<DbCredentials>) -> Seq<(DbEngine, Seq<char>, Seq<char>)> {
    s.map_values(|c: DbCredentials| cred_view(c))
}

/// Saved connections other than the one for `engine` and `user`.
pub open spec fn other_login(engine: DbEngine, user: Seq<char>) -> spec_fn(
    (DbEngine, Seq<char>, Seq<char>),
) -> bool {
    |c: (DbEngine, Seq<char>, Seq<char>)| !(c.0 == engine && c.1 == user)
}

/// At most how many connections are kept.
pub const MAX_SAVED_CONNECTIONS: usize = 12;

/// The saved list after a successful connection: the connection first, any
/// earlier entry for the same engine and user dropped, at most twelve kept.
pub open spec fn spec_saved_connections(
    list: Seq<(DbEngine, Seq<char>, Seq<char>)>,
    engine: DbEngine,
    user: Seq<char>,
    password: Seq<char>,
) -> Seq<(DbEngine, Seq<char>, Seq<char>)> {
    take_at_most(
        seq![(engine, user, password)] + list.filter(other_login(engine, user)),
        MAX_SAVED_CONNECTIONS as int,
    )
}

pub fn save_db_connection(list: &Vec<DbCredentials>, engine: DbEngine, user: &str, password: &str) -> (r:
    Vec<DbCredentials>)
    ensures
        creds_view(r@) == spec_saved_connections(creds_view(list@), engine, user@, password@),
{
    let mut out: Vec<DbCredentials> = Vec::new();
    out.push(
        DbCredentials {
            engine,
            user: String::from_str(user),
            password: String::from_str(password),
        },
    );
    let ghost head = seq![(engine, user@, password@)];
    let ghost all = creds_view(list@);
    assert(creds_view(out@) =~= head);
    let mut i: usize = 0;
    while i < list.len()
        invariant
            i <= list.len(),
            all == creds_view(list@),
            creds_view(out@) == head + all.take(i as int).filter(other_login(engine, user@)),
        decreases list.len() - i,
    {
        proof {
            reveal_with_fuel(Seq::filter, 1);
            assert(all.take(i + 1).drop_last() =~= all.take(i as int));
        }
        let ghost before = all.take(i as int).filter(other_login(engine, user@));
        let c = &list[i];
        if !(c.engine == engine && same_text(c.user.as_str(), user)) {
            let ghost prev = creds_view(out@);
            out.push(c.duplicate());
            assert(creds_view(out@) =~= prev.push(cred_view(list@[i as int])));
        }
        i += 1;
    }
    assert(all.take(list.len() as int) =~= all);
    if out.len() > MAX_SAVED_CONNECTIONS {
        let ghost full = creds_view(out@);
        out.truncate(MAX_SAVED_CONNECTIONS);
        assert(creds_view(out@) =~= full.take(MAX_SAVED_CONNECTIONS as int));
    }
    out
}

} // verus!

verus! {

/// No two saved connections are for the same engine and user.
pub open spec fn distinct_logins(s: Seq<(DbEngine, Seq<char>, Seq<char>)>) -> bool {
    forall|i: int, j: int|
        0 <= i < j < s.len() ==> !(#[trigger] s[i].0 == #[trigger] s[j].0 && s[i].1 == s[j].1)
}

proof fn filter_keeps_distinct(s: Seq<(DbEngine, Seq<char>, Seq<char>)>, engine: DbEngine, user: Seq<char>)
    requires
        distinct_logins(s),
    ensures
        distinct_logins(s.filter(other_login(engine, user))),
    decreases s.len(),
{
    broadcast use vstd::seq_lib::group_filter_ensures;

    reveal_with_fuel(Seq::filter, 1);
    if s.len() > 0 {
        let init = s.drop_last();
        assert(distinct_logins(init)) by {
            assert forall|i: int, j: int| 0 <= i < j < init.len() implies !(#[trigger] init[i].0
                == #[trigger] init[j].0 && init[i].1 == init[j].1) by {
                assert(init[i] == s[i] && init[j] == s[j]);
            }
        }
        filter_keeps_distinct(init, engine, user);
        let f = init.filter(other_login(engine, user));
        if other_login(engine, user)(s.last()) {
            let g = f.push(s.last());
            assert forall|i: int, j: int| 0 <= i < j < g.len() implies !(#[trigger] g[i].0
                == #[trigger] g[j].0 && g[i].1 == g[j].1) by {
                if j == g.len() - 1 {
                    assert(f.contains(g[i]));
                    init.lemma_filter_contains_rev(other_login(engine, user), g[i]);
                    let k = choose|k: int| 0 <= k < init.len() && init[k] == g[i];
                    assert(s[k] == g[i]);
                    assert(s[s.len() - 1] == g[j]);
                } else {
                    assert(g[i] == f[i] && g[j] == f[j]);
                }
            }
        }
    }
}

/// The saved list after a connection: that connection comes first, no other
/// entry is for its engine and user, there are at most twelve entries, and a
/// list without two entries for one login stays so.
pub proof fn saved_connections_law(
    list: Seq<(DbEngine, Seq<char>, Seq<char>)>,
    engine: DbEngine,
    user: Seq<char>,
    password: Seq<char>,
)
    ensures
        ({
            let out = spec_saved_connections(list, engine, user, password);
            &&& out.len() >= 1
            &&& out[0] == (engine, user, password)
            &&& out.len() <= MAX_SAVED_CONNECTIONS
            &&& forall|i: int| 1 <= i < out.len() ==> !(#[trigger] out[i].0 == engine && out[i].1 == user)
            &&& distinct_logins(list) ==> distinct_logins(out)
        }),
{
    broadcast use vstd::seq_lib::group_filter_ensures;

    let kept = list.filter(other_login(engine, user));
    let all = seq![(engine, user, password)] + kept;
    let out = spec_saved_connections(list, engine, user, password);
    assert(out.len() <= all.len());
    assert forall|i: int| 1 <= i < out.len() implies !(#[trigger] out[i].0 == engine && out[i].1
        == user) by {
        assert(out[i] == all[i]);
        assert(all[i] == kept[i - 1]);
        assert(other_login(engine, user)(kept[i - 1]));
    }
    if distinct_logins(list) {
        filter_keeps_distinct(list, engine, user);
        assert forall|i: int, j: int| 0 <= i < j < out.len() implies !(#[trigger] out[i].0
            == #[trigger] out[j].0 && out[i].1 == out[j].1) by {
            assert(out[i] == all[i] && out[j] == all[j]);
            assert(all[j] == kept[j - 1]);
            if i > 0 {
                assert(all[i] == kept[i - 1]);
            } else {
                assert(other_login(engine, user)(kept[j - 1]));
            }
        }
    }
}

} // verus!

verus! {

/// The import pipeline: a gzip dump is first unpacked with `gunzip -c`; the
/// cleanup `sed` always comes right before the client, which comes last.
pub proof fn import_pipeline_order(
    engine: DbEngine,
    user: Seq<char>,
    password: Seq<char>,
    db: Seq<char>,
    path: Seq<char>,
)
    ensures
        ({
            let st = spec_import_stages(engine, user, password, db, path);
            &&& st.len() == (if spec_is_gzip_path(path) {
                3int
            } else {
                2int
            })
            &&& spec_is_gzip_path(path) ==> st[0].0 == "gunzip"@ && st[0].1 == seq!["-c"@]
            &&& st[st.len() - 2].0 == "sed"@
            &&& st[st.len() - 1] == spec_import_client(engine, user, password, db)
        }),
{
}

} // verus!

verus! {

/// Reading a quoted text back: every doubled `c` stands for one `c`.
pub open spec fn collapse_doubled(s: Seq<char>, c: char) -> Seq<char>
    decreases s.len(),
{
    if s.len() == 0 {
        seq![]
    } else if s.len() >= 2 && s[0] == c && s[1] == c {
        seq![c] + collapse_doubled(s.skip(2), c)
    } else {
        seq![s[0]] + collapse_doubled(s.drop_first(), c)
    }
}

proof fn lemma_doubling_round_trips(v: Seq<char>, c: char)
    ensures
        collapse_doubled(replace_char(v, c, seq![c, c]), c) == v,
    decreases v.len(),
{
    if v.len() > 0 {
        lemma_doubling_round_trips(v.drop_first(), c);
        let rest = replace_char(v.drop_first(), c, seq![c, c]);
        let all = replace_char(v, c, seq![c, c]);
        if v[0] == c {
            assert(all == seq![c, c] + rest);
            assert(all.skip(2) =~= rest);
        } else {
            assert(all == seq![v[0]] + rest);
            assert(all.drop_first() =~= rest);
        }
        assert(seq![v[0]] + v.drop_first() =~= v);
    }
}

/// Quoting gives the value back: a PostgreSQL identifier is the value between
/// double quotes with each inner `"` doubled, and a string literal's contents
/// are the value with each `'` doubled, so neither can end early.
pub proof fn quoting_round_trips(v: Seq<char>)
    ensures
        spec_pg_ident(v).len() >= 2,
        spec_pg_ident(v)[0] == '"',
        spec_pg_ident(v).last() == '"',
        collapse_doubled(spec_pg_ident(v).subrange(1, spec_pg_ident(v).len() - 1), '"') == v,
        collapse_doubled(spec_pg_literal(v), '\'') == v,
{
    reveal_strlit("\"");
    reveal_strlit("\"\"");
    reveal_strlit("''");
    assert("\"\""@ =~= seq!['"', '"']);
    assert("''"@ =~= seq!['\'', '\'']);
    lemma_doubling_round_trips(v, '"');
    lemma_doubling_round_trips(v, '\'');
    let inner = replace_char(v, '"', "\"\""@);
    let q = spec_pg_ident(v);
    assert(q == "\""@ + inner + "\""@);
    assert(q.subrange(1, q.len() - 1) =~= inner);
}

} // verus!

verus! {

/// A client run logs in as `user` with `password`: for MariaDB with
/// `-u<user> -p<password>` as its first arguments; for PostgreSQL over TCP to
/// `127.0.0.1` as `-U <user>`, the password handed over in `PGPASSWORD` when
/// there is one (and no environment when there is none).
pub open spec fn logs_in(
    engine: DbEngine,
    run: InvocationView,
    user: Seq<char>,
    password: Seq<char>,
) -> bool {
    match engine {
        DbEngine::MariaDb => {
            &&& run.1.len() >= 2
            &&& run.1[0] == "-u"@ + user
            &&& run.1[1] == "-p"@ + password
        },
        DbEngine::PostgreSql => {
            &&& run.1.len() >= 4
            &&& run.1[0] == "-h"@
            &&& run.1[1] == "127.0.0.1"@
            &&& run.1[2] == "-U"@
            &&& run.1[3] == user
            &&& password.len() > 0 ==> run.2 == seq![("PGPASSWORD"@, password)]
            &&& password.len() == 0 ==> run.2.len() == 0
        },
    }
}

/// Every run of a plan logs in as `user` with `password`.
pub open spec fn plan_logs_in(
    engine: DbEngine,
    plan: Seq<InvocationView>,
    user: Seq<char>,
    password: Seq<char>,
) -> bool {
    forall|k: int| 0 <= k < plan.len() ==> logs_in(engine, #[trigger] plan[k], user, password)
}

proof fn lemma_pg_run_logs_in(
    program: Seq<char>,
    user: Seq<char>,
    password: Seq<char>,
    db: Seq<char>,
    rest: Seq<Seq<char>>,
)
    ensures
        logs_in(DbEngine::PostgreSql, pg_run(program, user, password, db, rest), user, password),
{
    let run = pg_run(program, user, password, db, rest);
    assert(run.1[0] == "-h"@ && run.1[1] == "127.0.0.1"@ && run.1[2] == "-U"@ && run.1[3] == user);
}

proof fn lemma_maria_run_logs_in(
    program: Seq<char>,
    user: Seq<char>,
    password: Seq<char>,
    rest: Seq<Seq<char>>,
)
    ensures
        logs_in(DbEngine::MariaDb, maria_run(program, user, password, rest), user, password),
{
    let run = maria_run(program, user, password, rest);
    assert(run.1[0] == "-u"@ + user && run.1[1] == "-p"@ + password);
}

/// Every client run the library plans logs in with the login it was given:
/// listing, dumping, importing, and every run that creates, drops or renames a
/// database or an account, sets a password or grants rights. A PostgreSQL run
/// with a password carries it in `PGPASSWORD`, so connecting over TCP succeeds.
pub proof fn client_runs_use_the_given_login(
    engine: DbEngine,
    user: Seq<char>,
    password: Seq<char>,
    db: Seq<char>,
    other_db: Seq<char>,
    target: Seq<char>,
    host: Seq<char>,
    secret: Seq<char>,
)
    ensures
        logs_in(engine, spec_list_databases(engine, user, password), user, password),
        logs_in(engine, spec_list_users(engine, user, password), user, password),
        logs_in(engine, spec_backup_database(engine, user, password, db), user, password),
        logs_in(engine, spec_import_client(engine, user, password, db), user, password),
        logs_in(engine, spec_create_if_missing(engine, user, password, db), user, password),
        plan_logs_in(engine, spec_create_database(engine, user, password, db), user, password),
        plan_logs_in(engine, spec_drop_database(engine, user, password, db), user, password),
        spec_rename_database(engine, user, password, db, other_db) matches Ok(plan) ==> plan_logs_in(
            engine,
            plan,
            user,
            password,
        ),
        plan_logs_in(engine, spec_create_user(engine, user, password, target, secret, host), user, password),
        plan_logs_in(engine, spec_drop_user(engine, user, password, target, host), user, password),
        plan_logs_in(
            engine,
            spec_rename_user(engine, user, password, target, host, other_db),
            user,
            password,
        ),
        plan_logs_in(
            engine,
            spec_change_user_password(engine, user, password, target, host, secret),
            user,
            password,
        ),
        plan_logs_in(engine, spec_grant_privileges(engine, user, password, target, host, db), user, password),
        forall|ok: bool, out: Seq<char>, err: Seq<char>|
            #[trigger] spec_after_exists_check(user, password, db, ok, out, err) matches Ok(Some(run))
                ==> logs_in(DbEngine::PostgreSql, run, user, password),
{
    match engine {
        DbEngine::MariaDb => {
            lemma_maria_run_logs_in("mysql"@, user, password, seq!["-e"@, "SHOW DATABASES;"@, "--skip-column-names"@]);
            lemma_maria_run_logs_in(
                "mysql"@,
                user,
                password,
                seq![
                    "-e"@,
                    "SELECT User, Host FROM mysql.user WHERE User != '' ORDER BY User, Host;"@,
                    "--skip-column-names"@,
                ],
            );
            lemma_maria_run_logs_in("mysqldump"@, user, password, seq!["--single-transaction"@, db]);
            lemma_maria_run_logs_in("mysql"@, user, password, seq!["--default-character-set=utf8mb4"@, db]);
            assert forall|sql: Seq<char>| logs_in(engine, #[trigger] mysql_sql(user, password, sql), user, password) by {
                lemma_maria_run_logs_in("mysql"@, user, password, seq!["-e"@, sql]);
            }
        },
        DbEngine::PostgreSql => {
            lemma_pg_run_logs_in(
                "psql"@,
                user,
                password,
                "postgres"@,
                seq![
                    "-At"@,
                    "-c"@,
                    "SELECT datname FROM pg_database WHERE datistemplate = false ORDER BY datname;"@,
                ],
            );
            lemma_pg_run_logs_in(
                "psql"@,
                user,
                password,
                "postgres"@,
                seq![
                    "-At"@,
                    "-c"@,
                    "SELECT rolname FROM pg_roles WHERE rolcanlogin = true ORDER BY rolname;"@,
                ],
            );
            lemma_pg_run_logs_in("pg_dump"@, user, password, db, seq!["--no-owner"@, "--no-privileges"@]);
            lemma_pg_run_logs_in("psql"@, user, password, db, seq!["-v"@, "ON_ERROR_STOP=1"@]);
            lemma_pg_run_logs_in("psql"@, user, password, "postgres"@, seq!["-At"@, "-c"@, pg_exists_sql(db)]);
        },
    }
    assert forall|d: Seq<char>, sql: Seq<char>| logs_in(DbEngine::PostgreSql, #[trigger] pg_sql(user, password, d, sql), user, password) by {
        lemma_pg_run_logs_in("psql"@, user, password, d, seq!["-v"@, "ON_ERROR_STOP=1"@, "-c"@, sql]);
    }
}

} // verus!
