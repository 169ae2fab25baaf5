use localman::database::{
    backup_database, change_user_password, create_database, create_database_if_not_exists,
    create_postgres_database_if_not_exists, create_user, drop_database, drop_user,
    grant_privileges, import_result, import_sql, is_gzip_path, list_databases, list_users,
    parse_databases, parse_users, pg_ident, pg_literal, rename_database, rename_user,
    restore_database, save_db_connection, step_result, DbCredentials, DbEngine, Invocation,
};

fn args(i: &Invocation) -> Vec<&str> {
    i.args.iter().map(|s| s.as_str()).collect()
}

fn creds(engine: DbEngine, user: &str, password: &str) -> DbCredentials {
    DbCredentials { engine, user: user.into(), password: password.into() }
}

#[test]
fn engine_labels_and_default() {
    assert_eq!(DbEngine::MariaDb.label(), "MariaDB");
    assert_eq!(DbEngine::PostgreSql.label(), "PostgreSQL");
    assert_eq!(DbEngine::default(), DbEngine::MariaDb);
    let c = DbCredentials::default();
    assert_eq!(c.engine, DbEngine::MariaDb);
    assert!(c.user.is_empty() && c.password.is_empty());
}

#[test]
fn postgres_quoting() {
    assert_eq!(pg_ident("app"), "\"app\"");
    assert_eq!(pg_ident("we\"ird"), "\"we\"\"ird\"");
    assert_eq!(pg_literal("it's"), "it''s");
    assert_eq!(pg_literal("plain"), "plain");
}

#[test]
fn listing_invocations() {
    let m = list_databases(DbEngine::MariaDb, "root", "pw");
    assert_eq!(m.program, "mysql");
    assert_eq!(args(&m), vec!["-uroot", "-ppw", "-e", "SHOW DATABASES;", "--skip-column-names"]);
    assert!(m.env.is_empty());
    let p = list_databases(DbEngine::PostgreSql, "postgres", "secret");
    assert_eq!(p.program, "psql");
    assert_eq!(
        args(&p),
        vec![
            "-h",
            "127.0.0.1",
            "-U",
            "postgres",
            "-d",
            "postgres",
            "-At",
            "-c",
            "SELECT datname FROM pg_database WHERE datistemplate = false ORDER BY datname;"
        ]
    );
    assert_eq!(p.env, vec![("PGPASSWORD".to_string(), "secret".to_string())]);
    let p2 = list_users(DbEngine::PostgreSql, "postgres", "");
    assert!(p2.env.is_empty());
    let mu = list_users(DbEngine::MariaDb, "root", "");
    assert_eq!(
        args(&mu),
        vec![
            "-uroot",
            "-p",
            "-e",
            "SELECT User, Host FROM mysql.user WHERE User != '' ORDER BY User, Host;",
            "--skip-column-names"
        ]
    );
}

#[test]
fn listing_parses_output() {
    let names: Vec<String> = parse_databases(
        DbEngine::MariaDb,
        true,
        "information_schema\nshop\nmysql\nperformance_schema\nsys\nblog\n",
    )
    .into_iter()
    .map(|d| d.name)
    .collect();
    assert_eq!(names, vec!["shop", "blog"]);
    let pg: Vec<String> =
        parse_databases(DbEngine::PostgreSql, true, "postgres\napp\n").into_iter().map(|d| d.name).collect();
    assert_eq!(pg, vec!["app"]);
    assert!(parse_databases(DbEngine::MariaDb, false, "shop\n").is_empty());

    let users = parse_users(DbEngine::MariaDb, true, "root\tlocalhost\nbroken\napp\t%\textra\n");
    assert_eq!(users.len(), 2);
    assert_eq!((users[0].username.as_str(), users[0].host.as_str()), ("root", "localhost"));
    assert_eq!((users[1].username.as_str(), users[1].host.as_str()), ("app", "%\textra"));
    let roles = parse_users(DbEngine::PostgreSql, true, "postgres\napp\n");
    assert_eq!(roles.len(), 2);
    assert_eq!(roles[1].host, "local");
    assert!(parse_users(DbEngine::PostgreSql, false, "x\n").is_empty());
}

#[test]
fn database_statements() {
    let c = create_database(DbEngine::MariaDb, "root", "pw", "shop");
    assert_eq!(c.len(), 1);
    assert_eq!(
        args(&c[0]),
        vec!["-uroot", "-ppw", "-e", "CREATE DATABASE `shop` CHARACTER SET utf8mb4 COLLATE utf8mb4_unicode_ci;"]
    );
    let pc = create_database(DbEngine::PostgreSql, "postgres", "", "shop");
    assert_eq!(pc[0].args.last().unwrap(), "CREATE DATABASE \"shop\" ENCODING 'UTF8';");
    assert_eq!(pc[0].args[6..9].to_vec(), vec!["-v", "ON_ERROR_STOP=1", "-c"]);
    let d = drop_database(DbEngine::MariaDb, "root", "pw", "shop");
    assert_eq!(d[0].args.last().unwrap(), "DROP DATABASE `shop`;");
    let pd = drop_database(DbEngine::PostgreSql, "postgres", "", "shop");
    assert_eq!(pd[0].args.last().unwrap(), "DROP DATABASE \"shop\";");
}

#[test]
fn renaming_a_database() {
    let err = rename_database(DbEngine::MariaDb, "root", "", "a", "b").unwrap_err();
    assert_eq!(
        err,
        "MariaDB/MySQL은 안전한 DB 이름 변경을 직접 지원하지 않습니다. 새 DB 생성 후 덤프/복원으로 이관하세요."
    );
    let plan = rename_database(DbEngine::PostgreSql, "postgres", "", "a", "b").unwrap();
    assert_eq!(plan[0].args.last().unwrap(), "ALTER DATABASE \"a\" RENAME TO \"b\";");
}

#[test]
fn backup_dumps() {
    let m = backup_database(DbEngine::MariaDb, "root", "pw", "shop");
    assert_eq!(m.program, "mysqldump");
    assert_eq!(args(&m), vec!["-uroot", "-ppw", "--single-transaction", "shop"]);
    let p = backup_database(DbEngine::PostgreSql, "postgres", "pw", "shop");
    assert_eq!(p.program, "pg_dump");
    assert_eq!(
        args(&p),
        vec!["-h", "127.0.0.1", "-U", "postgres", "-d", "shop", "--no-owner", "--no-privileges"]
    );
}

#[test]
fn account_statements() {
    let c = create_user(DbEngine::MariaDb, "root", "", "app", "s3cret", "localhost");
    assert_eq!(
        c[0].args.last().unwrap(),
        "CREATE USER 'app'@'localhost' IDENTIFIED BY 's3cret'; FLUSH PRIVILEGES;"
    );
    let pc = create_user(DbEngine::PostgreSql, "postgres", "", "app", "it's", "local");
    assert_eq!(pc[0].args.last().unwrap(), "CREATE USER \"app\" WITH PASSWORD 'it''s';");
    let d = drop_user(DbEngine::MariaDb, "root", "", "app", "%");
    assert_eq!(d[0].args.last().unwrap(), "DROP USER 'app'@'%'; FLUSH PRIVILEGES;");
    let pd = drop_user(DbEngine::PostgreSql, "postgres", "", "app", "local");
    assert_eq!(pd[0].args.last().unwrap(), "DROP USER \"app\";");
    let r = rename_user(DbEngine::MariaDb, "root", "", "app", "localhost", "web");
    assert_eq!(
        r[0].args.last().unwrap(),
        "RENAME USER 'app'@'localhost' TO 'web'@'localhost'; FLUSH PRIVILEGES;"
    );
    let pr = rename_user(DbEngine::PostgreSql, "postgres", "", "app", "local", "web");
    assert_eq!(pr[0].args.last().unwrap(), "ALTER USER \"app\" RENAME TO \"web\";");
    let p = change_user_password(DbEngine::MariaDb, "root", "", "app", "localhost", "o'k");
    assert_eq!(
        p[0].args.last().unwrap(),
        "ALTER USER 'app'@'localhost' IDENTIFIED BY 'o''k'; FLUSH PRIVILEGES;"
    );
    let pp = change_user_password(DbEngine::PostgreSql, "postgres", "", "app", "local", "o'k");
    assert_eq!(pp[0].args.last().unwrap(), "ALTER USER \"app\" WITH PASSWORD 'o''k';");
}

#[test]
fn granting_rights() {
    let m = grant_privileges(DbEngine::MariaDb, "root", "", "app", "localhost", "shop");
    assert_eq!(m.len(), 1);
    assert_eq!(
        m[0].args.last().unwrap(),
        "GRANT ALL PRIVILEGES ON `shop`.* TO 'app'@'localhost'; FLUSH PRIVILEGES;"
    );
    let p = grant_privileges(DbEngine::PostgreSql, "postgres", "pw", "app", "local", "shop");
    assert_eq!(p.len(), 2);
    assert_eq!(p[0].args[5], "postgres");
    assert_eq!(p[0].args.last().unwrap(), "GRANT ALL PRIVILEGES ON DATABASE \"shop\" TO \"app\";");
    assert_eq!(p[1].args[5], "shop");
    assert_eq!(
        p[1].args.last().unwrap(),
        "GRANT USAGE, CREATE ON SCHEMA public TO \"app\"; GRANT ALL PRIVILEGES ON ALL TABLES IN SCHEMA public TO \"app\"; GRANT ALL PRIVILEGES ON ALL SEQUENCES IN SCHEMA public TO \"app\"; ALTER DEFAULT PRIVILEGES IN SCHEMA public GRANT ALL ON TABLES TO \"app\"; ALTER DEFAULT PRIVILEGES IN SCHEMA public GRANT ALL ON SEQUENCES TO \"app\";"
    );
}

#[test]
fn step_results() {
    assert_eq!(step_result(true, "ignored"), Ok(()));
    assert_eq!(step_result(false, "ERROR 1007"), Err("ERROR 1007".to_string()));
}

#[test]
fn gzip_is_told_by_extension() {
    assert!(is_gzip_path("/dumps/shop.sql.gz"));
    assert!(is_gzip_path("/dumps/shop.GZ"));
    assert!(!is_gzip_path("/dumps/shop.sql"));
    assert!(!is_gzip_path("/dumps/gz"));
    assert!(!is_gzip_path("/dumps/.gz"));
}

#[test]
fn import_plans() {
    assert_eq!(
        import_sql(DbEngine::MariaDb, "root", "", "  ", "/d/x.sql", true, true).unwrap_err(),
        "대상 데이터베이스 이름이 비어 있습니다."
    );
    assert_eq!(
        import_sql(DbEngine::MariaDb, "root", "", "shop", "/d/x.sql", true, false).unwrap_err(),
        "SQL 파일을 찾을 수 없습니다."
    );
    let plain = import_sql(DbEngine::MariaDb, "root", "pw", "shop", "/d/x.sql", true, true).unwrap();
    assert!(plain.create_first);
    assert_eq!(plain.stages.len(), 2);
    assert_eq!(plain.stages[0].program, "sed");
    assert_eq!(plain.stages[0].args[0], "-E");
    assert!(plain.stages[0].args[1].contains("s/utf8mb4_0900_ai_ci/utf8mb4_unicode_ci/g"));
    assert!(plain.stages[0].args[1].starts_with("/^<br ?\\/>[[:space:]]*$/d\n/^<b>Warning/d\n"));
    assert_eq!(plain.stages[1].program, "mysql");
    assert_eq!(args(&plain.stages[1]), vec!["-uroot", "-ppw", "--default-character-set=utf8mb4", "shop"]);
    let gz = restore_database(DbEngine::PostgreSql, "postgres", "", "shop", "/d/x.sql.gz", true).unwrap();
    assert!(!gz.create_first);
    assert_eq!(gz.stages.len(), 3);
    assert_eq!(gz.stages[0].program, "gunzip");
    assert_eq!(args(&gz.stages[0]), vec!["-c"]);
    assert_eq!(gz.stages[2].program, "psql");
    assert_eq!(
        args(&gz.stages[2]),
        vec!["-h", "127.0.0.1", "-U", "postgres", "-d", "shop", "-v", "ON_ERROR_STOP=1"]
    );
}

#[test]
fn creating_a_missing_target() {
    let m = create_database_if_not_exists(DbEngine::MariaDb, "root", "", "shop");
    assert_eq!(
        m.args.last().unwrap(),
        "CREATE DATABASE IF NOT EXISTS `shop` CHARACTER SET utf8mb4 COLLATE utf8mb4_unicode_ci;"
    );
    let p = create_database_if_not_exists(DbEngine::PostgreSql, "postgres", "", "o'shop");
    assert_eq!(p.args.last().unwrap(), "SELECT 1 FROM pg_database WHERE datname = 'o''shop';");
    assert_eq!(
        create_postgres_database_if_not_exists("postgres", "", "shop", false, "", "denied").unwrap_err(),
        "denied"
    );
    assert!(create_postgres_database_if_not_exists("postgres", "", "shop", true, " 1\n", "")
        .unwrap()
        .is_none());
    let next = create_postgres_database_if_not_exists("postgres", "", "shop", true, "\n", "")
        .unwrap()
        .unwrap();
    assert_eq!(next.args.last().unwrap(), "CREATE DATABASE \"shop\" ENCODING 'UTF8';");
}

#[test]
fn import_outcomes() {
    assert_eq!(import_result(true, "noise"), Ok(()));
    assert_eq!(import_result(false, "  \n"), Err("가져오기 실패 (원인 불명)".to_string()));
    assert_eq!(import_result(false, " ERROR 1064 \n"), Err("ERROR 1064".to_string()));
}

#[test]
fn saved_connections_put_latest_first() {
    let list = vec![
        creds(DbEngine::MariaDb, "root", "old"),
        creds(DbEngine::PostgreSql, "postgres", ""),
        creds(DbEngine::PostgreSql, "root", "x"),
    ];
    let out = save_db_connection(&list, DbEngine::MariaDb, "root", "new");
    let got: Vec<(DbEngine, &str, &str)> =
        out.iter().map(|c| (c.engine, c.user.as_str(), c.password.as_str())).collect();
    assert_eq!(
        got,
        vec![
            (DbEngine::MariaDb, "root", "new"),
            (DbEngine::PostgreSql, "postgres", ""),
            (DbEngine::PostgreSql, "root", "x"),
        ]
    );
}

#[test]
fn saved_connections_keep_twelve() {
    let list: Vec<DbCredentials> =
        (0..15).map(|i| creds(DbEngine::MariaDb, &format!("u{i}"), "")).collect();
    let out = save_db_connection(&list, DbEngine::PostgreSql, "postgres", "pw");
    assert_eq!(out.len(), 12);
    assert_eq!(out[0].user, "postgres");
    assert_eq!(out[11].user, "u10");
}
