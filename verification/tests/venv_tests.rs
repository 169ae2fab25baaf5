use localman::venv::{setup_venv, RunOutcome, VenvAction, VenvEvent, VenvStage};
use localman::vhost::{ProjectType, VhostProject};

fn python_project() -> VhostProject {
    VhostProject {
        id: "py".into(),
        name: "Py".into(),
        path: "/srv/py".into(),
        domain: "py.localhost".into(),
        project_type: ProjectType::Python,
        port: 5001,
        start_command: String::new(),
        app_dir: String::new(),
    }
}

fn ok() -> VenvEvent {
    VenvEvent::Ran(RunOutcome::Exited { success: true, stderr: String::new() })
}

fn failed(err: &str) -> VenvEvent {
    VenvEvent::Ran(RunOutcome::Exited { success: false, stderr: err.into() })
}

fn expect_run(a: VenvAction, program: &str, args: &[&str], dir: Option<&str>) {
    match a {
        VenvAction::Run(r) => {
            assert_eq!(r.program, program);
            assert_eq!(r.args, args.iter().map(|s| s.to_string()).collect::<Vec<_>>());
            assert_eq!(r.dir.as_deref(), dir);
        }
        other => panic!("expected a run, got {other:?}"),
    }
}

fn expect_check(a: VenvAction, path: &str) {
    match a {
        VenvAction::CheckExists(p) => assert_eq!(p, path),
        other => panic!("expected a check, got {other:?}"),
    }
}

#[test]
fn requirements_project_with_frontend() {
    let (mut s, first) = setup_venv(&python_project());
    expect_check(first, "/srv/py/venv/bin/python3");
    expect_run(s.step(VenvEvent::Exists(false)), "python3", &["-m", "venv", "/srv/py/venv"], None);
    expect_run(s.step(ok()), "/srv/py/venv/bin/pip", &["install", "--upgrade", "pip"], None);
    expect_check(s.step(failed("pip upgrade failures are ignored")), "/srv/py/requirements.txt");
    expect_run(
        s.step(VenvEvent::Exists(true)),
        "/srv/py/venv/bin/pip",
        &["install", "-r", "/srv/py/requirements.txt"],
        None,
    );
    expect_check(s.step(ok()), "/srv/py/web/package.json");
    expect_run(s.step(VenvEvent::Exists(true)), "npm", &["install", "--legacy-peer-deps"], Some("/srv/py/web"));
    expect_run(s.step(ok()), "npm", &["run", "build"], Some("/srv/py/web"));
    match s.step(ok()) {
        VenvAction::Finish(Ok(m)) => assert_eq!(m, "패키지 설치 완료 (requirements.txt)"),
        other => panic!("unexpected {other:?}"),
    }
    assert_eq!(s.stage, VenvStage::Finished);
}

#[test]
fn pyproject_falls_back_to_plain_install() {
    let (mut s, _) = setup_venv(&python_project());
    expect_run(s.step(VenvEvent::Exists(true)), "/srv/py/venv/bin/pip", &["install", "--upgrade", "pip"], None);
    expect_check(s.step(ok()), "/srv/py/requirements.txt");
    expect_check(s.step(VenvEvent::Exists(false)), "/srv/py/pyproject.toml");
    expect_run(
        s.step(VenvEvent::Exists(true)),
        "/srv/py/venv/bin/pip",
        &["install", "pip-tools", "setuptools", "wheel"],
        None,
    );
    expect_run(s.step(ok()), "/srv/py/venv/bin/pip", &["install", "-e", "."], Some("/srv/py"));
    expect_run(s.step(failed("no editable")), "/srv/py/venv/bin/pip", &["install", "."], Some("/srv/py"));
    match s.step(failed("broken build")) {
        VenvAction::Finish(Err(e)) => assert_eq!(e, "패키지 설치 실패:\nbroken build"),
        other => panic!("unexpected {other:?}"),
    }
}

#[test]
fn nothing_to_install_and_failures() {
    let (mut s, _) = setup_venv(&python_project());
    s.step(VenvEvent::Exists(true));
    s.step(ok());
    s.step(VenvEvent::Exists(false));
    expect_check(s.step(VenvEvent::Exists(false)), "/srv/py/web/package.json");
    match s.step(VenvEvent::Exists(false)) {
        VenvAction::Finish(Ok(m)) => assert_eq!(m, "venv 생성 완료 (설치할 패키지 파일 없음)"),
        other => panic!("unexpected {other:?}"),
    }

    let (mut t, _) = setup_venv(&python_project());
    t.step(VenvEvent::Exists(false));
    match t.step(VenvEvent::Ran(RunOutcome::SpawnFailed("No such file".into()))) {
        VenvAction::Finish(Err(e)) => assert_eq!(e, "venv 생성 실패: No such file"),
        other => panic!("unexpected {other:?}"),
    }

    let (mut u, _) = setup_venv(&python_project());
    u.step(VenvEvent::Exists(false));
    match u.step(failed("ensurepip missing")) {
        VenvAction::Finish(Err(e)) => assert_eq!(e, "venv 생성 실패:\nensurepip missing"),
        other => panic!("unexpected {other:?}"),
    }
}

#[test]
fn frontend_failures_end_the_setup() {
    let start = |s: &mut localman::venv::VenvSetup| {
        s.step(VenvEvent::Exists(true));
        s.step(ok());
        s.step(VenvEvent::Exists(false));
        s.step(VenvEvent::Exists(false));
        s.step(VenvEvent::Exists(true));
    };
    let (mut a, _) = setup_venv(&python_project());
    start(&mut a);
    match a.step(failed("ERESOLVE")) {
        VenvAction::Finish(Err(e)) => assert_eq!(e, "npm install 실패:\nERESOLVE"),
        other => panic!("unexpected {other:?}"),
    }
    let (mut b, _) = setup_venv(&python_project());
    start(&mut b);
    b.step(ok());
    match b.step(VenvEvent::Ran(RunOutcome::SpawnFailed("npm not found".into()))) {
        VenvAction::Finish(Err(e)) => assert_eq!(e, "npm run build 실패: npm not found"),
        other => panic!("unexpected {other:?}"),
    }
}
