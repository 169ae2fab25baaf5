//! Setting up a Python project step by step: its virtualenv, its packages
//! (`requirements.txt`, else `pyproject.toml`) and a frontend under `web/`.
//! Each step is a file check or a program run that the caller performs and
//! reports back.
use vstd::prelude::*;
use vstd::string::*;
use crate::text::{concat2, views};
use crate::vhost::VhostProject;

verus! {

broadcast use vstd::string::group_string_axioms;

/// A program to run, with its arguments and the directory to run it in
/// (`None`: the current one).
#[derive(Debug, Clone)]
pub struct Run {
    pub program: String,
    pub args: Vec<String>,
    pub dir: Option<String>,
}

pub type RunView = (Seq<char>, Seq<Seq<char>>, Option<Seq<char>>);

impl View for Run {
    type V = RunView;

    open spec fn view(&self) -> RunView {
        (
            self.program@,
            views(self.args@),
            match self.dir {
                Some(d) => Some(d@),
                None => None,
            },
        )
    }
}

/// How a run ended: the program could not be started (with the reason), or it
/// exited, successfully or not, with its error output.
#[derive(Debug)]
pub enum RunOutcome {
    SpawnFailed(String),
    Exited { success: bool, stderr: String },
}

/// What the caller reports back.
#[derive(Debug)]
pub enum VenvEvent {
    /// Whether the path asked about exists.
    Exists(bool),
    /// How the program ended.
    Ran(RunOutcome),
}

/// What the caller is to do next.
#[derive(Debug)]
pub enum VenvAction {
    CheckExists(String),
    Run(Run),
    /// The setup is over, with its report or its error.
    Finish(Result<String, String>),
}

pub enum VenvActionModel {
    CheckExists(Seq<char>),
    Run(RunView),
    Finish(Result<Seq<char>, Seq<char>>),
}

impl View for VenvAction {
    type V = VenvActionModel;

    open spec fn view(&self) -> VenvActionModel {
        match self {
            VenvAction::CheckExists(p) => VenvActionModel::CheckExists(p@),
            VenvAction::Run(r) => VenvActionModel::Run(r@),
            VenvAction::Finish(Ok(m)) => VenvActionModel::Finish(Ok(m@)),
            VenvAction::Finish(Err(e)) => VenvActionModel::Finish(Err(e@)),
        }
    }
}

/// Which report a finished setup gives.
#[derive(Debug, Clone, Copy, PartialEq, Eq, Structural)]
pub enum Report {
    Requirements,
    Pyproject,
    NoPackageFile,
}

pub open spec fn report_text(r: Report) -> Seq<char> {
    match r {
        Report::Requirements => "패키지 설치 완료 (requirements.txt)"@,
        Report::Pyproject => "패키지 설치 완료 (pyproject.toml)"@,
        Report::NoPackageFile => "venv 생성 완료 (설치할 패키지 파일 없음)"@,
    }
}

fn report_string(r: Report) -> (s: String)
    ensures
        s@ == report_text(r),
{
    match r {
        Report::Requirements => String::from_str("패키지 설치 완료 (requirements.txt)"),
        Report::Pyproject => String::from_str("패키지 설치 완료 (pyproject.toml)"),
        Report::NoPackageFile => String::from_str("venv 생성 완료 (설치할 패키지 파일 없음)"),
    }
}

/// Where the setup stands: what it waits to hear about.
#[derive(Debug, Clone, Copy, PartialEq, Eq, Structural)]
pub enum VenvStage {
    /// Whether the virtualenv's interpreter exists.
    CheckingVenv,
    CreatingVenv,
    UpgradingPip,
    /// Whether `requirements.txt` exists.
    CheckingRequirements,
    InstallingRequirements,
    /// Whether `pyproject.toml` exists.
    CheckingPyproject,
    InstallingTools,
    InstallingEditable,
    InstallingPlain,
    /// Whether `web/package.json` exists; the report to give at the end.
    CheckingFrontend(Report),
    InstallingFrontend(Report),
    BuildingFrontend(Report),
    Finished,
}

/// The stage waits for a file check (else for a run, or for nothing when finished).
pub open spec fn awaits_check(s: VenvStage) -> bool {
    s is CheckingVenv || s is CheckingRequirements || s is CheckingPyproject
        || s is CheckingFrontend
}

/// The event is the kind the stage waits for.
pub open spec fn fits(s: VenvStage, e: VenvEvent) -> bool {
    &&& s != VenvStage::Finished
    &&& (e is Exists <==> awaits_check(s))
}

pub open spec fn venv_dir(base: Seq<char>) -> Seq<char> {
    base + "/venv"@
}

pub open spec fn pip(base: Seq<char>) -> Seq<char> {
    venv_dir(base) + "/bin/pip"@
}

pub open spec fn web_dir(base: Seq<char>) -> Seq<char> {
    base + "/web"@
}

pub open spec fn run_view(program: Seq<char>, args: Seq<Seq<char>>, dir: Option<Seq<char>>) -> VenvActionModel {
    VenvActionModel::Run((program, args, dir))
}

/// Checking for the frontend's manifest, keeping the report for the end.
pub open spec fn to_frontend(base: Seq<char>, r: Report) -> (VenvStage, VenvActionModel) {
    (
        VenvStage::CheckingFrontend(r),
        VenvActionModel::CheckExists(web_dir(base) + "/package.json"@),
    )
}

pub open spec fn fail(e: Seq<char>) -> (VenvStage, VenvActionModel) {
    (VenvStage::Finished, VenvActionModel::Finish(Err(e)))
}

/// The setup's steps. A missing virtualenv is created (`python3 -m venv`), pip
/// upgraded (its outcome ignored); then `requirements.txt` is installed, or else
/// a `pyproject.toml` project (after `pip-tools setuptools wheel`, with
/// `install -e .` and, should that fail, `install .`); finally a frontend with a
/// `web/package.json` gets `npm install --legacy-peer-deps` and `npm run build`.
/// The first failure ends the setup with its error.
pub open spec fn venv_next(base: Seq<char>, s: VenvStage, e: VenvEvent) -> (
    VenvStage,
    VenvActionModel,
) {
    match (s, e) {
        (VenvStage::CheckingVenv, VenvEvent::Exists(true)) => (
            VenvStage::UpgradingPip,
            run_view(pip(base), seq!["install"@, "--upgrade"@, "pip"@], None),
        ),
        (VenvStage::CheckingVenv, VenvEvent::Exists(false)) => (
            VenvStage::CreatingVenv,
            run_view("python3"@, seq!["-m"@, "venv"@, venv_dir(base)], None),
        ),
        (VenvStage::CreatingVenv, VenvEvent::Ran(o)) => match o {
            RunOutcome::SpawnFailed(m) => fail("venv 생성 실패: "@ + m@),
            RunOutcome::Exited { success: false, stderr } => fail("venv 생성 실패:\n"@ + stderr@),
            RunOutcome::Exited { success: true, .. } => (
                VenvStage::UpgradingPip,
                run_view(pip(base), seq!["install"@, "--upgrade"@, "pip"@], None),
            ),
        },
        (VenvStage::UpgradingPip, VenvEvent::Ran(_)) => (
            VenvStage::CheckingRequirements,
            VenvActionModel::CheckExists(base + "/requirements.txt"@),
        ),
        (VenvStage::CheckingRequirements, VenvEvent::Exists(true)) => (
            VenvStage::InstallingRequirements,
            run_view(pip(base), seq!["install"@, "-r"@, base + "/requirements.txt"@], None),
        ),
        (VenvStage::CheckingRequirements, VenvEvent::Exists(false)) => (
            VenvStage::CheckingPyproject,
            VenvActionModel::CheckExists(base + "/pyproject.toml"@),
        ),
        (VenvStage::InstallingRequirements, VenvEvent::Ran(o)) => match o {
            RunOutcome::SpawnFailed(m) => fail(m@),
            RunOutcome::Exited { success: false, stderr } => fail("패키지 설치 실패:\n"@ + stderr@),
            RunOutcome::Exited { success: true, .. } => to_frontend(base, Report::Requirements),
        },
        (VenvStage::CheckingPyproject, VenvEvent::Exists(true)) => (
            VenvStage::InstallingTools,
            run_view(pip(base), seq!["install"@, "pip-tools"@, "setuptools"@, "wheel"@], None),
        ),
        (VenvStage::CheckingPyproject, VenvEvent::Exists(false)) => to_frontend(
            base,
            Report::NoPackageFile,
        ),
        (VenvStage::InstallingTools, VenvEvent::Ran(_)) => (
            VenvStage::InstallingEditable,
            run_view(pip(base), seq!["install"@, "-e"@, "."@], Some(base)),
        ),
        (VenvStage::InstallingEditable, VenvEvent::Ran(o)) => match o {
            RunOutcome::SpawnFailed(m) => fail(m@),
            RunOutcome::Exited { success: false, .. } => (
                VenvStage::InstallingPlain,
                run_view(pip(base), seq!["install"@, "."@], Some(base)),
            ),
            RunOutcome::Exited { success: true, .. } => to_frontend(base, Report::Pyproject),
        },
        (VenvStage::InstallingPlain, VenvEvent::Ran(o)) => match o {
            RunOutcome::SpawnFailed(m) => fail(m@),
            RunOutcome::Exited { success: false, stderr } => fail("패키지 설치 실패:\n"@ + stderr@),
            RunOutcome::Exited { success: true, .. } => to_frontend(base, Report::Pyproject),
        },
        (VenvStage::CheckingFrontend(r), VenvEvent::Exists(false)) => (
            VenvStage::Finished,
            VenvActionModel::Finish(Ok(report_text(r))),
        ),
        (VenvStage::CheckingFrontend(r), VenvEvent::Exists(true)) => (
            VenvStage::InstallingFrontend(r),
            run_view("npm"@, seq!["install"@, "--legacy-peer-deps"@], Some(web_dir(base))),
        ),
        (VenvStage::InstallingFrontend(r), VenvEvent::Ran(o)) => match o {
            RunOutcome::SpawnFailed(m) => fail("npm install 실패: "@ + m@),
            RunOutcome::Exited { success: false, stderr } => fail("npm install 실패:\n"@ + stderr@),
            RunOutcome::Exited { success: true, .. } => (
                VenvStage::BuildingFrontend(r),
                run_view("npm"@, seq!["run"@, "build"@], Some(web_dir(base))),
            ),
        },
        (VenvStage::BuildingFrontend(r), VenvEvent::Ran(o)) => match o {
            RunOutcome::SpawnFailed(m) => fail("npm run build 실패: "@ + m@),
            RunOutcome::Exited { success: false, stderr } => fail(
                "npm run build 실패:\n"@ + stderr@,
            ),
            RunOutcome::Exited { success: true, .. } => (
                VenvStage::Finished,
                VenvActionModel::Finish(Ok(report_text(r))),
            ),
        },
        _ => (s, VenvActionModel::Finish(Err(Seq::empty()))),
    }
}

/// A setup in progress for the project directory `base`.
#[derive(Debug)]
pub struct VenvSetup {
    pub base: String,
    pub stage: VenvStage,
}

fn run_of(program: &str, args: Vec<String>, dir: Option<String>) -> (r: VenvAction)
    ensures
        r@ == run_view(
            program@,
            views(args@),
            match dir {
                Some(d) => Some(d@),
                None => None,
            },
        ),
{
    VenvAction::Run(Run { program: String::from_str(program), args, dir })
}

fn words_vec2(a: &str, b: &str) -> (r: Vec<String>)
    ensures
        views(r@) == seq![a@, b@],
{
    let mut v: Vec<String> = Vec::new();
    v.push(String::from_str(a));
    v.push(String::from_str(b));
    assert(views(v@) =~= seq![a@, b@]);
    v
}

fn words_vec3(a: &str, b: &str, c: &str) -> (r: Vec<String>)
    ensures
        views(r@) == seq![a@, b@, c@],
{
    let mut v = words_vec2(a, b);
    let ghost before = views(v@);
    v.push(String::from_str(c));
    assert(views(v@) =~= before.push(c@));
    v
}

fn words_vec4(a: &str, b: &str, c: &str, d: &str) -> (r: Vec<String>)
    ensures
        views(r@) == seq![a@, b@, c@, d@],
{
    let mut v = words_vec3(a, b, c);
    let ghost before = views(v@);
    v.push(String::from_str(d));
    assert(views(v@) =~= before.push(d@));
    v
}

/// Begins setting up a Python project's environment in its working directory:
/// the first step checks for the virtualenv's interpreter.
pub fn setup_venv(project: &VhostProject) -> (r: (VenvSetup, VenvAction))
    ensures
        r.0.base@ == project.spec_work_dir(),
        r.0.stage == VenvStage::CheckingVenv,
        r.1@ == VenvActionModel::CheckExists(venv_dir(project.spec_work_dir()) + "/bin/python3"@),
{
    let base = project.work_dir();
    let venv = concat2(base.as_str(), "/venv");
    let python = concat2(venv.as_str(), "/bin/python3");
    (VenvSetup { base, stage: VenvStage::CheckingVenv }, VenvAction::CheckExists(python))
}

impl VenvSetup {
    /// Takes in what the caller found or ran, and names the next step (see `venv_next`).
    pub fn step(&mut self, event: VenvEvent) -> (r: VenvAction)
        requires
            fits(old(self).stage, event),
        ensures
            final(self).base@ == old(self).base@,
            (final(self).stage, r@) == venv_next(old(self).base@, old(self).stage, event),
    {
        let base = self.base.clone();
        let b = base.as_str();
        let venv = concat2(b, "/venv");
        let pip = concat2(venv.as_str(), "/bin/pip");
        let web = concat2(b, "/web");
        match (self.stage, event) {
            (VenvStage::CheckingVenv, VenvEvent::Exists(found)) => {
                if found {
                    self.stage = VenvStage::UpgradingPip;
                    run_of(pip.as_str(), words_vec3("install", "--upgrade", "pip"), None)
                } else {
                    self.stage = VenvStage::CreatingVenv;
                    run_of("python3", words_vec3("-m", "venv", venv.as_str()), None)
                }
            },
            (VenvStage::CreatingVenv, VenvEvent::Ran(o)) => match o {
                RunOutcome::SpawnFailed(m) => {
                    self.stage = VenvStage::Finished;
                    VenvAction::Finish(Err(concat2("venv 생성 실패: ", m.as_str())))
                },
                RunOutcome::Exited { success, stderr } => {
                    if success {
                        self.stage = VenvStage::UpgradingPip;
                        run_of(pip.as_str(), words_vec3("install", "--upgrade", "pip"), None)
                    } else {
                        self.stage = VenvStage::Finished;
                        VenvAction::Finish(Err(concat2("venv 생성 실패:\n", stderr.as_str())))
                    }
                },
            },
            (VenvStage::UpgradingPip, VenvEvent::Ran(_)) => {
                self.stage = VenvStage::CheckingRequirements;
                VenvAction::CheckExists(concat2(b, "/requirements.txt"))
            },
            (VenvStage::CheckingRequirements, VenvEvent::Exists(found)) => {
                if found {
                    self.stage = VenvStage::InstallingRequirements;
                    let req = concat2(b, "/requirements.txt");
                    run_of(pip.as_str(), words_vec3("install", "-r", req.as_str()), None)
                } else {
                    self.stage = VenvStage::CheckingPyproject;
                    VenvAction::CheckExists(concat2(b, "/pyproject.toml"))
                }
            },
            (VenvStage::InstallingRequirements, VenvEvent::Ran(o)) => match o {
                RunOutcome::SpawnFailed(m) => {
                    self.stage = VenvStage::Finished;
                    VenvAction::Finish(Err(m))
                },
                RunOutcome::Exited { success, stderr } => {
                    if success {
                        self.stage = VenvStage::CheckingFrontend(Report::Requirements);
                        VenvAction::CheckExists(concat2(web.as_str(), "/package.json"))
                    } else {
                        self.stage = VenvStage::Finished;
                        VenvAction::Finish(Err(concat2("패키지 설치 실패:\n", stderr.as_str())))
                    }
                },
            },
            (VenvStage::CheckingPyproject, VenvEvent::Exists(found)) => {
                if found {
                    self.stage = VenvStage::InstallingTools;
                    run_of(
                        pip.as_str(),
                        words_vec4("install", "pip-tools", "setuptools", "wheel"),
                        None,
                    )
                } else {
                    self.stage = VenvStage::CheckingFrontend(Report::NoPackageFile);
                    VenvAction::CheckExists(concat2(web.as_str(), "/package.json"))
                }
            },
            (VenvStage::InstallingTools, VenvEvent::Ran(_)) => {
                self.stage = VenvStage::InstallingEditable;
                run_of(pip.as_str(), words_vec3("install", "-e", "."), Some(base))
            },
            (VenvStage::InstallingEditable, VenvEvent::Ran(o)) => match o {
                RunOutcome::SpawnFailed(m) => {
                    self.stage = VenvStage::Finished;
                    VenvAction::Finish(Err(m))
                },
                RunOutcome::Exited { success, .. } => {
                    if success {
                        self.stage = VenvStage::CheckingFrontend(Report::Pyproject);
                        VenvAction::CheckExists(concat2(web.as_str(), "/package.json"))
                    } else {
                        self.stage = VenvStage::InstallingPlain;
                        run_of(pip.as_str(), words_vec2("install", "."), Some(base))
                    }
                },
            },
            (VenvStage::InstallingPlain, VenvEvent::Ran(o)) => match o {
                RunOutcome::SpawnFailed(m) => {
                    self.stage = VenvStage::Finished;
                    VenvAction::Finish(Err(m))
                },
                RunOutcome::Exited { success, stderr } => {
                    if success {
                        self.stage = VenvStage::CheckingFrontend(Report::Pyproject);
                        VenvAction::CheckExists(concat2(web.as_str(), "/package.json"))
                    } else {
                        self.stage = VenvStage::Finished;
                        VenvAction::Finish(Err(concat2("패키지 설치 실패:\n", stderr.as_str())))
                    }
                },
            },
            (VenvStage::CheckingFrontend(r), VenvEvent::Exists(found)) => {
                if found {
                    self.stage = VenvStage::InstallingFrontend(r);
                    run_of("npm", words_vec2("install", "--legacy-peer-deps"), Some(web))
                } else {
                    self.stage = VenvStage::Finished;
                    VenvAction::Finish(Ok(report_string(r)))
                }
            },
            (VenvStage::InstallingFrontend(r), VenvEvent::Ran(o)) => match o {
                RunOutcome::SpawnFailed(m) => {
                    self.stage = VenvStage::Finished;
                    VenvAction::Finish(Err(concat2("npm install 실패: ", m.as_str())))
                },
                RunOutcome::Exited { success, stderr } => {
                    if success {
                        self.stage = VenvStage::BuildingFrontend(r);
                        run_of("npm", words_vec2("run", "build"), Some(web))
                    } else {
                        self.stage = VenvStage::Finished;
                        VenvAction::Finish(Err(concat2("npm install 실패:\n", stderr.as_str())))
                    }
                },
            },
            (VenvStage::BuildingFrontend(r), VenvEvent::Ran(o)) => match o {
                RunOutcome::SpawnFailed(m) => {
                    self.stage = VenvStage::Finished;
                    VenvAction::Finish(Err(concat2("npm run build 실패: ", m.as_str())))
                },
                RunOutcome::Exited { success, stderr } => {
                    if success {
                        self.stage = VenvStage::Finished;
                        VenvAction::Finish(Ok(report_string(r)))
                    } else {
                        self.stage = VenvStage::Finished;
                        VenvAction::Finish(Err(concat2("npm run build 실패:\n", stderr.as_str())))
                    }
                },
            },
            (_, _) => VenvAction::Finish(Err(String::new())),
        }
    }
}

} // verus!

verus! {

/// How far along a stage is.
pub open spec fn progress(s: VenvStage) -> nat {
    match s {
        VenvStage::CheckingVenv => 0,
        VenvStage::CreatingVenv => 1,
        VenvStage::UpgradingPip => 2,
        VenvStage::CheckingRequirements => 3,
        VenvStage::InstallingRequirements => 4,
        VenvStage::CheckingPyproject => 4,
        VenvStage::InstallingTools => 5,
        VenvStage::InstallingEditable => 6,
        VenvStage::InstallingPlain => 7,
        VenvStage::CheckingFrontend(_) => 8,
        VenvStage::InstallingFrontend(_) => 9,
        VenvStage::BuildingFrontend(_) => 10,
        VenvStage::Finished => 11,
    }
}

/// Every step moves the setup forward, and it asks for nothing more exactly
/// when it has finished: a setup ends after at most eleven steps, with a
/// report or an error.
pub proof fn venv_setup_moves_forward(base: Seq<char>, s: VenvStage, e: VenvEvent)
    requires
        fits(s, e),
    ensures
        progress(venv_next(base, s, e).0) > progress(s),
        progress(venv_next(base, s, e).0) <= 11,
        (venv_next(base, s, e).0 == VenvStage::Finished) <==> (venv_next(base, s, e).1 is Finish),
{
}

} // verus!
