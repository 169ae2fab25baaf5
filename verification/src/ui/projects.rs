//! The projects panel: the add-project form and the project list.
use vstd::prelude::*;
use vstd::string::*;
use crate::text::{
    chars_of, is_alphanumeric, alphanumeric, lowercase_of, parse_u16, push_char, spec_parse_u16,
    strip, strip_both, to_lowercase, CharClass, is_ascii_digit,
};
use crate::vhost::{ProjectType, VhostProject};
use crate::ui::services::opt_text;

verus! {

broadcast use vstd::string::group_string_axioms;

/// A character as it stands in a slug: itself when alphanumeric, else `-`.
pub open spec fn slug_char(c: char) -> char {
    if alphanumeric(c) {
        c
    } else {
        '-'
    }
}

/// A name turned into an id: lowercased, every other character than a letter or
/// digit made `-`, and `-` trimmed from both ends.
pub open spec fn spec_slugify(s: Seq<char>) -> Seq<char> {
    strip_both(lowercase_of(s).map_values(|c: char| slug_char(c)), CharClass::Exactly('-'))
}

pub fn slugify(s: &str) -> (r: String)
    ensures
        r@ == spec_slugify(s@),
{
    let lower = to_lowercase(s);
    let v = chars_of(lower.as_str());
    let mut mapped = String::new();
    let mut i: usize = 0;
    while i < v.len()
        invariant
            i <= v.len(),
            v@ == lowercase_of(s@),
            mapped@ == v@.take(i as int).map_values(|c: char| slug_char(c)),
        decreases v.len() - i,
    {
        let c = v[i];
        let ghost before = mapped@;
        if is_alphanumeric(c) {
            push_char(&mut mapped, c);
        } else {
            push_char(&mut mapped, '-');
        }
        assert(v@.take(i + 1).map_values(|c: char| slug_char(c)) =~= before.push(slug_char(c)));
        i += 1;
    }
    assert(v@.take(v.len() as int) =~= v@);
    strip(mapped.as_str(), CharClass::Exactly('-'))
}

/// What the projects panel is asked to do.
#[derive(Debug)]
pub enum ProjectsMessage {
    OpenFilePicker,
    PathSelected(Option<String>),
    NameChanged(String),
    IdChanged(String),
    TypeSelected(ProjectType),
    PortChanged(String),
    AddProject,
    RemoveProject(String),
    Refresh,
}

impl Clone for ProjectsMessage {
    fn clone(&self) -> (r: Self)
        ensures
            r == *self,
    {
        match self {
            ProjectsMessage::OpenFilePicker => ProjectsMessage::OpenFilePicker,
            ProjectsMessage::PathSelected(path) => ProjectsMessage::PathSelected(
                match path {
                    Some(p) => Some(p.clone()),
                    None => None,
                },
            ),
            ProjectsMessage::NameChanged(v) => ProjectsMessage::NameChanged(v.clone()),
            ProjectsMessage::IdChanged(v) => ProjectsMessage::IdChanged(v.clone()),
            ProjectsMessage::TypeSelected(t) => ProjectsMessage::TypeSelected(*t),
            ProjectsMessage::PortChanged(v) => ProjectsMessage::PortChanged(v.clone()),
            ProjectsMessage::AddProject => ProjectsMessage::AddProject,
            ProjectsMessage::RemoveProject(id) => ProjectsMessage::RemoveProject(id.clone()),
            ProjectsMessage::Refresh => ProjectsMessage::Refresh,
        }
    }
}

/// Outside work the panel asks for.
#[derive(Debug, Clone)]
pub enum ProjectsAction {
    Nothing,
    /// Load the project list and hand it to `set_projects`.
    LoadProjects,
    /// Ask for a folder and send `PathSelected` with the answer.
    PickFolder,
    /// Register the project, then hand the outcome (the reloaded list, or the
    /// error) to `project_added`.
    Add(VhostProject),
    /// Unregister the project with this id, then hand the outcome to `project_removed`.
    Remove(String),
}

/// The project list and the add form.
#[derive(Debug, Clone)]
pub struct ProjectsState {
    pub projects: Vec<VhostProject>,
    pub new_name: String,
    pub new_id: String,
    pub new_path: String,
    pub new_type: ProjectType,
    pub new_port: String,
    pub error: Option<String>,
}

/// The panel as values.
pub struct ProjectsModel {
    pub projects: Seq<VhostProject>,
    pub new_name: Seq<char>,
    pub new_id: Seq<char>,
    pub new_path: Seq<char>,
    pub new_type: ProjectType,
    pub new_port: Seq<char>,
    pub error: Option<Seq<char>>,
}

impl View for ProjectsState {
    type V = ProjectsModel;

    open spec fn view(&self) -> ProjectsModel {
        ProjectsModel {
            projects: self.projects@,
            new_name: self.new_name@,
            new_id: self.new_id@,
            new_path: self.new_path@,
            new_type: self.new_type,
            new_port: self.new_port@,
            error: opt_text(self.error),
        }
    }
}

/// The form as it starts and as it is left after a project was added.
pub open spec fn blank_form(m: ProjectsModel) -> ProjectsModel {
    ProjectsModel {
        new_name: Seq::empty(),
        new_id: Seq::empty(),
        new_path: Seq::empty(),
        new_type: ProjectType::Php,
        new_port: "8000"@,
        ..m
    }
}

/// The panel as it starts over a project list.
pub open spec fn initial_projects(list: Seq<VhostProject>) -> ProjectsModel {
    ProjectsModel {
        projects: list,
        new_name: Seq::empty(),
        new_id: Seq::empty(),
        new_path: Seq::empty(),
        new_type: ProjectType::Php,
        new_port: "8000"@,
        error: None,
    }
}

/// The id the form holds after the name is edited: it follows the name while it
/// is empty or still the slug of the previous name.
pub open spec fn id_after_name(m: ProjectsModel, name: Seq<char>) -> Seq<char> {
    if m.new_id.len() == 0 || m.new_id == spec_slugify(m.new_name) {
        spec_slugify(name)
    } else {
        m.new_id
    }
}

/// The project the form describes: domain `<id>.localhost`, the port parsed
/// from the form (8000 when it does not parse), no start command or app directory.
pub open spec fn form_project(m: ProjectsModel, p: VhostProject) -> bool {
    &&& p.id@ == m.new_id
    &&& p.name@ == m.new_name
    &&& p.path@ == m.new_path
    &&& p.domain@ == m.new_id + ".localhost"@
    &&& p.project_type == m.new_type
    &&& p.port == (match spec_parse_u16(m.new_port) {
        Some(n) => n,
        None => 8000u16,
    })
    &&& p.start_command@ == Seq::<char>::empty()
    &&& p.app_dir@ == Seq::<char>::empty()
}

pub open spec fn missing_id_message() -> Seq<char> {
    "ID를 입력하세요."@
}

pub open spec fn missing_path_message() -> Seq<char> {
    "PHP 프로젝트는 경로가 필요합니다."@
}

/// How the panel answers a message. Editing the name also moves the id while
/// the id follows the name; the port field takes only digits; adding checks the
/// id, and the path of a PHP project, before the project is handed out.
pub open spec fn projects_step(
    old: ProjectsModel,
    msg: ProjectsMessage,
    new: ProjectsModel,
    r: ProjectsAction,
) -> bool {
    match msg {
        ProjectsMessage::Refresh => new == old && r is LoadProjects,
        ProjectsMessage::NameChanged(v) => {
            &&& new == (ProjectsModel {
                new_name: v@,
                new_id: id_after_name(old, v@),
                ..old
            })
            &&& r is Nothing
        },
        ProjectsMessage::IdChanged(v) => {
            &&& new == (ProjectsModel { new_id: v@, ..old })
            &&& r is Nothing
        },
        ProjectsMessage::TypeSelected(t) => {
            &&& new == (ProjectsModel { new_type: t, ..old })
            &&& r is Nothing
        },
        ProjectsMessage::PortChanged(v) => {
            &&& new == (if forall|i: int|
                0 <= i < v@.len() ==> is_ascii_digit(#[trigger] v@[i]) {
                ProjectsModel { new_port: v@, ..old }
            } else {
                old
            })
            &&& r is Nothing
        },
        ProjectsMessage::OpenFilePicker => new == old && r is PickFolder,
        ProjectsMessage::PathSelected(p) => {
            &&& new == (match p {
                Some(p) => ProjectsModel { new_path: p@, ..old },
                None => old,
            })
            &&& r is Nothing
        },
        ProjectsMessage::AddProject => if old.new_id.len() == 0 {
            &&& new == (ProjectsModel {
                error: Some(missing_id_message()),
                ..old
            })
            &&& r is Nothing
        } else if old.new_type == ProjectType::Php && old.new_path.len()
            == 0 {
            &&& new == (ProjectsModel {
                error: Some(missing_path_message()),
                ..old
            })
            &&& r is Nothing
        } else {
            &&& new == old
            &&& r matches ProjectsAction::Add(p) && form_project(old, p)
        },
        ProjectsMessage::RemoveProject(id) => {
            &&& new == old
            &&& r matches ProjectsAction::Remove(i) && i@ == id@
        },
    }
}

impl ProjectsState {
    /// The panel over a loaded project list, with a blank form (PHP, port 8000).
    pub fn new(projects: Vec<VhostProject>) -> (r: Self)
        ensures
            r@ == initial_projects(projects@),
    {
        ProjectsState {
            projects,
            new_name: String::new(),
            new_id: String::new(),
            new_path: String::new(),
            new_type: ProjectType::Php,
            new_port: String::from_str("8000"),
            error: None,
        }
    }

    /// Takes in a freshly loaded project list.
    pub fn set_projects(&mut self, projects: Vec<VhostProject>)
        ensures
            final(self)@ == (ProjectsModel { projects: projects@, ..old(self)@ }),
    {
        self.projects = projects;
    }

    /// Answers a message (see `projects_step`).
    pub fn update(&mut self, msg: ProjectsMessage) -> (r: ProjectsAction)
        ensures
            projects_step(old(self)@, msg, final(self)@, r),
    {
        match msg {
            ProjectsMessage::Refresh => ProjectsAction::LoadProjects,
            ProjectsMessage::NameChanged(v) => {
                if self.new_id.as_str().is_empty() {
                    self.new_id = slugify(v.as_str());
                } else {
                    let previous = slugify(self.new_name.as_str());
                    if crate::text::same_text(self.new_id.as_str(), previous.as_str()) {
                        self.new_id = slugify(v.as_str());
                    }
                }
                self.new_name = v;
                ProjectsAction::Nothing
            },
            ProjectsMessage::IdChanged(v) => {
                self.new_id = v;
                ProjectsAction::Nothing
            },
            ProjectsMessage::TypeSelected(t) => {
                self.new_type = t;
                ProjectsAction::Nothing
            },
            ProjectsMessage::PortChanged(v) => {
                let cs = chars_of(v.as_str());
                let mut ok = true;
                let mut i: usize = 0;
                while i < cs.len()
                    invariant
                        i <= cs.len(),
                        cs@ == v@,
                        ok == forall|j: int| 0 <= j < i ==> is_ascii_digit(#[trigger] v@[j]),
                    decreases cs.len() - i,
                {
                    if !('0' <= cs[i] && cs[i] <= '9') {
                        ok = false;
                    }
                    i += 1;
                }
                if ok {
                    self.new_port = v;
                }
                ProjectsAction::Nothing
            },
            ProjectsMessage::OpenFilePicker => ProjectsAction::PickFolder,
            ProjectsMessage::PathSelected(p) => {
                if let Some(p) = p {
                    self.new_path = p;
                }
                ProjectsAction::Nothing
            },
            ProjectsMessage::AddProject => {
                if self.new_id.as_str().is_empty() {
                    self.error = Some(String::from_str("ID를 입력하세요."));
                    return ProjectsAction::Nothing;
                }
                if self.new_type == ProjectType::Php && self.new_path.as_str().is_empty() {
                    self.error = Some(String::from_str("PHP 프로젝트는 경로가 필요합니다."));
                    return ProjectsAction::Nothing;
                }
                let port: u16 = match parse_u16(self.new_port.as_str()) {
                    Some(n) => n,
                    None => 8000,
                };
                let mut domain = self.new_id.clone();
                domain.append(".localhost");
                ProjectsAction::Add(
                    VhostProject {
                        id: self.new_id.clone(),
                        name: self.new_name.clone(),
                        path: self.new_path.clone(),
                        domain,
                        project_type: self.new_type,
                        port,
                        start_command: String::new(),
                        app_dir: String::new(),
                    },
                )
            },
            ProjectsMessage::RemoveProject(id) => ProjectsAction::Remove(id),
        }
    }

    /// Takes in how registering a project ended: with the reloaded list the
    /// form is cleared and the error dropped; an error is shown.
    pub fn project_added(&mut self, outcome: Result<Vec<VhostProject>, String>)
        ensures
            final(self)@ == (match outcome {
                Ok(list) => blank_form(
                    ProjectsModel { projects: list@, error: None, ..old(self)@ },
                ),
                Err(e) => ProjectsModel { error: Some(e@), ..old(self)@ },
            }),
    {
        match outcome {
            Ok(list) => {
                self.error = None;
                self.new_name = String::new();
                self.new_id = String::new();
                self.new_path = String::new();
                self.new_port = String::from_str("8000");
                self.new_type = ProjectType::Php;
                self.projects = list;
            },
            Err(e) => {
                self.error = Some(e);
            },
        }
    }

    /// Takes in how unregistering a project ended.
    pub fn project_removed(&mut self, outcome: Result<Vec<VhostProject>, String>)
        ensures
            final(self)@ == (match outcome {
                Ok(list) => ProjectsModel { projects: list@, error: None, ..old(self)@ },
                Err(e) => ProjectsModel { error: Some(e@), ..old(self)@ },
            }),
    {
        match outcome {
            Ok(list) => {
                self.error = None;
                self.projects = list;
            },
            Err(e) => {
                self.error = Some(e);
            },
        }
    }
}

} // verus!
