//! Projects served through Apache virtual hosts: their model, the vhost file
//! for each project type, the dev-server command line and the project list.
use vstd::prelude::*;
use vstd::string::*;
use crate::text::{
    decimal, decimal_string, join, join_strings, push_char, same_text, starts_with,
    starts_with_text, strip, strip_both, strip_end, strip_trailing, trim, trim_ws, views, words,
    words_of, CharClass, is_ascii_digit, is_ws, lemma_decimal_starts_with_digit, lemma_join_front,
    lemma_trim_not_blank, lemma_words_of_joined, lemma_words_proper, proper_word, occurs_at,
    contains_text,
};

verus! {

broadcast use vstd::string::group_string_axioms;

/// How a project is served.
#[derive(Debug, Clone, Copy, PartialEq, Eq, Structural)]
pub enum ProjectType {
    Php,
    Python,
    NextJs,
}

impl Default for ProjectType {
    fn default() -> (r: Self)
        ensures
            r == ProjectType::Php,
    {
        ProjectType::Php
    }
}

impl ProjectType {
    pub open spec fn spec_is_proxied(&self) -> bool {
        *self == ProjectType::Python || *self == ProjectType::NextJs
    }

    /// A dev server runs and Apache proxies to it (PHP is served from the DocumentRoot).
    #[verifier::when_used_as_spec(spec_is_proxied)]
    pub fn is_proxied(&self) -> (r: bool)
        ensures
            r == self.spec_is_proxied(),
    {
        match self {
            ProjectType::Php => false,
            _ => true,
        }
    }
}

/// A registered project.
#[derive(Debug, Clone)]
pub struct VhostProject {
    pub id: String,
    pub name: String,
    pub path: String,
    pub domain: String,
    pub project_type: ProjectType,
    /// PHP: 80; Python and Next.js: the dev server's port.
    pub port: u16,
    /// Python and Next.js: the command that starts the dev server.
    pub start_command: String,
    /// Subdirectory of `path` that the project runs from (empty: `path` itself).
    pub app_dir: String,
}

/// `base` and the relative `sub` joined with one `/`; `base` alone when `sub` is blank.
pub open spec fn spec_join_dir(base: Seq<char>, sub: Seq<char>) -> Seq<char> {
    let sub = strip_both(trim(sub), CharClass::Exactly('/'));
    let base = strip_trailing(base, CharClass::Exactly('/'));
    if sub.len() == 0 {
        base
    } else {
        base + seq!['/'] + sub
    }
}

/// Joins `base` and a relative subdirectory; `base` itself when `sub` is empty.
pub fn join_dir(base: &str, sub: &str) -> (r: String)
    ensures
        r@ == spec_join_dir(base@, sub@),
{
    let t = trim_ws(sub);
    let sub2 = strip(t.as_str(), CharClass::Exactly('/'));
    let mut out = strip_end(base, CharClass::Exactly('/'));
    if sub2.as_str().is_empty() {
        out
    } else {
        push_char(&mut out, '/');
        out.append(sub2.as_str());
        out
    }
}

impl VhostProject {
    /// The directory the project runs from.
    pub open spec fn spec_work_dir(self) -> Seq<char> {
        spec_join_dir(self.path@, self.app_dir@)
    }

    /// `path/app_dir`, or `path` when `app_dir` is empty.
    pub fn work_dir(&self) -> (r: String)
        ensures
            r@ == self.spec_work_dir(),
    {
        join_dir(self.path.as_str(), self.app_dir.as_str())
    }

    /// A copy with the same fields.
    pub fn duplicate(&self) -> (r: Self)
        ensures
            r == *self,
    {
        VhostProject {
            id: self.id.clone(),
            name: self.name.clone(),
            path: self.path.clone(),
            domain: self.domain.clone(),
            project_type: self.project_type,
            port: self.port,
            start_command: self.start_command.clone(),
            app_dir: self.app_dir.clone(),
        }
    }
}

/// The command words after the port options (`--port X`, `-p X`, `--port=X`) are
/// set to `port`, read left to right; a final `--port` or `-p` with no value
/// gets `port` as its value.
pub open spec fn with_port(parts: Seq<Seq<char>>, port: Seq<char>) -> Seq<Seq<char>>
    decreases parts.len(),
{
    if parts.len() == 0 {
        seq![]
    } else if (parts[0] == "--port"@ || parts[0] == "-p"@) && parts.len() >= 2 {
        seq![parts[0], port] + with_port(parts.skip(2), port)
    } else if parts[0] == "--port"@ || parts[0] == "-p"@ {
        seq![parts[0], port]
    } else if starts_with(parts[0], "--port="@) {
        seq!["--port="@ + port] + with_port(parts.drop_first(), port)
    } else {
        seq![parts[0]] + with_port(parts.drop_first(), port)
    }
}

/// Some port option is rewritten by `with_port`.
pub open spec fn has_port_option(parts: Seq<Seq<char>>) -> bool
    decreases parts.len(),
{
    if parts.len() == 0 {
        false
    } else if parts[0] == "--port"@ || parts[0] == "-p"@ {
        true
    } else if starts_with(parts[0], "--port="@) {
        true
    } else {
        has_port_option(parts.drop_first())
    }
}

pub open spec fn spec_sync_port(cmd: Seq<char>, port: u16) -> Seq<char> {
    if trim(cmd).len() == 0 {
        seq![]
    } else {
        let parts = words(cmd);
        let p = decimal(port as nat);
        let rewritten = with_port(parts, p);
        join(
            if has_port_option(parts) {
                rewritten
            } else {
                rewritten + seq!["--port"@, p]
            },
            " "@,
        )
    }
}

/// Makes the command's port option (`--port`, `-p`, `--port=`) name `port`, adding
/// `--port <port>` when it has none; a final `--port` or `-p` without a value
/// gets `port` as its value; a blank command stays empty.
pub fn sync_port_in_command(cmd: &str, port: u16) -> (r: String)
    ensures
        r@ == spec_sync_port(cmd@, port),
{
    let t = trim_ws(cmd);
    if t.as_str().is_empty() {
        return String::new();
    }
    let parts = words_of(cmd);
    let p = decimal_string(port as u64);
    let ghost pv = p@;
    let mut out: Vec<String> = Vec::new();
    let mut found = false;
    let mut i: usize = 0;
    assert(views(parts@).skip(0) =~= views(parts@));
    while i < parts.len()
        invariant
            i <= parts.len(),
            pv == decimal(port as nat),
            p@ == pv,
            views(out@) + with_port(views(parts@).skip(i as int), pv) == with_port(
                views(parts@),
                pv,
            ),
            found || has_port_option(views(parts@).skip(i as int)) == has_port_option(
                views(parts@),
            ),
            found ==> has_port_option(views(parts@)),
        decreases parts.len() - i,
    {
        let ghost rest = views(parts@).skip(i as int);
        let ghost before = views(out@);
        let w = parts[i].as_str();
        if (same_text(w, "--port") || same_text(w, "-p")) && i + 1 == parts.len() {
            out.push(parts[i].clone());
            out.push(p.clone());
            assert(views(parts@).skip(i + 1) =~= Seq::<Seq<char>>::empty());
            assert(views(out@) =~= before + seq![rest[0], pv]);
            assert(views(out@) + with_port(views(parts@).skip(i + 1), pv) =~= before + with_port(
                rest,
                pv,
            ));
            found = true;
            i += 1;
        } else if same_text(w, "--port") || same_text(w, "-p") {
            out.push(parts[i].clone());
            out.push(p.clone());
            assert(rest.skip(2) =~= views(parts@).skip(i + 2));
            assert(views(out@) =~= before + seq![rest[0], pv]);
            assert(views(out@) + with_port(views(parts@).skip(i + 2), pv) =~= before + with_port(
                rest,
                pv,
            ));
            found = true;
            i += 2;
        } else {
            if starts_with_text(w, "--port=") {
                let mut s = String::from_str("--port=");
                s.append(p.as_str());
                out.push(s);
                found = true;
                assert(views(out@) =~= before + seq!["--port="@ + pv]);
            } else {
                out.push(parts[i].clone());
                assert(views(out@) =~= before + seq![rest[0]]);
            }
            assert(rest.drop_first() =~= views(parts@).skip(i + 1));
            assert(views(out@) + with_port(views(parts@).skip(i + 1), pv) =~= before + with_port(
                rest,
                pv,
            ));
            i += 1;
        }
    }
    assert(views(parts@).skip(i as int) =~= Seq::<Seq<char>>::empty());
    assert(views(out@) =~= with_port(views(parts@), pv));
    if !found {
        let ghost before = views(out@);
        out.push(String::from_str("--port"));
        out.push(p);
        assert(views(out@) =~= before + seq!["--port"@, pv]);
    }
    join_strings(&out, " ")
}

/// The Apache virtual host file for a project.
pub open spec fn spec_vhost_conf(p: VhostProject) -> Seq<char> {
    let logs = "    ErrorLog ${APACHE_LOG_DIR}/"@ + p.id@ + ".error.log\n    CustomLog ${APACHE_LOG_DIR}/"@
        + p.id@ + ".access.log combined\n</VirtualHost>\n"@;
    let port = decimal(p.port as nat);
    match p.project_type {
        ProjectType::Php => "<VirtualHost *:80>\n    ServerName "@ + p.domain@
            + "\n    DocumentRoot "@ + p.spec_work_dir() + "\n    <Directory "@
            + p.spec_work_dir()
            + ">\n        AllowOverride All\n        Require all granted\n    </Directory>\n"@
            + logs,
        ProjectType::NextJs => "<VirtualHost *:80>\n    ServerName "@ + p.domain@
            + "\n    ProxyPreserveHost On\n    ProxyRequests Off\n    RewriteEngine On\n    RewriteCond %{HTTP:Upgrade} =websocket [NC]\n    RewriteRule ^/?(.*) ws://127.0.0.1:"@
            + port + "/$1 [P,L]\n    ProxyPass / http://127.0.0.1:"@ + port
            + "/\n    ProxyPassReverse / http://127.0.0.1:"@ + port + "/\n"@ + logs,
        ProjectType::Python => "<VirtualHost *:80>\n    ServerName "@ + p.domain@
            + "\n    ProxyPreserveHost On\n    ProxyPass / http://127.0.0.1:"@ + port
            + "/\n    ProxyPassReverse / http://127.0.0.1:"@ + port + "/\n"@ + logs,
    }
}

/// Builds the virtual host configuration: PHP serves `work_dir` as DocumentRoot;
/// Python and Next.js proxy to the dev server, Next.js also its websockets.
pub fn build_vhost_conf(p: &VhostProject) -> (r: String)
    ensures
        r@ == spec_vhost_conf(*p),
{
    let mut out = String::from_str("<VirtualHost *:80>\n    ServerName ");
    out.append(p.domain.as_str());
    match p.project_type {
        ProjectType::Php => {
            let wd = p.work_dir();
            out.append("\n    DocumentRoot ");
            out.append(wd.as_str());
            out.append("\n    <Directory ");
            out.append(wd.as_str());
            out.append(
                ">\n        AllowOverride All\n        Require all granted\n    </Directory>\n",
            );
        },
        ProjectType::NextJs => {
            let port = decimal_string(p.port as u64);
            out.append(
                "\n    ProxyPreserveHost On\n    ProxyRequests Off\n    RewriteEngine On\n    RewriteCond %{HTTP:Upgrade} =websocket [NC]\n    RewriteRule ^/?(.*) ws://127.0.0.1:",
            );
            out.append(port.as_str());
            out.append("/$1 [P,L]\n    ProxyPass / http://127.0.0.1:");
            out.append(port.as_str());
            out.append("/\n    ProxyPassReverse / http://127.0.0.1:");
            out.append(port.as_str());
            out.append("/\n");
        },
        ProjectType::Python => {
            let port = decimal_string(p.port as u64);
            out.append("\n    ProxyPreserveHost On\n    ProxyPass / http://127.0.0.1:");
            out.append(port.as_str());
            out.append("/\n    ProxyPassReverse / http://127.0.0.1:");
            out.append(port.as_str());
            out.append("/\n");
        },
    }
    let ghost before = out@;
    out.append("    ErrorLog ${APACHE_LOG_DIR}/");
    out.append(p.id.as_str());
    out.append(".error.log\n    CustomLog ${APACHE_LOG_DIR}/");
    out.append(p.id.as_str());
    out.append(".access.log combined\n</VirtualHost>\n");
    assert(out@ =~= before + ("    ErrorLog ${APACHE_LOG_DIR}/"@ + p.id@
        + ".error.log\n    CustomLog ${APACHE_LOG_DIR}/"@ + p.id@
        + ".access.log combined\n</VirtualHost>\n"@));
    out
}

} // verus!

verus! {

/// Whether a project's dev server runs (with its process id).
#[derive(Debug, Clone, Copy, PartialEq, Eq, Structural)]
pub enum ServerStatus {
    Running(u32),
    Stopped,
}

/// The map that a sequence of (project id, process id) registrations gives,
/// a later registration of an id replacing an earlier one.
pub open spec fn registrations(s: Seq<(String, u32)>) -> Map<Seq<char>, u32>
    decreases s.len(),
{
    if s.len() == 0 {
        Map::empty()
    } else {
        registrations(s.drop_last()).insert(s.last().0@, s.last().1)
    }
}

/// The dev servers started by this process, by project id.
pub struct ServerRegistry {
    entries: Vec<(String, u32)>,
}

impl View for ServerRegistry {
    type V = Map<Seq<char>, u32>;

    closed spec fn view(&self) -> Map<Seq<char>, u32> {
        registrations(self.entries@)
    }
}

/// Registrations of another project than `k`.
pub open spec fn other_ids(k: Seq<char>) -> spec_fn((String, u32)) -> bool {
    |e: (String, u32)| e.0@ != k
}

proof fn lemma_registrations_without(s: Seq<(String, u32)>, k: Seq<char>, kept: Seq<(String, u32)>)
    requires
        kept == s.filter(other_ids(k)),
    ensures
        registrations(kept) == registrations(s).remove(k),
    decreases s.len(),
{
    reveal_with_fuel(Seq::filter, 1);
    if s.len() == 0 {
        assert(registrations(kept) =~= registrations(s).remove(k));
    } else {
        let init = s.drop_last();
        let kept_init = init.filter(other_ids(k));
        lemma_registrations_without(init, k, kept_init);
        assert(s.filter(other_ids(k)) == if s.last().0@ != k {
            kept_init.push(s.last())
        } else {
            kept_init
        });
        if s.last().0@ != k {
            assert(kept.drop_last() =~= kept_init);
            assert(registrations(kept) =~= registrations(s).remove(k));
        } else {
            assert(registrations(kept) =~= registrations(s).remove(k));
        }
    }
}

impl ServerRegistry {
    pub fn new() -> (r: Self)
        ensures
            r@ == Map::<Seq<char>, u32>::empty(),
    {
        ServerRegistry { entries: Vec::new() }
    }

    /// The process registered for a project.
    pub fn get(&self, id: &str) -> (r: Option<u32>)
        ensures
            r == (if self@.contains_key(id@) {
                Some(self@[id@])
            } else {
                None
            }),
    {
        let ghost s = self.entries@;
        let mut j = self.entries.len();
        assert(s.take(j as int) =~= s);
        while j > 0
            invariant
                j <= s.len(),
                s == self.entries@,
                registrations(s).contains_key(id@) == registrations(s.take(j as int)).contains_key(
                    id@,
                ),
                registrations(s).contains_key(id@) ==> registrations(s)[id@] == registrations(
                    s.take(j as int),
                )[id@],
            decreases j,
        {
            assert(s.take(j as int).drop_last() =~= s.take(j - 1));
            if same_text(self.entries[j - 1].0.as_str(), id) {
                return Some(self.entries[j - 1].1);
            }
            j -= 1;
        }
        None
    }

    /// Forgets a project's process.
    pub fn remove(&mut self, id: &str)
        ensures
            final(self)@ == old(self)@.remove(id@),
    {
        let ghost s = self.entries@;
        let mut kept: Vec<(String, u32)> = Vec::new();
        let mut i: usize = 0;
        while i < self.entries.len()
            invariant
                i <= s.len(),
                s == self.entries@,
                kept@ == s.take(i as int).filter(other_ids(id@)),
            decreases s.len() - i,
        {
            proof {
                reveal_with_fuel(Seq::filter, 1);
                assert(s.take(i + 1).drop_last() =~= s.take(i as int));
            }
            if !same_text(self.entries[i].0.as_str(), id) {
                kept.push((self.entries[i].0.clone(), self.entries[i].1));
            }
            i += 1;
        }
        assert(s.take(s.len() as int) =~= s);
        proof {
            lemma_registrations_without(s, id@, kept@);
        }
        self.entries = kept;
    }

    /// Registers the process of a project, replacing an earlier one.
    pub fn insert(&mut self, id: &str, pid: u32)
        ensures
            final(self)@ == old(self)@.insert(id@, pid),
    {
        self.remove(id);
        let ghost before = self.entries@;
        self.entries.push((String::from_str(id), pid));
        assert(self.entries@.drop_last() =~= before);
        assert(self@ =~= old(self)@.insert(id@, pid));
    }
}

/// How killing a dev server went: its process group ended, or (when that
/// failed) its single process, or neither, with `kill`'s error output.
#[derive(Debug)]
pub enum KillOutcome {
    GroupKilled,
    PidKilled,
    Failed(String),
}

/// The process to kill to stop a project's dev server; an error when none is registered.
pub fn server_to_stop(registry: &ServerRegistry, id: &str) -> (r: Result<u32, String>)
    ensures
        match r {
            Ok(pid) => registry@.contains_key(id@) && pid == registry@[id@],
            Err(e) => !registry@.contains_key(id@) && e@ == "실행 중인 서버가 없습니다."@,
        },
{
    match registry.get(id) {
        Some(pid) => Ok(pid),
        None => Err(String::from_str("실행 중인 서버가 없습니다.")),
    }
}

/// Ends stopping a dev server: with no server registered for `id` it is an
/// error and nothing changes; once it is killed, it is forgotten; when it could
/// not be killed it stays registered and the error is reported.
pub fn stop_server(registry: &mut ServerRegistry, id: &str, outcome: KillOutcome) -> (r: Result<
    (),
    String,
>)
    ensures
        !old(registry)@.contains_key(id@) ==> {
            &&& r matches Err(e) && e@ == "실행 중인 서버가 없습니다."@
            &&& final(registry)@ == old(registry)@
        },
        old(registry)@.contains_key(id@) ==> match outcome {
            KillOutcome::Failed(err) => {
                &&& r matches Err(e) && e@ == "kill 실패: "@ + err@
                &&& final(registry)@ == old(registry)@
            },
            _ => r is Ok && final(registry)@ == old(registry)@.remove(id@),
        },
{
    if registry.get(id).is_none() {
        return Err(String::from_str("실행 중인 서버가 없습니다."));
    }
    match outcome {
        KillOutcome::Failed(err) => {
            let mut e = String::from_str("kill 실패: ");
            e.append(err.as_str());
            Err(e)
        },
        _ => {
            registry.remove(id);
            Ok(())
        },
    }
}

/// A server's status: running when a process is registered for the project and
/// that process is alive (`pid_alive` says so of the registered process).
pub fn server_status(registry: &ServerRegistry, id: &str, pid_alive: bool) -> (r: ServerStatus)
    ensures
        r == (if registry@.contains_key(id@) && pid_alive {
            ServerStatus::Running(registry@[id@])
        } else {
            ServerStatus::Stopped
        }),
{
    match registry.get(id) {
        Some(pid) if pid_alive => ServerStatus::Running(pid),
        _ => ServerStatus::Stopped,
    }
}

} // verus!

verus! {

/// Some project in `list` other than those with id `id` uses `port`.
pub open spec fn port_taken(list: Seq<VhostProject>, id: Seq<char>, port: int) -> bool {
    exists|i: int| 0 <= i < list.len() && list[i].id@ != id && list[i].port == port
}

/// Some project in `list` uses `port`.
pub open spec fn port_in_use(list: Seq<VhostProject>, port: int) -> bool {
    exists|i: int| 0 <= i < list.len() && list[i].port == port
}

fn uses_port(list: &Vec<VhostProject>, port: u16) -> (r: bool)
    ensures
        r == port_in_use(list@, port as int),
{
    let mut i: usize = 0;
    while i < list.len()
        invariant
            i <= list.len(),
            forall|j: int| 0 <= j < i ==> list@[j].port != port,
        decreases list.len() - i,
    {
        if list[i].port == port {
            return true;
        }
        i += 1;
    }
    false
}

/// The first port from 5001 below 6000 that no project uses, or 5001 when all are taken.
pub fn auto_assign_port(list: &Vec<VhostProject>) -> (r: u16)
    ensures
        (exists|p: int| 5001 <= p < 6000 && !port_in_use(list@, p)) ==> {
            &&& 5001 <= r < 6000
            &&& !port_in_use(list@, r as int)
            &&& forall|q: int| 5001 <= q < r ==> port_in_use(list@, q)
        },
        !(exists|p: int| 5001 <= p < 6000 && !port_in_use(list@, p)) ==> r == 5001,
{
    let mut p: u16 = 5001;
    while p < 6000
        invariant
            5001 <= p <= 6000,
            forall|q: int| 5001 <= q < p ==> port_in_use(list@, q),
        decreases 6000 - p,
    {
        if !uses_port(list, p) {
            return p;
        }
        p += 1;
    }
    assert(forall|q: int| 5001 <= q < 6000 ==> port_in_use(list@, q));
    5001
}

/// Projects other than those with id `id`.
pub open spec fn other_projects(id: Seq<char>) -> spec_fn(VhostProject) -> bool {
    |q: VhostProject| q.id@ != id
}

fn without_id(list: &Vec<VhostProject>, id: &str) -> (r: Vec<VhostProject>)
    ensures
        r@ == list@.filter(other_projects(id@)),
{
    let mut kept: Vec<VhostProject> = Vec::new();
    let mut i: usize = 0;
    while i < list.len()
        invariant
            i <= list.len(),
            kept@ == list@.take(i as int).filter(other_projects(id@)),
        decreases list.len() - i,
    {
        proof {
            reveal_with_fuel(Seq::filter, 1);
            assert(list@.take(i + 1).drop_last() =~= list@.take(i as int));
        }
        if !same_text(list[i].id.as_str(), id) {
            kept.push(list[i].duplicate());
        }
        i += 1;
    }
    assert(list@.take(list.len() as int) =~= list@);
    kept
}

/// A project as stored: a Next.js command has its port option made to name the port.
pub open spec fn spec_prepared(p: VhostProject, command: Seq<char>) -> bool {
    if p.project_type == ProjectType::NextJs {
        command == spec_sync_port(p.start_command@, p.port)
    } else {
        command == p.start_command@
    }
}

/// Registers a project in the list: a Next.js start command gets the project's
/// port, any earlier project with the same id leaves, and the project is appended.
/// Returns the new list and the project as stored.
pub fn add_project(list: &Vec<VhostProject>, project: VhostProject) -> (r: (
    Vec<VhostProject>,
    VhostProject,
))
    ensures
        r.1.id == project.id && r.1.name == project.name && r.1.path == project.path
            && r.1.domain == project.domain && r.1.project_type == project.project_type
            && r.1.port == project.port && r.1.app_dir == project.app_dir,
        spec_prepared(project, r.1.start_command@),
        r.0@ == list@.filter(other_projects(project.id@)).push(r.1),
{
    let mut p = project;
    if p.project_type == ProjectType::NextJs {
        p.start_command = sync_port_in_command(p.start_command.as_str(), p.port);
    }
    let mut out = without_id(list, p.id.as_str());
    out.push(p.duplicate());
    (out, p)
}

/// The first port from `q` upward (to 65535) that no other project than `id` uses.
pub open spec fn first_free_port(list: Seq<VhostProject>, id: Seq<char>, q: int) -> int
    decreases 65536 - q,
{
    if q >= 65536 {
        q
    } else if !port_taken(list, id, q) {
        q
    } else {
        first_free_port(list, id, q + 1)
    }
}

/// Index of the first project with id `id`, if any.
pub open spec fn first_with_id(list: Seq<VhostProject>, id: Seq<char>, i: int) -> bool {
    0 <= i < list.len() && list[i].id@ == id && forall|j: int|
        0 <= j < i ==> #[trigger] list[j].id@ != id
}

/// An edit to `project_type` gives the project a new port: its type changes, or
/// a proxied project still has port 80.
pub open spec fn needs_new_port(current: VhostProject, project_type: ProjectType) -> bool {
    current.project_type != project_type || (project_type.spec_is_proxied() && current.port == 80)
}

/// Editing project `id` to `project_type` seeks a new proxied port: a project
/// has that id, the first such needs a new port, and the new type is proxied.
pub open spec fn seeks_proxied_port(
    list: Seq<VhostProject>,
    id: Seq<char>,
    project_type: ProjectType,
) -> bool {
    &&& project_type.spec_is_proxied()
    &&& exists|i: int| #[trigger] first_with_id(list, id, i) && needs_new_port(list[i], project_type)
}

/// A project after an edit: new name, path, command and app directory; a new
/// port when the type changed or a proxied project still has port 80 (the first
/// free one from 5001 for proxied types, else 80); a Next.js command gets the port.
pub open spec fn spec_edited(
    list: Seq<VhostProject>,
    old: VhostProject,
    new: VhostProject,
    name: Seq<char>,
    path: Seq<char>,
    start_command: Seq<char>,
    project_type: ProjectType,
    app_dir: Seq<char>,
) -> bool {
    let port = if !needs_new_port(old, project_type) {
        old.port as int
    } else if project_type.spec_is_proxied() {
        first_free_port(list, old.id@, 5001)
    } else {
        80
    };
    &&& new.id == old.id
    &&& new.domain == old.domain
    &&& new.name@ == name
    &&& new.path@ == path
    &&& new.app_dir@ == app_dir
    &&& new.project_type == project_type
    &&& new.port == port
    &&& new.start_command@ == (if project_type == ProjectType::NextJs {
        spec_sync_port(start_command, new.port)
    } else {
        start_command
    })
}

/// Whether a project other than `id` uses `port`.
pub fn port_taken_by_other(list: &Vec<VhostProject>, id: &str, port: u16) -> (r: bool)
    ensures
        r == port_taken(list@, id@, port as int),
{
    let mut i: usize = 0;
    while i < list.len()
        invariant
            i <= list.len(),
            forall|j: int| 0 <= j < i ==> !(list@[j].id@ != id@ && list@[j].port == port),
        decreases list.len() - i,
    {
        if list[i].port == port && !same_text(list[i].id.as_str(), id) {
            return true;
        }
        i += 1;
    }
    false
}

/// Whether editing project `id` to `project_type` seeks a new proxied port.
pub fn seeks_new_proxied_port(list: &Vec<VhostProject>, id: &str, project_type: ProjectType) -> (r:
    bool)
    ensures
        r == seeks_proxied_port(list@, id@, project_type),
{
    if !project_type.is_proxied() {
        return false;
    }
    let mut i: usize = 0;
    while i < list.len() && !same_text(list[i].id.as_str(), id)
        invariant
            i <= list.len(),
            forall|j: int| 0 <= j < i ==> #[trigger] list@[j].id@ != id@,
        decreases list.len() - i,
    {
        i += 1;
    }
    if i == list.len() {
        assert forall|k: int| !first_with_id(list@, id@, k) by {
            if first_with_id(list@, id@, k) {
                assert(list@[k].id@ == id@);
            }
        }
        return false;
    }
    assert(first_with_id(list@, id@, i as int));
    assert forall|k: int| #[trigger] first_with_id(list@, id@, k) implies k == i by {
        if k < i {
            assert(list@[k].id@ != id@);
        } else if k > i {
            assert(list@[i as int].id@ != id@);
        }
    }
    list[i].project_type != project_type || list[i].port == 80
}

/// Edits the first project with id `id` in place (see `spec_edited`) and returns
/// it; an error when no project has that id. A new proxied port is sought from
/// 5001 upward, so when one is sought some port from 5001 must be free.
pub fn update_project(
    list: &mut Vec<VhostProject>,
    id: &str,
    name: String,
    path: String,
    start_command: String,
    project_type: ProjectType,
    app_dir: String,
) -> (r: Result<VhostProject, String>)
    requires
        seeks_proxied_port(old(list)@, id@, project_type) ==> exists|q: int|
            5001 <= q <= 65535 && !port_taken(old(list)@, id@, q),
    ensures
        match r {
            Err(e) => {
                &&& e@ == "프로젝트를 찾을 수 없습니다."@
                &&& forall|i: int| 0 <= i < old(list)@.len() ==> old(list)@[i].id@ != id@
                &&& final(list)@ == old(list)@
            },
            Ok(p) => exists|i: int|
                {
                    &&& first_with_id(old(list)@, id@, i)
                    &&& spec_edited(
                        old(list)@,
                        old(list)@[i],
                        p,
                        name@,
                        path@,
                        start_command@,
                        project_type,
                        app_dir@,
                    )
                    &&& final(list)@ == old(list)@.update(i, p)
                },
        },
{
    let mut i: usize = 0;
    while i < list.len() && !same_text(list[i].id.as_str(), id)
        invariant
            i <= list.len(),
            list@ == old(list)@,
            forall|j: int| 0 <= j < i ==> #[trigger] list@[j].id@ != id@,
        decreases list.len() - i,
    {
        i += 1;
    }
    if i == list.len() {
        return Err(String::from_str("프로젝트를 찾을 수 없습니다."));
    }
    let old_p = list[i].duplicate();
    let type_changed = old_p.project_type != project_type;
    let needs_port = type_changed || (project_type.is_proxied() && old_p.port == 80);
    let mut port = old_p.port;
    if needs_port {
        if project_type.is_proxied() {
            let mut candidate: u16 = 5001;
            proof {
                assert(first_with_id(old(list)@, id@, i as int));
                assert(seeks_proxied_port(old(list)@, id@, project_type));
                let w = choose|q: int| 5001 <= q <= 65535 && !port_taken(old(list)@, id@, q);
                lemma_first_free_bounded(old(list)@, id@, 5001, w);
            }
            while port_taken_by_other(list, id, candidate)
                invariant
                    list@ == old(list)@,
                    5001 <= candidate,
                    first_free_port(old(list)@, id@, 5001) == first_free_port(
                        old(list)@,
                        id@,
                        candidate as int,
                    ),
                    first_free_port(old(list)@, id@, 5001) <= 65535,
                decreases 65535 - candidate,
            {
                proof {
                    lemma_first_free_ge(old(list)@, id@, candidate + 1);
                }
                candidate += 1;
            }
            port = candidate;
        } else {
            port = 80;
        }
    }
    let command = if project_type == ProjectType::NextJs {
        sync_port_in_command(start_command.as_str(), port)
    } else {
        start_command
    };
    let updated = VhostProject {
        id: old_p.id,
        name,
        path,
        domain: old_p.domain,
        project_type,
        port,
        start_command: command,
        app_dir,
    };
    list.set(i, updated.duplicate());
    Ok(updated)
}

proof fn lemma_first_free_ge(list: Seq<VhostProject>, id: Seq<char>, q: int)
    ensures
        first_free_port(list, id, q) >= q,
    decreases 65536 - q,
{
    if q < 65536 && port_taken(list, id, q) {
        lemma_first_free_ge(list, id, q + 1);
    }
}

proof fn lemma_first_free_bounded(list: Seq<VhostProject>, id: Seq<char>, q: int, w: int)
    requires
        q <= w <= 65535,
        !port_taken(list, id, w),
    ensures
        q <= first_free_port(list, id, q) <= w,
        !port_taken(list, id, first_free_port(list, id, q)),
    decreases w - q,
{
    if q < w && port_taken(list, id, q) {
        lemma_first_free_bounded(list, id, q + 1, w);
    }
}

/// Drops every project with id `id`; also returns the first of them (its vhost
/// and hosts entry are to be removed).
pub fn remove_project(list: &Vec<VhostProject>, id: &str) -> (r: (
    Vec<VhostProject>,
    Option<VhostProject>,
))
    ensures
        r.0@ == list@.filter(other_projects(id@)),
        match r.1 {
            Some(p) => exists|i: int| first_with_id(list@, id@, i) && p == list@[i],
            None => forall|i: int| 0 <= i < list@.len() ==> list@[i].id@ != id@,
        },
{
    let mut i: usize = 0;
    while i < list.len() && !same_text(list[i].id.as_str(), id)
        invariant
            i <= list.len(),
            forall|j: int| 0 <= j < i ==> #[trigger] list@[j].id@ != id@,
        decreases list.len() - i,
    {
        i += 1;
    }
    let found = if i < list.len() {
        Some(list[i].duplicate())
    } else {
        None
    };
    (without_id(list, id), found)
}

} // verus!

verus! {

/// `k` is the position of the last `)` in `s`.
pub open spec fn last_paren_at(s: Seq<char>, k: int) -> bool {
    &&& 0 <= k < s.len()
    &&& s[k] == ')'
    &&& forall|j: int| k < j < s.len() ==> s[j] != ')'
}

/// Whether a process lives, from its `/proc/<pid>/stat` text (`None` when that
/// could not be read): its state is the first word after the last `)` (the
/// command name may hold spaces and parentheses), and a zombie (`Z`) is dead.
pub open spec fn spec_process_alive(stat: Option<Seq<char>>) -> bool {
    match stat {
        None => false,
        Some(s) => if exists|k: int| last_paren_at(s, k) {
            let k = choose|k: int| last_paren_at(s, k);
            let w = words(s.skip(k + 1));
            w.len() > 0 && w[0] != "Z"@
        } else {
            false
        },
    }
}

proof fn last_paren_unique(s: Seq<char>, k: int)
    requires
        last_paren_at(s, k),
    ensures
        (choose|j: int| last_paren_at(s, j)) == k,
{
    let j = choose|j: int| last_paren_at(s, j);
    assert(last_paren_at(s, j));
    if j < k {
        assert(s[k] != ')');
    }
    if k < j {
        assert(s[j] != ')');
    }
}

pub fn process_alive(stat: Option<&str>) -> (r: bool)
    ensures
        r == spec_process_alive(match stat {
            Some(s) => Some(s@),
            None => None,
        }),
{
    let s = match stat {
        Some(s) => s,
        None => return false,
    };
    let v = crate::text::chars_of(s);
    let mut k: usize = v.len();
    while k > 0 && v[k - 1] != ')'
        invariant
            k <= v.len(),
            v@ == s@,
            forall|j: int| k <= j < v.len() ==> v@[j] != ')',
        decreases k,
    {
        k -= 1;
    }
    if k == 0 {
        assert(!exists|j: int| last_paren_at(s@, j));
        return false;
    }
    proof {
        last_paren_unique(s@, k - 1);
    }
    let rest = crate::text::string_from_range(&v, k, v.len());
    assert(rest@ =~= s@.skip(k as int));
    let w = words_of(rest.as_str());
    if w.len() == 0 {
        return false;
    }
    !same_text(w[0].as_str(), "Z")
}

} // verus!

verus! {

/// What `ServerRegistry::get` answers for a registry holding `m`.
pub open spec fn lookup(m: Map<Seq<char>, u32>, id: Seq<char>) -> Option<u32> {
    if m.contains_key(id) {
        Some(m[id])
    } else {
        None
    }
}

/// A registered server is found under its project's id; registering it leaves
/// every other project's entry as it was.
pub proof fn registered_server_is_found(m: Map<Seq<char>, u32>, id: Seq<char>, pid: u32, other: Seq<char>)
    requires
        other != id,
    ensures
        lookup(m.insert(id, pid), id) == Some(pid),
        lookup(m.insert(id, pid), other) == lookup(m, other),
{
}

/// A forgotten server is no longer found; the others still are.
pub proof fn removed_server_is_gone(m: Map<Seq<char>, u32>, id: Seq<char>, other: Seq<char>)
    requires
        other != id,
    ensures
        lookup(m.remove(id), id) is None,
        lookup(m.remove(id), other) == lookup(m, other),
{
}

/// After a project is added, it is the list's last entry and no other entry has
/// its id: adding never leaves two projects with one id.
pub proof fn added_project_is_unique(list: Seq<VhostProject>, stored: VhostProject)
    ensures
        ({
            let out = list.filter(other_projects(stored.id@)).push(stored);
            &&& out.last() == stored
            &&& forall|i: int| 0 <= i < out.len() - 1 ==> out[i].id@ != stored.id@
        }),
{
    broadcast use vstd::seq_lib::group_filter_ensures;

    let kept = list.filter(other_projects(stored.id@));
    assert forall|i: int| 0 <= i < kept.len() implies kept[i].id@ != stored.id@ by {
        assert(other_projects(stored.id@)(kept[i]));
    }
}

/// After a project is removed, no project with its id is left, and every
/// project with another id is still there.
pub proof fn removed_project_is_gone(list: Seq<VhostProject>, id: Seq<char>)
    ensures
        forall|i: int|
            0 <= i < list.filter(other_projects(id)).len() ==> #[trigger] list.filter(
                other_projects(id),
            )[i].id@ != id,
        forall|i: int|
            0 <= i < list.len() && list[i].id@ != id ==> list.filter(other_projects(id)).contains(
                #[trigger] list[i],
            ),
{
    broadcast use vstd::seq_lib::group_filter_ensures;

    let kept = list.filter(other_projects(id));
    assert forall|i: int| 0 <= i < kept.len() implies kept[i].id@ != id by {
        assert(other_projects(id)(kept[i]));
    }
    assert forall|i: int| 0 <= i < list.len() && list[i].id@ != id implies kept.contains(
        list[i],
    ) by {
        assert(other_projects(id)(list[i]));
    }
}

} // verus!

verus! {

/// A word that takes the next word as its value: `--port` or `-p`.
pub open spec fn is_port_flag(w: Seq<char>) -> bool {
    w == "--port"@ || w == "-p"@
}

/// A port value that no rewriting mistakes for an option: it starts with a digit.
pub open spec fn plain_value(p: Seq<char>) -> bool {
    p.len() > 0 && is_ascii_digit(p[0])
}

proof fn lemma_plain_value_is_not_option(p: Seq<char>)
    requires
        plain_value(p),
    ensures
        !is_port_flag(p),
        !starts_with(p, "--port="@),
{
    reveal_strlit("--port");
    reveal_strlit("-p");
    reveal_strlit("--port=");
    if p == "--port"@ {
        assert(p[0] == '-');
    }
    if p == "-p"@ {
        assert(p[0] == '-');
    }
    if starts_with(p, "--port="@) {
        assert(p.subrange(0, 7)[0] == p[0]);
    }
}

proof fn lemma_port_assignment_is_option(p: Seq<char>)
    ensures
        starts_with("--port="@ + p, "--port="@),
        !is_port_flag("--port="@ + p),
{
    reveal_strlit("--port=");
    reveal_strlit("--port");
    reveal_strlit("-p");
    let w = "--port="@ + p;
    assert(w.subrange(0, 7) =~= "--port="@);
    assert(w.len() >= 7);
}

/// Rewriting the port options a second time changes nothing.
proof fn lemma_with_port_idempotent(ws: Seq<Seq<char>>, p: Seq<char>)
    requires
        plain_value(p),
    ensures
        with_port(with_port(ws, p), p) == with_port(ws, p),
        has_port_option(ws) ==> has_port_option(with_port(ws, p)),
    decreases ws.len(),
{
    lemma_plain_value_is_not_option(p);
    if ws.len() == 0 {
    } else if is_port_flag(ws[0]) && ws.len() >= 2 {
        let rest = with_port(ws.skip(2), p);
        lemma_with_port_idempotent(ws.skip(2), p);
        let once = seq![ws[0], p] + rest;
        assert(once[0] == ws[0] && once.len() >= 2);
        assert(once.skip(2) =~= rest);
        assert(with_port(once, p) == seq![once[0], p] + with_port(once.skip(2), p));
        assert(with_port(once, p) =~= once);
    } else if is_port_flag(ws[0]) {
        let once = seq![ws[0], p];
        assert(once.skip(2) =~= Seq::<Seq<char>>::empty());
        assert(with_port(once, p) == seq![once[0], p] + with_port(once.skip(2), p));
        assert(with_port(once, p) =~= once);
    } else if starts_with(ws[0], "--port="@) {
        let rest = with_port(ws.drop_first(), p);
        lemma_with_port_idempotent(ws.drop_first(), p);
        let once = seq!["--port="@ + p] + rest;
        lemma_port_assignment_is_option(p);
        assert(once[0] == "--port="@ + p);
        assert(once.drop_first() =~= rest);
        assert(with_port(once, p) == seq!["--port="@ + p] + with_port(once.drop_first(), p));
        assert(with_port(once, p) =~= once);
    } else {
        let rest = with_port(ws.drop_first(), p);
        lemma_with_port_idempotent(ws.drop_first(), p);
        let once = seq![ws[0]] + rest;
        assert(once[0] == ws[0]);
        assert(once.drop_first() =~= rest);
        assert(with_port(once, p) =~= once);
    }
}

/// Without port options the words stay as they are.
proof fn lemma_with_port_no_option(ws: Seq<Seq<char>>, p: Seq<char>)
    requires
        !has_port_option(ws),
    ensures
        with_port(ws, p) == ws,
    decreases ws.len(),
{
    if ws.len() > 0 {
        lemma_with_port_no_option(ws.drop_first(), p);
        assert(seq![ws[0]] + ws.drop_first() =~= ws);
    }
}

/// Words without port options followed by `--port <p>`: that pair is their
/// one port option, and it names `p`.
proof fn lemma_appended_port(ws: Seq<Seq<char>>, p: Seq<char>)
    requires
        plain_value(p),
        !has_port_option(ws),
    ensures
        has_port_option(ws + seq!["--port"@, p]),
        with_port(ws + seq!["--port"@, p], p) == ws + seq!["--port"@, p],
    decreases ws.len(),
{
    reveal_strlit("--port");
    let tail = seq!["--port"@, p];
    lemma_plain_value_is_not_option(p);
    if ws.len() == 0 {
        assert(ws + tail =~= tail);
        assert(tail[0] == "--port"@);
        assert(tail.skip(2) =~= Seq::<Seq<char>>::empty());
        assert(with_port(tail.skip(2), p) == Seq::<Seq<char>>::empty());
        assert(with_port(tail, p) == seq![tail[0], p] + with_port(tail.skip(2), p));
        assert(with_port(tail, p) =~= tail);
    } else {
        let all = ws + tail;
        assert(all[0] == ws[0]);
        assert(!is_port_flag(ws[0]));
        assert(all.drop_first() =~= ws.drop_first() + tail);
        lemma_appended_port(ws.drop_first(), p);
        assert(seq![ws[0]] + (ws.drop_first() + tail) =~= all);
    }
}

/// A command's port options after syncing, as its words are read back: there
/// is one, every one names the port, and syncing again changes nothing. The
/// command must not be blank (a blank one syncs to the empty command).
pub proof fn synced_command_names_port(cmd: Seq<char>, port: u16)
    requires
        trim(cmd).len() > 0,
    ensures
        ({
            let out = spec_sync_port(cmd, port);
            &&& has_port_option(words(out))
            &&& with_port(words(out), decimal(port as nat)) == words(out)
            &&& spec_sync_port(out, port) == out
        }),
{
    reveal_strlit("--port");
    reveal_strlit("--port=");
    let ws = words(cmd);
    let p = decimal(port as nat);
    lemma_decimal_starts_with_digit(port as nat);
    assert(plain_value(p));
    let r = with_port(ws, p);
    let parts = if has_port_option(ws) {
        r
    } else {
        r + seq!["--port"@, p]
    };
    if has_port_option(ws) {
        lemma_with_port_idempotent(ws, p);
    } else {
        lemma_with_port_no_option(ws, p);
        lemma_appended_port(ws, p);
    }
    assert(has_port_option(parts) && with_port(parts, p) == parts);
    let out = join(parts, " "@);
    assert(out == spec_sync_port(cmd, port));
    lemma_synced_words(cmd, port);
    assert(words(out) == parts);
    // the synced command is not blank, so syncing it again reads the same words
    lemma_words_proper(cmd, seq![]);
    lemma_with_port_proper(ws, p);
    assert(proper_word(parts[0])) by {
        if !has_port_option(ws) && r.len() == 0 {
            assert(parts[0] == "--port"@);
        }
    }
    lemma_join_starts_with_first(parts);
    lemma_trim_not_blank(out);
}

/// Word `k` of a command after syncing, against word `k` before: the same
/// word, or the port as the value after a `--port`/`-p` flag, or a
/// `--port=` word made to name the port.
pub open spec fn synced_word(ws: Seq<Seq<char>>, out: Seq<Seq<char>>, p: Seq<char>, k: int) -> bool {
    ||| out[k] == ws[k]
    ||| (0 < k && is_port_flag(ws[k - 1]) && out[k] == p)
    ||| (starts_with(ws[k], "--port="@) && out[k] == "--port="@ + p)
}

/// Rewriting port options keeps every position: each word stays or becomes a
/// port value; only a final bare flag gains one word, the port.
proof fn lemma_with_port_shape(ws: Seq<Seq<char>>, p: Seq<char>)
    ensures
        ws.len() <= with_port(ws, p).len() <= ws.len() + 1,
        with_port(ws, p).len() == ws.len() + 1 ==> ws.len() > 0 && is_port_flag(ws.last())
            && with_port(ws, p).last() == p,
        forall|k: int| 0 <= k < ws.len() ==> #[trigger] synced_word(ws, with_port(ws, p), p, k),
    decreases ws.len(),
{
    let r = with_port(ws, p);
    if ws.len() == 0 {
    } else if is_port_flag(ws[0]) && ws.len() >= 2 {
        let t = ws.skip(2);
        lemma_with_port_shape(t, p);
        let rest = with_port(t, p);
        assert(r == seq![ws[0], p] + rest);
        assert forall|k: int| 0 <= k < ws.len() implies #[trigger] synced_word(ws, r, p, k) by {
            if k >= 2 {
                assert(t[k - 2] == ws[k]);
                assert(r[k] == rest[k - 2]);
                assert(synced_word(t, rest, p, k - 2));
                if k - 2 > 0 {
                    assert(t[k - 3] == ws[k - 1]);
                }
            }
        }
        if r.len() == ws.len() + 1 {
            assert(t.last() == ws.last());
            assert(r.last() == rest.last());
        }
    } else if is_port_flag(ws[0]) {
        assert(r == seq![ws[0], p]);
    } else {
        let t = ws.drop_first();
        lemma_with_port_shape(t, p);
        let rest = with_port(t, p);
        assert(r[0] == ws[0] || (starts_with(ws[0], "--port="@) && r[0] == "--port="@ + p));
        assert forall|k: int| 0 <= k < ws.len() implies #[trigger] synced_word(ws, r, p, k) by {
            if k >= 1 {
                assert(t[k - 1] == ws[k]);
                assert(r[k] == rest[k - 1]);
                assert(synced_word(t, rest, p, k - 1));
                if k - 1 > 0 {
                    assert(t[k - 2] == ws[k - 1]);
                }
            }
        }
        if r.len() == ws.len() + 1 {
            assert(t.last() == ws.last());
            assert(r.last() == rest.last());
        }
    }
}

/// The words of a synced command, read back: the command's words with their
/// port options rewritten, then `--port <port>` when it had none.
proof fn lemma_synced_words(cmd: Seq<char>, port: u16)
    requires
        trim(cmd).len() > 0,
    ensures
        words(spec_sync_port(cmd, port)) == (if has_port_option(words(cmd)) {
            with_port(words(cmd), decimal(port as nat))
        } else {
            with_port(words(cmd), decimal(port as nat)) + seq!["--port"@, decimal(port as nat)]
        }),
{
    reveal_strlit("--port");
    reveal_strlit("--port=");
    let ws = words(cmd);
    let p = decimal(port as nat);
    lemma_decimal_starts_with_digit(port as nat);
    assert(plain_value(p));
    let r = with_port(ws, p);
    let parts = if has_port_option(ws) {
        r
    } else {
        r + seq!["--port"@, p]
    };
    lemma_words_proper(cmd, seq![]);
    lemma_with_port_proper(ws, p);
    assert forall|i: int| 0 <= i < parts.len() implies proper_word(#[trigger] parts[i]) by {
        if !has_port_option(ws) && i >= r.len() {
            if i == r.len() {
                assert(parts[i] == "--port"@);
                assert(proper_word("--port"@));
            } else {
                assert(parts[i] == p);
            }
        }
    }
    lemma_words_of_joined(parts);
}

/// Syncing changes only port values. A command without a port option keeps
/// its words and gains `--port <port>`; one with a port option keeps its
/// length (one word more only when it ends in a bare `--port` or `-p`, which
/// gets the port), and each of its words stays as it was, or is the port
/// after a `--port`/`-p` flag, or is a `--port=` word naming the port.
pub proof fn syncing_changes_only_port_values(cmd: Seq<char>, port: u16)
    requires
        trim(cmd).len() > 0,
    ensures
        ({
            let ws = words(cmd);
            let out = words(spec_sync_port(cmd, port));
            let p = decimal(port as nat);
            &&& !has_port_option(ws) ==> out == ws + seq!["--port"@, p]
            &&& has_port_option(ws) ==> ws.len() <= out.len() <= ws.len() + 1
            &&& has_port_option(ws) && out.len() == ws.len() + 1 ==> is_port_flag(ws.last())
                && out.last() == p
            &&& forall|k: int| 0 <= k < ws.len() ==> #[trigger] synced_word(ws, out, p, k)
        }),
{
    let ws = words(cmd);
    let p = decimal(port as nat);
    let r = with_port(ws, p);
    lemma_synced_words(cmd, port);
    lemma_with_port_shape(ws, p);
    if !has_port_option(ws) {
        lemma_with_port_no_option(ws, p);
        let out = r + seq!["--port"@, p];
        assert forall|k: int| 0 <= k < ws.len() implies #[trigger] synced_word(ws, out, p, k) by {
            assert(out[k] == ws[k]);
        }
    }
}

proof fn lemma_with_port_proper(ws: Seq<Seq<char>>, p: Seq<char>)
    requires
        forall|i: int| 0 <= i < ws.len() ==> proper_word(#[trigger] ws[i]),
        plain_value(p),
        forall|j: int| 0 <= j < p.len() ==> is_ascii_digit(#[trigger] p[j]),
    ensures
        forall|i: int|
            0 <= i < with_port(ws, p).len() ==> proper_word(#[trigger] with_port(ws, p)[i]),
    decreases ws.len(),
{
    reveal_strlit("--port=");
    assert(proper_word(p)) by {
        assert forall|j: int| 0 <= j < p.len() implies !is_ws(#[trigger] p[j]) by {
            assert(is_ascii_digit(p[j]));
        }
    }
    if ws.len() == 0 {
    } else {
        let head: Seq<Seq<char>> = if is_port_flag(ws[0]) {
            seq![ws[0], p]
        } else if starts_with(ws[0], "--port="@) {
            seq!["--port="@ + p]
        } else {
            seq![ws[0]]
        };
        let next = if is_port_flag(ws[0]) && ws.len() >= 2 {
            ws.skip(2)
        } else if is_port_flag(ws[0]) {
            Seq::<Seq<char>>::empty()
        } else {
            ws.drop_first()
        };
        assert forall|i: int| 0 <= i < next.len() implies proper_word(#[trigger] next[i]) by {
            if is_port_flag(ws[0]) && ws.len() >= 2 {
                assert(next[i] == ws[i + 2]);
            } else if !is_port_flag(ws[0]) {
                assert(next[i] == ws[i + 1]);
            }
        }
        lemma_with_port_proper(next, p);
        assert(proper_word(ws[0]));
        let a = "--port="@ + p;
        assert(proper_word(a)) by {
            assert forall|j: int| 0 <= j < a.len() implies !is_ws(#[trigger] a[j]) by {
                if j >= 7 {
                    assert(a[j] == p[j - 7]);
                }
            }
        }
        assert(with_port(ws, p) == head + with_port(next, p));
        let all = head + with_port(next, p);
        assert forall|i: int| 0 <= i < all.len() implies proper_word(#[trigger] all[i]) by {
            if i >= head.len() {
                assert(all[i] == with_port(next, p)[i - head.len()]);
            }
        }
    }
}

proof fn lemma_join_starts_with_first(ws: Seq<Seq<char>>)
    requires
        ws.len() > 0,
        proper_word(ws[0]),
    ensures
        join(ws, " "@).len() > 0,
        join(ws, " "@)[0] == ws[0][0],
{
    if ws.len() >= 2 {
        lemma_join_front(ws, " "@);
    }
}

} // verus!

verus! {

/// No two projects share an id.
pub open spec fn distinct_ids(s: Seq<VhostProject>) -> bool {
    forall|i: int, j: int| 0 <= i < j < s.len() ==> #[trigger] s[i].id@ != #[trigger] s[j].id@
}

proof fn filter_keeps_distinct_ids(s: Seq<VhostProject>, id: Seq<char>)
    requires
        distinct_ids(s),
    ensures
        distinct_ids(s.filter(other_projects(id))),
    decreases s.len(),
{
    broadcast use vstd::seq_lib::group_filter_ensures;

    reveal_with_fuel(Seq::filter, 1);
    if s.len() > 0 {
        let init = s.drop_last();
        assert(distinct_ids(init)) by {
            assert forall|i: int, j: int| 0 <= i < j < init.len() implies #[trigger] init[i].id@
                != #[trigger] init[j].id@ by {
                assert(init[i] == s[i] && init[j] == s[j]);
            }
        }
        filter_keeps_distinct_ids(init, id);
        let f = init.filter(other_projects(id));
        if other_projects(id)(s.last()) {
            let g = f.push(s.last());
            assert forall|i: int, j: int| 0 <= i < j < g.len() implies #[trigger] g[i].id@
                != #[trigger] g[j].id@ by {
                if j == g.len() - 1 {
                    assert(f.contains(g[i]));
                    init.lemma_filter_contains_rev(other_projects(id), g[i]);
                    let k = choose|k: int| 0 <= k < init.len() && init[k] == g[i];
                    assert(s[k] == g[i]);
                    assert(s[s.len() - 1] == g[j]);
                } else {
                    assert(g[i] == f[i] && g[j] == f[j]);
                }
            }
        }
    }
}

/// Adding a project to a list without two projects of one id, or removing one
/// from it, leaves a list without two projects of one id.
pub proof fn project_ids_stay_distinct(list: Seq<VhostProject>, stored: VhostProject, id: Seq<char>)
    requires
        distinct_ids(list),
    ensures
        distinct_ids(list.filter(other_projects(stored.id@)).push(stored)),
        distinct_ids(list.filter(other_projects(id))),
{
    broadcast use vstd::seq_lib::group_filter_ensures;

    filter_keeps_distinct_ids(list, id);
    filter_keeps_distinct_ids(list, stored.id@);
    let kept = list.filter(other_projects(stored.id@));
    let out = kept.push(stored);
    assert forall|i: int, j: int| 0 <= i < j < out.len() implies #[trigger] out[i].id@
        != #[trigger] out[j].id@ by {
        if j == out.len() - 1 {
            assert(out[i] == kept[i]);
            assert(other_projects(stored.id@)(kept[i]));
        } else {
            assert(out[i] == kept[i] && out[j] == kept[j]);
        }
    }
}

} // verus!

verus! {

/// Editing a project keeps its id, so a list without two projects of one id
/// stays so, and the edited project is the one found under that id.
pub proof fn edited_project_keeps_ids(list: Seq<VhostProject>, i: int, edited: VhostProject)
    requires
        0 <= i < list.len(),
        edited.id == list[i].id,
        distinct_ids(list),
    ensures
        distinct_ids(list.update(i, edited)),
        first_with_id(list.update(i, edited), edited.id@, i),
{
    let out = list.update(i, edited);
    assert forall|a: int, b: int| 0 <= a < b < out.len() implies #[trigger] out[a].id@
        != #[trigger] out[b].id@ by {
        assert(out[a].id@ == list[a].id@);
        assert(out[b].id@ == list[b].id@);
    }
    assert forall|j: int| 0 <= j < i implies #[trigger] out[j].id@ != edited.id@ by {
        assert(out[j] == list[j]);
    }
}

} // verus!

verus! {

/// The rewrite rule that sends websocket upgrades to the dev server.
pub open spec fn websocket_rule(port: Seq<char>) -> Seq<char> {
    "RewriteRule ^/?(.*) ws://127.0.0.1:"@ + port + "/$1 [P,L]"@
}

/// The proxy of every other request to the dev server.
pub open spec fn root_proxy(port: Seq<char>) -> Seq<char> {
    "ProxyPass / http://127.0.0.1:"@ + port + "/"@
}

/// The line that turns on Apache's rewrite engine, without which no
/// `RewriteRule` of the virtual host applies.
pub open spec fn rewrite_engine_on() -> Seq<char> {
    "\n    RewriteEngine On\n"@
}

/// `mid` occurs in `pre + mid + post` right after `pre`.
proof fn lemma_occurs_after(pre: Seq<char>, mid: Seq<char>, post: Seq<char>)
    ensures
        occurs_at(pre + mid + post, mid, pre.len() as int),
{
    assert((pre + mid + post).subrange(pre.len() as int, (pre.len() + mid.len()) as int) =~= mid);
}

/// The Next.js proxy settings turn the rewrite engine on before the websocket condition.
proof fn lemma_next_head_turns_engine_on()
    ensures
        "\n    ProxyPreserveHost On\n    ProxyRequests Off\n    RewriteEngine On\n    RewriteCond %{HTTP:Upgrade} =websocket [NC]\n    "@
            =~= "\n    ProxyPreserveHost On\n    ProxyRequests Off"@ + rewrite_engine_on()
            + "    RewriteCond %{HTTP:Upgrade} =websocket [NC]\n    "@,
{
    reveal_strlit(
        "\n    ProxyPreserveHost On\n    ProxyRequests Off\n    RewriteEngine On\n    RewriteCond %{HTTP:Upgrade} =websocket [NC]\n    ",
    );
    reveal_strlit("\n    ProxyPreserveHost On\n    ProxyRequests Off");
    reveal_strlit("\n    RewriteEngine On\n");
    reveal_strlit("    RewriteCond %{HTTP:Upgrade} =websocket [NC]\n    ");
}

/// The start of every virtual host: its name.
pub open spec fn vhost_head(p: VhostProject) -> Seq<char> {
    "<VirtualHost *:80>\n    ServerName "@ + p.domain@
}

/// What follows the root proxy of a Next.js virtual host.
pub open spec fn next_conf_tail(p: VhostProject) -> Seq<char> {
    "\n    ProxyPassReverse / http://127.0.0.1:"@ + decimal(p.port as nat) + "/\n"@
        + "    ErrorLog ${APACHE_LOG_DIR}/"@ + p.id@ + ".error.log\n    CustomLog ${APACHE_LOG_DIR}/"@
        + p.id@ + ".access.log combined\n</VirtualHost>\n"@
}

/// A Next.js virtual host, piece by piece.
proof fn next_conf_layout(p: VhostProject)
    requires
        p.project_type == ProjectType::NextJs,
    ensures
        spec_vhost_conf(p) =~= vhost_head(p)
            + "\n    ProxyPreserveHost On\n    ProxyRequests Off\n    RewriteEngine On\n    RewriteCond %{HTTP:Upgrade} =websocket [NC]\n    "@
            + websocket_rule(decimal(p.port as nat)) + "\n    "@ + root_proxy(
            decimal(p.port as nat),
        ) + next_conf_tail(p),
{
    let conf = spec_vhost_conf(p);
    let port = decimal(p.port as nat);
    let logs = "    ErrorLog ${APACHE_LOG_DIR}/"@ + p.id@ + ".error.log\n    CustomLog ${APACHE_LOG_DIR}/"@
        + p.id@ + ".access.log combined\n</VirtualHost>\n"@;
    let head = vhost_head(p);
    reveal_strlit("RewriteRule ^/?(.*) ws://127.0.0.1:");
    reveal_strlit("/$1 [P,L]");
    reveal_strlit("ProxyPass / http://127.0.0.1:");
    reveal_strlit("/");
    reveal_strlit(
        "\n    ProxyPreserveHost On\n    ProxyRequests Off\n    RewriteEngine On\n    RewriteCond %{HTTP:Upgrade} =websocket [NC]\n    RewriteRule ^/?(.*) ws://127.0.0.1:",
    );
    reveal_strlit(
        "\n    ProxyPreserveHost On\n    ProxyRequests Off\n    RewriteEngine On\n    RewriteCond %{HTTP:Upgrade} =websocket [NC]\n    ",
    );
    reveal_strlit("/$1 [P,L]\n    ProxyPass / http://127.0.0.1:");
    reveal_strlit("\n    ");
    reveal_strlit("/\n    ProxyPassReverse / http://127.0.0.1:");
    reveal_strlit("\n    ProxyPassReverse / http://127.0.0.1:");
    let l1a = "\n    ProxyPreserveHost On\n    ProxyRequests Off\n    RewriteEngine On\n    RewriteCond %{HTTP:Upgrade} =websocket [NC]\n    "@;
    assert("\n    ProxyPreserveHost On\n    ProxyRequests Off\n    RewriteEngine On\n    RewriteCond %{HTTP:Upgrade} =websocket [NC]\n    RewriteRule ^/?(.*) ws://127.0.0.1:"@
        =~= l1a + "RewriteRule ^/?(.*) ws://127.0.0.1:"@);
    assert("/$1 [P,L]\n    ProxyPass / http://127.0.0.1:"@ =~= "/$1 [P,L]"@ + "\n    "@
        + "ProxyPass / http://127.0.0.1:"@);
    assert("/\n    ProxyPassReverse / http://127.0.0.1:"@ =~= "/"@
        + "\n    ProxyPassReverse / http://127.0.0.1:"@);
    let rest = "\n    ProxyPassReverse / http://127.0.0.1:"@ + port + "/\n"@ + logs;
    assert(rest =~= next_conf_tail(p));
    assert(conf =~= head + l1a + websocket_rule(port) + "\n    "@ + root_proxy(port) + rest);
}

proof fn next_conf_routes(p: VhostProject)
    requires
        p.project_type == ProjectType::NextJs,
    ensures
        exists|h: int, i: int, j: int|
            h < i < j && occurs_at(spec_vhost_conf(p), rewrite_engine_on(), h) && occurs_at(
                spec_vhost_conf(p),
                websocket_rule(decimal(p.port as nat)),
                i,
            ) && occurs_at(spec_vhost_conf(p), root_proxy(decimal(p.port as nat)), j),
{
    let conf = spec_vhost_conf(p);
    let port = decimal(p.port as nat);
    let head = vhost_head(p);
    let a0 = "\n    ProxyPreserveHost On\n    ProxyRequests Off"@;
    let a2 = "    RewriteCond %{HTTP:Upgrade} =websocket [NC]\n    "@;
    let mid = "\n    "@;
    let ws = websocket_rule(port);
    let rp = root_proxy(port);
    let tail = next_conf_tail(p);
    next_conf_layout(p);
    lemma_next_head_turns_engine_on();
    assert(conf =~= (head + a0) + rewrite_engine_on() + (a2 + ws + mid + rp + tail));
    lemma_occurs_after(head + a0, rewrite_engine_on(), a2 + ws + mid + rp + tail);
    assert(conf =~= (head + a0 + rewrite_engine_on() + a2) + ws + (mid + rp + tail));
    lemma_occurs_after(head + a0 + rewrite_engine_on() + a2, ws, mid + rp + tail);
    assert(conf =~= (head + a0 + rewrite_engine_on() + a2 + ws + mid) + rp + tail);
    lemma_occurs_after(head + a0 + rewrite_engine_on() + a2 + ws + mid, rp, tail);
    let h = (head.len() + a0.len()) as int;
    let i = (head.len() + a0.len() + rewrite_engine_on().len() + a2.len()) as int;
    let j = i + ws.len() + mid.len();
    assert(rewrite_engine_on().len() > 0) by {
        reveal_strlit("\n    RewriteEngine On\n");
    }
    assert(ws.len() > 0) by {
        reveal_strlit("RewriteRule ^/?(.*) ws://127.0.0.1:");
    }
    assert(h < i < j);
}

proof fn python_conf_routes(p: VhostProject)
    requires
        p.project_type == ProjectType::Python,
    ensures
        contains_text(spec_vhost_conf(p), root_proxy(decimal(p.port as nat))),
{
    let conf = spec_vhost_conf(p);
    let port = decimal(p.port as nat);
    let logs = "    ErrorLog ${APACHE_LOG_DIR}/"@ + p.id@ + ".error.log\n    CustomLog ${APACHE_LOG_DIR}/"@
        + p.id@ + ".access.log combined\n</VirtualHost>\n"@;
    let head = "<VirtualHost *:80>\n    ServerName "@ + p.domain@;
    reveal_strlit("ProxyPass / http://127.0.0.1:");
    reveal_strlit("/");
    reveal_strlit("\n    ProxyPreserveHost On\n    ProxyPass / http://127.0.0.1:");
    reveal_strlit("\n    ProxyPreserveHost On\n    ");
    reveal_strlit("/\n    ProxyPassReverse / http://127.0.0.1:");
    reveal_strlit("\n    ProxyPassReverse / http://127.0.0.1:");
    assert("\n    ProxyPreserveHost On\n    ProxyPass / http://127.0.0.1:"@
        =~= "\n    ProxyPreserveHost On\n    "@ + "ProxyPass / http://127.0.0.1:"@);
    assert("/\n    ProxyPassReverse / http://127.0.0.1:"@ =~= "/"@
        + "\n    ProxyPassReverse / http://127.0.0.1:"@);
    let pre = head + "\n    ProxyPreserveHost On\n    "@;
    let rest = "\n    ProxyPassReverse / http://127.0.0.1:"@ + port + "/\n"@ + logs;
    assert(conf =~= pre + root_proxy(port) + rest);
    let j = pre.len() as int;
    assert(conf.subrange(j, j + root_proxy(port).len()) =~= root_proxy(port));
    assert(occurs_at(conf, root_proxy(port), j));
}

proof fn php_conf_routes(p: VhostProject)
    requires
        p.project_type == ProjectType::Php,
    ensures
        contains_text(spec_vhost_conf(p), "DocumentRoot "@ + p.spec_work_dir() + "\n"@),
{
    let conf = spec_vhost_conf(p);
    let logs = "    ErrorLog ${APACHE_LOG_DIR}/"@ + p.id@ + ".error.log\n    CustomLog ${APACHE_LOG_DIR}/"@
        + p.id@ + ".access.log combined\n</VirtualHost>\n"@;
    let head = "<VirtualHost *:80>\n    ServerName "@ + p.domain@;
    reveal_strlit("\n");
    reveal_strlit("\n    ");
    reveal_strlit("\n    DocumentRoot ");
    reveal_strlit("DocumentRoot ");
    reveal_strlit("\n    <Directory ");
    reveal_strlit("    <Directory ");
    assert("\n    DocumentRoot "@ =~= "\n    "@ + "DocumentRoot "@);
    assert("\n    <Directory "@ =~= "\n"@ + "    <Directory "@);
    let pre = head + "\n    "@;
    let doc = "DocumentRoot "@ + p.spec_work_dir() + "\n"@;
    let rest = "    <Directory "@ + p.spec_work_dir()
        + ">\n        AllowOverride All\n        Require all granted\n    </Directory>\n"@ + logs;
    assert(conf =~= pre + doc + rest);
    let j = pre.len() as int;
    assert(conf.subrange(j, j + doc.len()) =~= doc);
    assert(occurs_at(conf, doc, j));
}

/// A Next.js vhost turns the rewrite engine on and then sends websocket upgrades
/// to the dev server before the root proxy (Apache applies the first that
/// matches), a Python vhost proxies to its dev server, and a PHP vhost serves
/// the working directory.
pub proof fn vhost_conf_routes(p: VhostProject)
    ensures
        ({
            let conf = spec_vhost_conf(p);
            let port = decimal(p.port as nat);
            &&& p.project_type == ProjectType::NextJs ==> exists|h: int, i: int, j: int|
                h < i < j && occurs_at(conf, rewrite_engine_on(), h) && occurs_at(
                    conf,
                    websocket_rule(port),
                    i,
                ) && occurs_at(conf, root_proxy(port), j)
            &&& p.project_type == ProjectType::Python ==> contains_text(conf, root_proxy(port))
            &&& p.project_type == ProjectType::Php ==> contains_text(
                conf,
                "DocumentRoot "@ + p.spec_work_dir() + "\n"@,
            )
        }),
{
    match p.project_type {
        ProjectType::NextJs => next_conf_routes(p),
        ProjectType::Python => python_conf_routes(p),
        ProjectType::Php => php_conf_routes(p),
    }
}

} // verus!
