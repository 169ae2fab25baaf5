//! Installing a project's dependencies: which package manager and installer
//! to run, and what to report from the installer's output.
use vstd::prelude::*;
use vstd::string::*;
use crate::text::{
    chars_of, contains, contains_text, is_ascii_alpha, is_ascii_alphabetic, is_ascii_lower,
    is_ascii_lowercase, join, join_strings, lines, lines_of, lowercase_of, push_char,
    string_from_range, strip_end, strip_trailing, to_lowercase, trim, trim_ws, views, CharClass,
    opt_view, same_text, decimal, decimal_string, words, words_of, occurs_at, starts_with, ends_with,
};
use crate::log::{spec_tail_lines, tail_lines};
use crate::vhost::{ProjectType, VhostProject};

verus! {

broadcast use vstd::string::group_string_axioms;

/// Text with terminal escape sequences (`ESC` up to and including the next ASCII
/// letter) removed.
pub open spec fn spec_strip_ansi(s: Seq<char>) -> Seq<char>
    decreases s.len(), 1int,
{
    if s.len() == 0 {
        seq![]
    } else if s[0] == '\u{1b}' {
        skip_escape(s.drop_first())
    } else {
        seq![s[0]] + spec_strip_ansi(s.drop_first())
    }
}

/// The rest of a text read from inside an escape sequence.
pub open spec fn skip_escape(s: Seq<char>) -> Seq<char>
    decreases s.len(), 0int,
{
    if s.len() == 0 {
        seq![]
    } else if is_ascii_alpha(s[0]) {
        spec_strip_ansi(s.drop_first())
    } else {
        skip_escape(s.drop_first())
    }
}

/// Removes terminal color escape sequences (package manager output carries them).
pub fn strip_ansi(s: &str) -> (r: String)
    ensures
        r@ == spec_strip_ansi(s@),
{
    let v = chars_of(s);
    let mut out = String::new();
    let mut in_escape = false;
    let mut i: usize = 0;
    assert(s@.skip(0) =~= s@);
    while i < v.len()
        invariant
            v@ == s@,
            i <= v.len(),
            out@ + (if in_escape {
                skip_escape(s@.skip(i as int))
            } else {
                spec_strip_ansi(s@.skip(i as int))
            }) == spec_strip_ansi(s@),
        decreases v.len() - i,
    {
        let c = v[i];
        let ghost pre = out@;
        let ghost rest = s@.skip(i as int);
        assert(rest.drop_first() =~= s@.skip(i + 1));
        if in_escape {
            if is_ascii_alphabetic(c) {
                in_escape = false;
            }
        } else if c == '\u{1b}' {
            in_escape = true;
        } else {
            push_char(&mut out, c);
            assert(pre + spec_strip_ansi(rest) =~= out@ + spec_strip_ansi(s@.skip(i + 1)));
        }
        i += 1;
    }
    assert(s@.skip(i as int) =~= Seq::<char>::empty());
    assert(out@ + Seq::<char>::empty() =~= out@);
    out
}

/// The installer's line that announces skipped build scripts (already lowercased).
pub open spec fn mentions_ignored_builds(lowered: Seq<char>) -> bool {
    contains_text(lowered, "ignored build scripts"@) || contains_text(
        lowered,
        "build scripts were ignored"@,
    )
}

fn mentions_ignored(lowered: &str) -> (r: bool)
    ensures
        r == mentions_ignored_builds(lowered@),
{
    contains(lowered, "ignored build scripts") || contains(lowered, "build scripts were ignored")
}

/// The pieces of a line cut at every `,` and `:` (as `str::split` gives them,
/// empty pieces included), `cur` being the piece read so far.
pub open spec fn pieces_from(s: Seq<char>, cur: Seq<char>) -> Seq<Seq<char>>
    decreases s.len(),
{
    if s.len() == 0 {
        seq![cur]
    } else if s[0] == ',' || s[0] == ':' {
        seq![cur] + pieces_from(s.drop_first(), seq![])
    } else {
        pieces_from(s.drop_first(), cur.push(s[0]))
    }
}

/// A piece trimmed of whitespace and of trailing dots.
pub open spec fn clean_piece(p: Seq<char>) -> Seq<char> {
    strip_trailing(trim(p), CharClass::Exactly('.'))
}

/// Bytes that UTF-8 takes for one character.
pub open spec fn utf8_width(c: char) -> nat {
    if (c as u32) < 0x80 {
        1
    } else if (c as u32) < 0x800 {
        2
    } else if (c as u32) < 0x10000 {
        3
    } else {
        4
    }
}

/// Bytes that UTF-8 takes for a text (`str::len`).
pub open spec fn utf8_len(s: Seq<char>) -> nat
    decreases s.len(),
{
    if s.len() == 0 {
        0
    } else {
        utf8_width(s[0]) + utf8_len(s.drop_first())
    }
}

fn char_width(c: char) -> (w: usize)
    ensures
        w == utf8_width(c),
{
    let x = c as u32;
    if x < 0x80 {
        1
    } else if x < 0x800 {
        2
    } else if x < 0x10000 {
        3
    } else {
        4
    }
}

/// `utf8_len(v) < limit`.
fn utf8_len_below(v: &Vec<char>, limit: usize) -> (r: bool)
    requires
        0 < limit < 1000,
    ensures
        r == (utf8_len(v@) < limit),
{
    let mut total: usize = 0;
    let mut i: usize = v.len();
    assert(v@.skip(v.len() as int) =~= Seq::<char>::empty());
    while i > 0
        invariant
            i <= v.len(),
            total == utf8_len(v@.skip(i as int)),
            total < limit,
            limit < 1000,
        decreases i,
    {
        assert(v@.skip(i - 1).drop_first() =~= v@.skip(i as int));
        total = total + char_width(v[i - 1]);
        i -= 1;
        if total >= limit {
            proof {
                lemma_utf8_len_prefix(v@, i as int);
            }
            return false;
        }
    }
    assert(v@.skip(0) =~= v@);
    true
}

proof fn lemma_utf8_len_prefix(s: Seq<char>, i: int)
    requires
        0 <= i <= s.len(),
    ensures
        utf8_len(s) >= utf8_len(s.skip(i)),
    decreases i,
{
    if i > 0 {
        assert(s.drop_first().skip(i - 1) =~= s.skip(i));
        lemma_utf8_len_prefix(s.drop_first(), i - 1);
    } else {
        assert(s.skip(0) =~= s);
    }
}

/// A cleaned piece that looks like a package name: starts with `@` or an
/// ASCII lowercase letter, has no space and is under 60 bytes of UTF-8.
pub open spec fn looks_like_package(p: Seq<char>) -> bool {
    &&& p.len() > 0
    &&& (p[0] == '@' || is_ascii_lower(p[0]))
    &&& !p.contains(' ')
    &&& utf8_len(p) < 60
}

/// The package names among `pieces`, in order.
pub open spec fn names_in_pieces(pieces: Seq<Seq<char>>) -> Seq<Seq<char>>
    decreases pieces.len(),
{
    if pieces.len() == 0 {
        seq![]
    } else {
        let c = clean_piece(pieces[0]);
        (if looks_like_package(c) {
            seq![c]
        } else {
            seq![]
        }) + names_in_pieces(pieces.drop_first())
    }
}

/// The package names on `lines`, in order.
pub open spec fn names_in_lines(ls: Seq<Seq<char>>) -> Seq<Seq<char>>
    decreases ls.len(),
{
    if ls.len() == 0 {
        seq![]
    } else {
        names_in_pieces(pieces_from(ls[0], seq![])) + names_in_lines(ls.drop_first())
    }
}

/// `ls` from its first line whose lowercase form (in `lows`) announces skipped
/// build scripts.
pub open spec fn from_announcement(ls: Seq<Seq<char>>, lows: Seq<Seq<char>>) -> Seq<Seq<char>>
    decreases ls.len(),
{
    if ls.len() == 0 || lows.len() == 0 {
        ls
    } else if mentions_ignored_builds(lows[0]) {
        ls
    } else {
        from_announcement(ls.drop_first(), lows.drop_first())
    }
}

/// At most the first `n` elements.
pub open spec fn take_at_most<A>(s: Seq<A>, n: int) -> Seq<A> {
    if s.len() <= n {
        s
    } else {
        s.take(n)
    }
}

/// What to report about skipped build scripts, given the lines of the
/// installer's output, the whole output lowercased and each line lowercased.
pub open spec fn spec_ignored_packages(
    ls: Seq<Seq<char>>,
    lowered_all: Seq<char>,
    lowered_lines: Seq<Seq<char>>,
) -> Option<Seq<char>> {
    if !mentions_ignored_builds(lowered_all) {
        None
    } else {
        let names = names_in_lines(take_at_most(from_announcement(ls, lowered_lines), 4));
        if names.len() == 0 {
            Some("(이름 확인 불가 — 설치 로그를 확인하세요)"@)
        } else {
            Some(join(names, ", "@))
        }
    }
}

fn names_in_piece_list(pieces: &Vec<String>, out: &mut Vec<String>)
    ensures
        views(final(out)@) == views(old(out)@) + names_in_pieces(views(pieces@)),
{
    let mut i: usize = 0;
    assert(views(pieces@).skip(0) =~= views(pieces@));
    assert(views(out@) =~= views(out@) + Seq::<Seq<char>>::empty());
    while i < pieces.len()
        invariant
            i <= pieces.len(),
            views(out@) + names_in_pieces(views(pieces@).skip(i as int)) == views(old(out)@)
                + names_in_pieces(views(pieces@)),
        decreases pieces.len() - i,
    {
        let ghost rest = views(pieces@).skip(i as int);
        let ghost before = views(out@);
        assert(rest.drop_first() =~= views(pieces@).skip(i + 1));
        let t = trim_ws(pieces[i].as_str());
        let c = strip_end(t.as_str(), CharClass::Exactly('.'));
        assert(c@ == clean_piece(rest[0]));
        let cv = chars_of(c.as_str());
        let mut ok: bool = cv.len() > 0 && (cv[0] == '@' || is_ascii_lowercase(cv[0]));
        if ok {
            ok = !has_space(&cv) && utf8_len_below(&cv, 60);
        }
        assert(ok == looks_like_package(c@));
        if ok {
            out.push(c);
            assert(views(out@) =~= before + seq![c@]);
        } else {
            assert(views(out@) =~= before + Seq::<Seq<char>>::empty());
        }
        assert(views(out@) + names_in_pieces(views(pieces@).skip(i + 1)) =~= before
            + names_in_pieces(rest));
        i += 1;
    }
    assert(views(pieces@).skip(i as int) =~= Seq::<Seq<char>>::empty());
    assert(views(out@) + Seq::<Seq<char>>::empty() =~= views(out@));
}

fn has_space(v: &Vec<char>) -> (r: bool)
    ensures
        r == v@.contains(' '),
{
    let mut j: usize = 0;
    while j < v.len()
        invariant
            j <= v.len(),
            forall|k: int| 0 <= k < j ==> v@[k] != ' ',
        decreases v.len() - j,
    {
        if v[j] == ' ' {
            assert(v@[j as int] == ' ');
            return true;
        }
        j += 1;
    }
    false
}

/// The pieces of `line` cut at `,` and `:`.
fn split_pieces(line: &str) -> (out: Vec<String>)
    ensures
        views(out@) == pieces_from(line@, seq![]),
{
    let v = chars_of(line);
    let mut out: Vec<String> = Vec::new();
    let mut start: usize = 0;
    let mut i: usize = 0;
    assert(line@.skip(0) =~= line@);
    assert(v@.subrange(0, 0) =~= Seq::<char>::empty());
    assert(views(out@) =~= Seq::<Seq<char>>::empty());
    while i < v.len()
        invariant
            v@ == line@,
            start <= i <= v.len(),
            views(out@) + pieces_from(line@.skip(i as int), v@.subrange(start as int, i as int))
                == pieces_from(line@, seq![]),
        decreases v.len() - i,
    {
        let ghost rest = line@.skip(i as int);
        let ghost cur = v@.subrange(start as int, i as int);
        let ghost before = views(out@);
        assert(rest.drop_first() =~= line@.skip(i + 1));
        if v[i] == ',' || v[i] == ':' {
            let piece = string_from_range(&v, start, i);
            out.push(piece);
            assert(views(out@) =~= before + seq![cur]);
            assert(v@.subrange(i + 1, i + 1) =~= Seq::<char>::empty());
            assert(views(out@) + pieces_from(line@.skip(i + 1), v@.subrange(i + 1, i + 1))
                =~= before + pieces_from(rest, cur));
            start = i + 1;
        } else {
            assert(v@.subrange(start as int, i + 1) =~= cur.push(v@[i as int]));
        }
        i += 1;
    }
    assert(line@.skip(i as int) =~= Seq::<char>::empty());
    let last = string_from_range(&v, start, i);
    let ghost before = views(out@);
    out.push(last);
    assert(views(out@) =~= before + seq![last@]);
    out
}

/// What to report about skipped build scripts, from the installer output's lines
/// (`ls`), the whole output lowercased and each of its lines lowercased:
/// `None` when the output does not announce skipped build scripts, else the
/// package names found on the announcing line and the three after it, joined
/// with `, ` (a fixed note when none is found).
pub fn ignored_packages(
    ls: &Vec<String>,
    lowered_all: &str,
    lowered_lines: &Vec<String>,
) -> (r: Option<String>)
    requires
        ls.len() == lowered_lines.len(),
    ensures
        r matches Some(s) ==> spec_ignored_packages(views(ls@), lowered_all@, views(lowered_lines@))
            == Some(s@),
        r is None <==> spec_ignored_packages(views(ls@), lowered_all@, views(lowered_lines@))
            is None,
{
    if !mentions_ignored(lowered_all) {
        return None;
    }
    let mut k: usize = 0;
    assert(views(ls@).skip(0) =~= views(ls@));
    assert(views(lowered_lines@).skip(0) =~= views(lowered_lines@));
    while k < ls.len() && !mentions_ignored(lowered_lines[k].as_str())
        invariant
            ls.len() == lowered_lines.len(),
            k <= ls.len(),
            from_announcement(views(ls@), views(lowered_lines@)) == from_announcement(
                views(ls@).skip(k as int),
                views(lowered_lines@).skip(k as int),
            ),
        decreases ls.len() - k,
    {
        assert(views(ls@).skip(k as int).drop_first() =~= views(ls@).skip(k + 1));
        assert(views(lowered_lines@).skip(k as int).drop_first() =~= views(lowered_lines@).skip(
            k + 1,
        ));
        k += 1;
    }
    let ghost window_all = views(ls@).skip(k as int);
    assert(from_announcement(views(ls@), views(lowered_lines@)) == window_all);
    let end = if ls.len() - k <= 4 {
        ls.len()
    } else {
        k + 4
    };
    let ghost window = take_at_most(window_all, 4);
    assert(window =~= views(ls@).subrange(k as int, end as int));
    let mut names: Vec<String> = Vec::new();
    let mut li = k;
    assert(views(ls@).subrange(k as int, end as int).skip(0) =~= window);
    assert(views(names@) =~= Seq::<Seq<char>>::empty());
    while li < end
        invariant
            k <= li <= end <= ls.len(),
            window == views(ls@).subrange(k as int, end as int),
            views(names@) + names_in_lines(views(ls@).subrange(li as int, end as int))
                == names_in_lines(window),
        decreases end - li,
    {
        let ghost rest = views(ls@).subrange(li as int, end as int);
        let ghost before = views(names@);
        assert(rest.drop_first() =~= views(ls@).subrange(li + 1, end as int));
        let pieces = split_pieces(ls[li].as_str());
        names_in_piece_list(&pieces, &mut names);
        assert(views(names@) + names_in_lines(views(ls@).subrange(li + 1, end as int))
            =~= before + names_in_lines(rest));
        li += 1;
    }
    assert(views(ls@).subrange(li as int, end as int) =~= Seq::<Seq<char>>::empty());
    assert(views(names@) + Seq::<Seq<char>>::empty() =~= views(names@));
    if names.len() == 0 {
        Some(String::from_str("(이름 확인 불가 — 설치 로그를 확인하세요)"))
    } else {
        Some(join_strings(&names, ", "))
    }
}

/// What `ignored_build_scripts` reports for an installer's output.
pub open spec fn spec_ignored_build_scripts(output: Seq<char>) -> Option<Seq<char>> {
    let plain = spec_strip_ansi(output);
    let ls = lines(plain);
    spec_ignored_packages(ls, lowercase_of(plain), ls.map_values(|l: Seq<char>| lowercase_of(l)))
}

/// Packages whose build scripts the installer skipped, read from its output:
/// the output with escape sequences removed is what `ignored_packages` reads,
/// lowercased through `to_lowercase` (whole and line by line).
pub fn ignored_build_scripts(output: &str) -> (r: Option<String>)
    ensures
        opt_view(r) == spec_ignored_build_scripts(output@),
{
    let plain = strip_ansi(output);
    let lowered_all = to_lowercase(plain.as_str());
    let ls = lines_of(plain.as_str());
    let mut lowered: Vec<String> = Vec::new();
    let mut i: usize = 0;
    while i < ls.len()
        invariant
            i <= ls.len(),
            lowered.len() == i,
            forall|j: int| 0 <= j < i ==> lowered@[j]@ == lowercase_of(ls@[j]@),
        decreases ls.len() - i,
    {
        lowered.push(to_lowercase(ls[i].as_str()));
        i += 1;
    }
    assert(views(lowered@) =~= views(ls@).map_values(|l: Seq<char>| lowercase_of(l)));
    ignored_packages(&ls, lowered_all.as_str(), &lowered)
}

} // verus!

verus! {

/// The package manager a Node project uses, told by its lockfile: `pnpm-lock.yaml`,
/// `yarn.lock`, `bun.lockb` or `bun.lock`, else `npm`.
pub fn detect_package_manager(pnpm_lock: bool, yarn_lock: bool, bun_lockb: bool, bun_lock: bool) -> (r:
    &'static str)
    ensures
        r@ == (if pnpm_lock {
            "pnpm"@
        } else if yarn_lock {
            "yarn"@
        } else if bun_lockb || bun_lock {
            "bun"@
        } else {
            "npm"@
        }),
{
    if pnpm_lock {
        "pnpm"
    } else if yarn_lock {
        "yarn"
    } else if bun_lockb || bun_lock {
        "bun"
    } else {
        "npm"
    }
}

/// The program and arguments that install a Node project's dependencies: the
/// package manager itself when it is `npm` or installed, else through
/// `corepack` when that is installed, else `npm`.
pub open spec fn spec_installer(pm: Seq<char>, pm_available: bool, corepack_available: bool) -> (
    Seq<char>,
    Seq<Seq<char>>,
) {
    if pm == "npm"@ || pm_available {
        (pm, seq!["install"@])
    } else if corepack_available {
        ("corepack"@, seq![pm, "install"@])
    } else {
        ("npm"@, seq!["install"@])
    }
}

pub fn node_installer(pm: &str, pm_available: bool, corepack_available: bool) -> (r: (
    String,
    Vec<String>,
))
    ensures
        (r.0@, views(r.1@)) == spec_installer(pm@, pm_available, corepack_available),
{
    let mut args: Vec<String> = Vec::new();
    let program = if same_text(pm, "npm") || pm_available {
        String::from_str(pm)
    } else if corepack_available {
        args.push(String::from_str(pm));
        String::from_str("corepack")
    } else {
        String::from_str("npm")
    };
    args.push(String::from_str("install"));
    proof {
        let s = spec_installer(pm@, pm_available, corepack_available);
        assert(views(args@) =~= s.1);
    }
    (program, args)
}

/// What to tell when a Node project has no `package.json` in its directory.
pub fn missing_manifest_message(dir: &str) -> (r: String)
    ensures
        r@ == "package.json이 없습니다: "@ + dir@ + "\n하위 디렉토리 설정을 확인하세요."@,
{
    let mut s = String::from_str("package.json이 없습니다: ");
    s.append(dir);
    s.append("\n하위 디렉토리 설정을 확인하세요.");
    s
}

/// The report of a dependency install: on failure the last 15 lines of the
/// installer's error output; on success which installer ran (`corepack <pm>`
/// when through corepack), with a warning naming the packages whose build
/// scripts were skipped (read from standard output followed by error output).
pub open spec fn spec_install_report(
    program: Seq<char>,
    pm: Seq<char>,
    success: bool,
    stdout: Seq<char>,
    stderr: Seq<char>,
) -> Result<Seq<char>, Seq<char>> {
    if !success {
        Err("의존성 설치 실패 ("@ + program + "):\n"@ + spec_tail_lines(stderr, 15))
    } else {
        let via = if program == "corepack"@ {
            "corepack "@ + pm
        } else {
            program
        };
        match spec_ignored_build_scripts(stdout + stderr) {
            Some(pkgs) => Ok(
                "의존성 설치 완료 ("@ + via + ") — 다만 빌드 스크립트가 차단된 패키지가 있습니다: "@ + pkgs
                    + "\npostinstall로 코드를 받아오는 패키지면 import가 실패합니다. 해당 폴더에서 `pnpm approve-builds` 실행 후 다시 설치하세요."@,
            ),
            None => Ok("의존성 설치 완료 ("@ + via + ")"@),
        }
    }
}

pub open spec fn result_view(r: Result<String, String>) -> Result<Seq<char>, Seq<char>> {
    match r {
        Ok(s) => Ok(s@),
        Err(e) => Err(e@),
    }
}

pub fn node_install_report(
    program: &str,
    pm: &str,
    success: bool,
    stdout: &str,
    stderr: &str,
) -> (r: Result<String, String>)
    ensures
        result_view(r) == spec_install_report(program@, pm@, success, stdout@, stderr@),
{
    if !success {
        let mut s = String::from_str("의존성 설치 실패 (");
        s.append(program);
        s.append("):\n");
        let t = tail_lines(stderr, 15);
        s.append(t.as_str());
        return Err(s);
    }
    let via = if same_text(program, "corepack") {
        let mut v = String::from_str("corepack ");
        v.append(pm);
        v
    } else {
        String::from_str(program)
    };
    let mut out = String::from_str(stdout);
    out.append(stderr);
    let mut s = String::from_str("의존성 설치 완료 (");
    s.append(via.as_str());
    match ignored_build_scripts(out.as_str()) {
        Some(pkgs) => {
            s.append(") — 다만 빌드 스크립트가 차단된 패키지가 있습니다: ");
            s.append(pkgs.as_str());
            s.append(
                "\npostinstall로 코드를 받아오는 패키지면 import가 실패합니다. 해당 폴더에서 `pnpm approve-builds` 실행 후 다시 설치하세요.",
            );
        },
        None => {
            s.append(")");
        },
    }
    Ok(s)
}

/// What installing a project's dependencies takes.
#[derive(Debug, Clone)]
pub enum SetupStep {
    /// Python: a virtualenv with the project's requirements.
    CreateVenv,
    /// Next.js: `node_modules` through the project's package manager.
    InstallNodeModules,
    /// Nothing to install; the report to give.
    Done(String),
}

/// The dependency installation a project's type calls for.
pub fn setup_project(project: &VhostProject) -> (r: SetupStep)
    ensures
        match project.project_type {
            ProjectType::Python => r is CreateVenv,
            ProjectType::NextJs => r is InstallNodeModules,
            ProjectType::Php => r matches SetupStep::Done(m) && m@
                == "PHP 프로젝트는 설치할 의존성이 없습니다."@,
        },
{
    match project.project_type {
        ProjectType::Python => SetupStep::CreateVenv,
        ProjectType::NextJs => SetupStep::InstallNodeModules,
        ProjectType::Php => SetupStep::Done(String::from_str("PHP 프로젝트는 설치할 의존성이 없습니다.")),
    }
}

/// The path whose existence shows a project's dependencies installed: the
/// virtualenv's interpreter for Python, `node_modules` for Next.js; none for PHP.
pub fn deps_marker(project: &VhostProject) -> (r: Option<String>)
    ensures
        opt_view(r) == match project.project_type {
            ProjectType::Python => Some(project.spec_work_dir() + "/venv/bin/python3"@),
            ProjectType::NextJs => Some(project.spec_work_dir() + "/node_modules"@),
            ProjectType::Php => None,
        },
{
    match project.project_type {
        ProjectType::Python => {
            let mut d = project.work_dir();
            d.append("/venv/bin/python3");
            Some(d)
        },
        ProjectType::NextJs => {
            let mut d = project.work_dir();
            d.append("/node_modules");
            Some(d)
        },
        ProjectType::Php => None,
    }
}

/// Dependencies are in place: always for PHP, else when the marker of
/// `deps_marker` exists (`marker_exists`).
pub fn deps_ready(project: &VhostProject, marker_exists: bool) -> (r: bool)
    ensures
        r == (project.project_type == ProjectType::Php || marker_exists),
{
    match project.project_type {
        ProjectType::Php => true,
        _ => marker_exists,
    }
}

/// Number of entry files a Python project is recognised by.
pub const START_ENTRIES: usize = 7;

/// The entry files a Python project's start command is chosen by, in order.
pub open spec fn spec_start_entry(i: int) -> Seq<char> {
    if i == 0 {
        "run_server.py"@
    } else if i == 1 {
        "manage.py"@
    } else if i == 2 {
        "app.py"@
    } else if i == 3 {
        "main.py"@
    } else if i == 4 {
        "server.py"@
    } else if i == 5 {
        "wsgi.py"@
    } else {
        "asgi.py"@
    }
}

pub fn start_entry_file(i: usize) -> (r: &'static str)
    requires
        i < START_ENTRIES,
    ensures
        r@ == spec_start_entry(i as int),
{
    if i == 0 {
        "run_server.py"
    } else if i == 1 {
        "manage.py"
    } else if i == 2 {
        "app.py"
    } else if i == 3 {
        "main.py"
    } else if i == 4 {
        "server.py"
    } else if i == 5 {
        "wsgi.py"
    } else {
        "asgi.py"
    }
}

/// The start command that goes with entry file `i`.
pub open spec fn spec_start_command(i: int, port: u16) -> Seq<char> {
    let p = decimal(port as nat);
    if i == 0 {
        "venv/bin/python3 run_server.py "@ + p
    } else if i == 1 {
        "venv/bin/python3 manage.py runserver 0.0.0.0:"@ + p
    } else if i == 2 {
        "venv/bin/python3 app.py"@
    } else if i == 3 {
        "venv/bin/python3 main.py"@
    } else if i == 4 {
        "venv/bin/python3 server.py"@
    } else if i == 5 {
        "venv/bin/python3 -m uvicorn wsgi:app --host 0.0.0.0 --port "@ + p
    } else {
        "venv/bin/python3 -m uvicorn asgi:app --host 0.0.0.0 --port "@ + p
    }
}

fn start_command_for(i: usize, port: u16) -> (r: String)
    requires
        i < START_ENTRIES,
    ensures
        r@ == spec_start_command(i as int, port),
{
    if i == 2 {
        return String::from_str("venv/bin/python3 app.py");
    } else if i == 3 {
        return String::from_str("venv/bin/python3 main.py");
    } else if i == 4 {
        return String::from_str("venv/bin/python3 server.py");
    }
    let mut s = if i == 0 {
        String::from_str("venv/bin/python3 run_server.py ")
    } else if i == 1 {
        String::from_str("venv/bin/python3 manage.py runserver 0.0.0.0:")
    } else if i == 5 {
        String::from_str("venv/bin/python3 -m uvicorn wsgi:app --host 0.0.0.0 --port ")
    } else {
        String::from_str("venv/bin/python3 -m uvicorn asgi:app --host 0.0.0.0 --port ")
    };
    let p = decimal_string(port as u64);
    s.append(p.as_str());
    s
}

/// The start command of a Python project, from which of its entry files exist
/// (`present[i]` for `start_entry_file(i)`): that of the first present one, else
/// `venv/bin/python3 app.py`.
pub fn auto_detect_start_command(present: &Vec<bool>, port: u16) -> (r: String)
    requires
        present.len() == START_ENTRIES,
    ensures
        (exists|i: int| 0 <= i < START_ENTRIES && present@[i]) ==> exists|i: int|
            {
                &&& 0 <= i < START_ENTRIES
                &&& present@[i]
                &&& forall|j: int| 0 <= j < i ==> !#[trigger] present@[j]
                &&& r@ == spec_start_command(i, port)
            },
        !(exists|i: int| 0 <= i < START_ENTRIES && present@[i]) ==> r@
            == "venv/bin/python3 app.py"@,
{
    let mut i: usize = 0;
    while i < START_ENTRIES
        invariant
            i <= START_ENTRIES,
            present.len() == START_ENTRIES,
            forall|j: int| 0 <= j < i ==> !#[trigger] present@[j],
        decreases START_ENTRIES - i,
    {
        if present[i] {
            return start_command_for(i, port);
        }
        i += 1;
    }
    String::from_str("venv/bin/python3 app.py")
}

/// Where a project's own Next.js binary is installed.
pub fn next_binary_path(dir: &str) -> (r: String)
    ensures
        r@ == dir@ + "/node_modules/.bin/next"@,
{
    let mut s = String::from_str(dir);
    s.append("/node_modules/.bin/next");
    s
}

/// The Next.js dev server command with an explicit port: the installed binary
/// when the directory is known and has it (`local_binary`), else through `npx`.
pub fn auto_detect_next_command(dir: &str, local_binary: bool, port: u16) -> (r: String)
    ensures
        r@ == (if dir@.len() > 0 && local_binary {
            "node_modules/.bin/next dev --port "@
        } else {
            "npx next dev --port "@
        }) + decimal(port as nat),
{
    let mut s = if !dir.is_empty() && local_binary {
        String::from_str("node_modules/.bin/next dev --port ")
    } else {
        String::from_str("npx next dev --port ")
    };
    let p = decimal_string(port as u64);
    s.append(p.as_str());
    s
}

/// Why a project's dev server cannot start: its directory is missing, or it is
/// PHP (Apache serves it).
pub fn start_refusal(project: &VhostProject, dir_exists: bool) -> (r: Option<String>)
    ensures
        opt_view(r) == (if !dir_exists {
            Some("디렉토리가 없습니다: "@ + project.spec_work_dir())
        } else if project.project_type == ProjectType::Php {
            Some("PHP 프로젝트는 Apache가 직접 서빙하므로 dev server가 없습니다."@)
        } else {
            None
        }),
{
    if !dir_exists {
        let mut s = String::from_str("디렉토리가 없습니다: ");
        let d = project.work_dir();
        s.append(d.as_str());
        Some(s)
    } else if project.project_type == ProjectType::Php {
        Some(String::from_str("PHP 프로젝트는 Apache가 직접 서빙하므로 dev server가 없습니다."))
    } else {
        None
    }
}

/// Where the dev server command comes from.
#[derive(Debug, Clone, Copy, PartialEq, Eq, Structural)]
pub enum CommandSource {
    /// The project's own `start_command`.
    Configured,
    /// Detected for Next.js (`auto_detect_next_command`).
    DetectNext,
    /// Detected from Python entry files (`auto_detect_start_command`).
    DetectPython,
}

pub fn command_source(project: &VhostProject) -> (r: CommandSource)
    ensures
        r == (if project.start_command@.len() > 0 {
            CommandSource::Configured
        } else if project.project_type == ProjectType::NextJs {
            CommandSource::DetectNext
        } else {
            CommandSource::DetectPython
        }),
{
    if !project.start_command.as_str().is_empty() {
        CommandSource::Configured
    } else if project.project_type == ProjectType::NextJs {
        CommandSource::DetectNext
    } else {
        CommandSource::DetectPython
    }
}

/// The words of the command to run (the configured one, else `detected`); an
/// error when there are none.
pub fn server_command(project: &VhostProject, detected: &str) -> (r: Result<Vec<String>, String>)
    ensures
        ({
            let cmd = if project.start_command@.len() > 0 {
                project.start_command@
            } else {
                detected@
            };
            match r {
                Ok(parts) => words(cmd).len() > 0 && views(parts@) == words(cmd),
                Err(e) => words(cmd).len() == 0 && e@ == "실행 명령어가 올바르지 않습니다."@,
            }
        }),
{
    let parts = if !project.start_command.as_str().is_empty() {
        words_of(project.start_command.as_str())
    } else {
        words_of(detected)
    };
    if parts.len() == 0 {
        Err(String::from_str("실행 명령어가 올바르지 않습니다."))
    } else {
        Ok(parts)
    }
}

/// Arguments of `kill` that end a dev server's whole process group (`--` keeps
/// the negative group id from being read as an option).
pub fn kill_group_args(pid: u32) -> (r: Vec<String>)
    ensures
        views(r@) == seq!["-TERM"@, "--"@, "-"@ + decimal(pid as nat)],
{
    let mut v: Vec<String> = Vec::new();
    v.push(String::from_str("-TERM"));
    v.push(String::from_str("--"));
    let mut g = String::from_str("-");
    let p = decimal_string(pid as u64);
    g.append(p.as_str());
    v.push(g);
    assert(views(v@) =~= seq!["-TERM"@, "--"@, "-"@ + decimal(pid as nat)]);
    v
}

} // verus!

verus! {

/// Text cleaned of escape sequences holds no escape character.
pub proof fn stripped_text_has_no_escape(s: Seq<char>)
    ensures
        !spec_strip_ansi(s).contains('\u{1b}'),
        !skip_escape(s).contains('\u{1b}'),
    decreases s.len(),
{
    if s.len() > 0 {
        stripped_text_has_no_escape(s.drop_first());
        if s[0] != '\u{1b}' {
            let rest = spec_strip_ansi(s.drop_first());
            assert forall|i: int| 0 <= i < (seq![s[0]] + rest).len() implies (seq![s[0]]
                + rest)[i] != '\u{1b}' by {
                if i > 0 {
                    assert((seq![s[0]] + rest)[i] == rest[i - 1]);
                }
            }
        }
    }
}


/// A start command runs entry file `entry`: it names the file, or (for an
/// ASGI/WSGI server) the file's module followed by `:app`.
pub open spec fn runs_entry(cmd: Seq<char>, entry: Seq<char>) -> bool {
    contains_text(cmd, entry) || contains_text(cmd, entry.take(entry.len() - 3) + ":app"@)
}

/// The start command that goes with entry file `i` runs that very file with the
/// project's virtualenv Python, and the commands that take a port end with it.
pub proof fn start_command_runs_its_entry(i: int, port: u16)
    requires
        0 <= i < START_ENTRIES,
    ensures
        starts_with(spec_start_command(i, port), "venv/bin/python3 "@),
        runs_entry(spec_start_command(i, port), spec_start_entry(i)),
        (i == 0 || i == 1 || i == 5 || i == 6) ==> ends_with(
            spec_start_command(i, port),
            decimal(port as nat),
        ),
{
    let p = decimal(port as nat);
    let cmd = spec_start_command(i, port);
    let e = spec_start_entry(i);
    reveal_strlit("venv/bin/python3 ");
    reveal_strlit(":app");
    if i == 0 {
        reveal_strlit("venv/bin/python3 run_server.py ");
        reveal_strlit("run_server.py");
        assert(cmd.subrange(0, 17) =~= "venv/bin/python3 "@);
        assert(cmd.subrange(17, 30) =~= e);
        assert(occurs_at(cmd, e, 17));
        assert(cmd.subrange(cmd.len() - p.len(), cmd.len() as int) =~= p);
    } else if i == 1 {
        reveal_strlit("venv/bin/python3 manage.py runserver 0.0.0.0:");
        reveal_strlit("manage.py");
        assert(cmd.subrange(0, 17) =~= "venv/bin/python3 "@);
        assert(cmd.subrange(17, 26) =~= e);
        assert(occurs_at(cmd, e, 17));
        assert(cmd.subrange(cmd.len() - p.len(), cmd.len() as int) =~= p);
    } else if i == 2 {
        reveal_strlit("venv/bin/python3 app.py");
        reveal_strlit("app.py");
        assert(cmd.subrange(0, 17) =~= "venv/bin/python3 "@);
        assert(cmd.subrange(17, 23) =~= e);
        assert(occurs_at(cmd, e, 17));
    } else if i == 3 {
        reveal_strlit("venv/bin/python3 main.py");
        reveal_strlit("main.py");
        assert(cmd.subrange(0, 17) =~= "venv/bin/python3 "@);
        assert(cmd.subrange(17, 24) =~= e);
        assert(occurs_at(cmd, e, 17));
    } else if i == 4 {
        reveal_strlit("venv/bin/python3 server.py");
        reveal_strlit("server.py");
        assert(cmd.subrange(0, 17) =~= "venv/bin/python3 "@);
        assert(cmd.subrange(17, 26) =~= e);
        assert(occurs_at(cmd, e, 17));
    } else if i == 5 {
        reveal_strlit("venv/bin/python3 -m uvicorn wsgi:app --host 0.0.0.0 --port ");
        reveal_strlit("wsgi.py");
        let m = e.take(e.len() - 3) + ":app"@;
        assert(cmd.subrange(0, 17) =~= "venv/bin/python3 "@);
        assert(cmd.subrange(28, 36) =~= m);
        assert(occurs_at(cmd, m, 28));
        assert(cmd.subrange(cmd.len() - p.len(), cmd.len() as int) =~= p);
    } else {
        reveal_strlit("venv/bin/python3 -m uvicorn asgi:app --host 0.0.0.0 --port ");
        reveal_strlit("asgi.py");
        let m = e.take(e.len() - 3) + ":app"@;
        assert(cmd.subrange(0, 17) =~= "venv/bin/python3 "@);
        assert(cmd.subrange(28, 36) =~= m);
        assert(occurs_at(cmd, m, 28));
        assert(cmd.subrange(cmd.len() - p.len(), cmd.len() as int) =~= p);
    }
}

} // verus!
