//! Per-project Apache error logs.
use vstd::prelude::*;
use vstd::string::*;
use crate::text::{decimal, decimal_string, join, join_strings, lines, lines_of, trim, trim_ws, views};

verus! {

broadcast use vstd::string::group_string_axioms;

/// The error log of a project, as its vhost's `ErrorLog ${APACHE_LOG_DIR}/{id}.error.log` names it.
pub fn error_log_path(id: &str) -> (r: String)
    ensures
        r@ == "/var/log/apache2/"@ + id@ + ".error.log"@,
{
    let mut s = String::from_str("/var/log/apache2/");
    s.append(id);
    s.append(".error.log");
    s
}

/// The last `n` lines of a text, joined by `\n`.
pub open spec fn spec_tail_lines(s: Seq<char>, n: nat) -> Seq<char> {
    let ls = lines(s);
    join(
        if ls.len() <= n {
            ls
        } else {
            ls.skip(ls.len() - n)
        },
        "\n"@,
    )
}

/// Keeps the last `n` lines of a text.
pub fn tail_lines(s: &str, n: usize) -> (r: String)
    ensures
        r@ == spec_tail_lines(s@, n as nat),
{
    let ls = lines_of(s);
    let start = if ls.len() <= n {
        0
    } else {
        ls.len() - n
    };
    let mut kept: Vec<String> = Vec::new();
    let mut i = start;
    while i < ls.len()
        invariant
            start <= i <= ls.len(),
            views(kept@) == views(ls@).subrange(start as int, i as int),
        decreases ls.len() - i,
    {
        let ghost before = views(kept@);
        kept.push(ls[i].clone());
        assert(views(kept@) =~= before.push(ls@[i as int]@));
        assert(views(kept@) =~= views(ls@).subrange(start as int, i + 1));
        i += 1;
    }
    assert(views(kept@) =~= if views(ls@).len() <= n {
        views(ls@)
    } else {
        views(ls@).skip(views(ls@).len() - n)
    });
    join_strings(&kept, "\n")
}

/// What to tell when the log file does not exist yet.
pub fn missing_log_message(path: &str) -> (r: String)
    ensures
        r@ == "로그 파일이 아직 없습니다:\n"@ + path@
            + "\n\n(프로젝트를 한 번 '수정 → 저장'하면 vhost에 전용 ErrorLog가 추가됩니다.)"@,
{
    let mut s = String::from_str("로그 파일이 아직 없습니다:\n");
    s.append(path);
    s.append("\n\n(프로젝트를 한 번 '수정 → 저장'하면 vhost에 전용 ErrorLog가 추가됩니다.)");
    s
}

/// Arguments of `sudo` that read the last lines of a log without a password prompt.
pub fn sudo_tail_args(path: &str, max_lines: usize) -> (r: Vec<String>)
    ensures
        views(r@) == seq!["-n"@, "tail"@, "-n"@, decimal(max_lines as nat), path@],
{
    let mut v: Vec<String> = Vec::new();
    v.push(String::from_str("-n"));
    v.push(String::from_str("tail"));
    v.push(String::from_str("-n"));
    v.push(decimal_string(max_lines as u64));
    v.push(String::from_str(path));
    assert(views(v@) =~= seq!["-n"@, "tail"@, "-n"@, decimal(max_lines as nat), path@]);
    v
}

/// What to tell when even `sudo tail` could not read the log.
pub fn unreadable_log_message(stderr: &str) -> (r: String)
    ensures
        r@ == "로그를 읽을 수 없습니다 (권한). sudoers 설정이 필요할 수 있습니다.\n"@ + trim(stderr@),
{
    let mut s = String::from_str("로그를 읽을 수 없습니다 (권한). sudoers 설정이 필요할 수 있습니다.\n");
    let t = trim_ws(stderr);
    s.append(t.as_str());
    s
}

/// Arguments of `sudo` that empty a log file.
pub fn sudo_truncate_args(path: &str) -> (r: Vec<String>)
    ensures
        views(r@) == seq!["-n"@, "truncate"@, "-s"@, "0"@, path@],
{
    let mut v: Vec<String> = Vec::new();
    v.push(String::from_str("-n"));
    v.push(String::from_str("truncate"));
    v.push(String::from_str("-s"));
    v.push(String::from_str("0"));
    v.push(String::from_str(path));
    assert(views(v@) =~= seq!["-n"@, "truncate"@, "-s"@, "0"@, path@]);
    v
}

/// What to tell when emptying the log failed.
pub fn clear_log_failure(stderr: &str) -> (r: String)
    ensures
        r@ == "로그를 비우지 못했습니다. install-sudoers.sh를 다시 실행해 truncate 규칙을 추가하세요.\n"@
            + trim(stderr@),
{
    let mut s = String::from_str(
        "로그를 비우지 못했습니다. install-sudoers.sh를 다시 실행해 truncate 규칙을 추가하세요.\n",
    );
    let t = trim_ws(stderr);
    s.append(t.as_str());
    s
}

} // verus!
