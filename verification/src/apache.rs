//! Apache and system files around a vhost: where its configuration goes, the
//! `/etc/hosts` entry of its domain and the proxy modules it needs.
use vstd::prelude::*;
use vstd::string::*;
use crate::text::{contains, contains_text, join, join_strings, lines, lines_of, occurs_at, views};
use crate::vhost::{ProjectType, VhostProject};

verus! {

broadcast use vstd::string::group_string_axioms;

/// The vhost file in `sites-available` for a project id.
pub fn vhost_conf_path(id: &str) -> (r: String)
    ensures
        r@ == "/etc/apache2/sites-available/"@ + id@ + ".conf"@,
{
    let mut s = String::from_str("/etc/apache2/sites-available/");
    s.append(id);
    s.append(".conf");
    s
}

/// The link in `sites-enabled` for a project id.
pub fn vhost_enabled_path(id: &str) -> (r: String)
    ensures
        r@ == "/etc/apache2/sites-enabled/"@ + id@ + ".conf"@,
{
    let mut s = String::from_str("/etc/apache2/sites-enabled/");
    s.append(id);
    s.append(".conf");
    s
}

/// The scratch file a vhost is written to before it is copied into place.
pub fn vhost_staging_path(id: &str) -> (r: String)
    ensures
        r@ == "/tmp/localman_vhost_"@ + id@ + ".conf"@,
{
    let mut s = String::from_str("/tmp/localman_vhost_");
    s.append(id);
    s.append(".conf");
    s
}

/// The `/etc/hosts` line that maps a domain to the local machine.
pub open spec fn hosts_entry(domain: Seq<char>) -> Seq<char> {
    "127.0.0.1\t"@ + domain
}

/// Lines of the hosts file that do not mention `domain`.
pub open spec fn lines_without(ls: Seq<Seq<char>>, domain: Seq<char>) -> Seq<Seq<char>> {
    ls.filter(|l: Seq<char>| !contains_text(l, domain))
}

/// The new hosts file, `None` when it stays as it is. Adding: the file already
/// mentioning the domain stays; else the entry is appended after a line break.
/// Removing: every line mentioning the domain leaves, the rest joined by `\n`
/// with a final `\n`.
pub open spec fn spec_hosts_update(hosts: Seq<char>, domain: Seq<char>, add: bool) -> Option<
    Seq<char>,
> {
    if add {
        if contains_text(hosts, domain) {
            None
        } else {
            Some(hosts + "\n"@ + hosts_entry(domain) + "\n"@)
        }
    } else {
        Some(join(lines_without(lines(hosts), domain), "\n"@) + "\n"@)
    }
}

/// Computes the hosts file after adding or removing a domain's entry.
pub fn update_hosts_content(hosts: &str, domain: &str, add: bool) -> (r: Option<String>)
    ensures
        match r {
            Some(s) => spec_hosts_update(hosts@, domain@, add) == Some(s@),
            None => spec_hosts_update(hosts@, domain@, add) is None,
        },
{
    if add {
        if contains(hosts, domain) {
            return None;
        }
        let mut s = String::from_str(hosts);
        s.append("\n");
        s.append("127.0.0.1\t");
        s.append(domain);
        s.append("\n");
        assert(s@ =~= hosts@ + "\n"@ + hosts_entry(domain@) + "\n"@);
        Some(s)
    } else {
        let ls = lines_of(hosts);
        let mut kept: Vec<String> = Vec::new();
        let mut i: usize = 0;
        while i < ls.len()
            invariant
                i <= ls.len(),
                views(kept@) == lines_without(views(ls@).take(i as int), domain@),
            decreases ls.len() - i,
        {
            proof {
                reveal_with_fuel(Seq::filter, 1);
                assert(views(ls@).take(i + 1).drop_last() =~= views(ls@).take(i as int));
            }
            let ghost before = views(kept@);
            if !contains(ls[i].as_str(), domain) {
                kept.push(ls[i].clone());
                assert(views(kept@) =~= before.push(ls@[i as int]@));
            }
            i += 1;
        }
        assert(views(ls@).take(ls.len() as int) =~= views(ls@));
        let mut s = join_strings(&kept, "\n");
        s.append("\n");
        Some(s)
    }
}

/// The Apache modules to enable, given the output of `apache2ctl -M`: `proxy`
/// and `proxy_http` unless `proxy_http_module` is loaded; for websockets also
/// `proxy_wstunnel` and `rewrite` unless loaded.
pub open spec fn spec_needed_modules(loaded: Seq<char>, need_ws: bool) -> Seq<Seq<char>> {
    (if contains_text(loaded, "proxy_http_module"@) {
        seq![]
    } else {
        seq!["proxy"@, "proxy_http"@]
    }) + (if need_ws && !contains_text(loaded, "proxy_wstunnel_module"@) {
        seq!["proxy_wstunnel"@]
    } else {
        seq![]
    }) + (if need_ws && !contains_text(loaded, "rewrite_module"@) {
        seq!["rewrite"@]
    } else {
        seq![]
    })
}

/// Modules a proxied project still needs enabled (websocket tunnelling for Next.js).
pub fn needed_proxy_modules(loaded: &str, need_ws: bool) -> (r: Vec<String>)
    ensures
        views(r@) == spec_needed_modules(loaded@, need_ws),
{
    let mut out: Vec<String> = Vec::new();
    if !contains(loaded, "proxy_http_module") {
        out.push(String::from_str("proxy"));
        out.push(String::from_str("proxy_http"));
    }
    let ghost a = views(out@);
    if need_ws && !contains(loaded, "proxy_wstunnel_module") {
        out.push(String::from_str("proxy_wstunnel"));
    }
    let ghost b = views(out@);
    if need_ws && !contains(loaded, "rewrite_module") {
        out.push(String::from_str("rewrite"));
    }
    assert(views(out@) =~= spec_needed_modules(loaded@, need_ws));
    out
}

/// Arguments of `sudo` that enable the modules: `-n /usr/sbin/a2enmod <modules>`.
pub fn enable_modules_args(modules: &Vec<String>) -> (r: Vec<String>)
    ensures
        views(r@) == seq!["-n"@, "/usr/sbin/a2enmod"@] + views(modules@),
{
    let mut out: Vec<String> = Vec::new();
    out.push(String::from_str("-n"));
    out.push(String::from_str("/usr/sbin/a2enmod"));
    let mut i: usize = 0;
    while i < modules.len()
        invariant
            i <= modules.len(),
            views(out@) == seq!["-n"@, "/usr/sbin/a2enmod"@] + views(modules@).take(i as int),
        decreases modules.len() - i,
    {
        let ghost before = views(out@);
        out.push(modules[i].clone());
        assert(views(out@) =~= before.push(modules@[i as int]@));
        assert(views(modules@).take(i + 1) =~= views(modules@).take(i as int).push(modules@[i as int]@));
        assert(views(out@) =~= seq!["-n"@, "/usr/sbin/a2enmod"@] + views(modules@).take(i + 1));
        i += 1;
    }
    assert(views(modules@).take(modules.len() as int) =~= views(modules@));
    out
}

/// What to tell when enabling the modules failed: the commands to run by hand.
pub fn enable_modules_failure(modules: &Vec<String>) -> (r: String)
    ensures
        r@ == "Apache proxy 모듈 활성화 실패.\n터미널에서 한 번 실행 후 재시도하세요:\nsudo a2enmod "@
            + join(views(modules@), " "@) + " && sudo systemctl reload apache2"@,
{
    let mut s = String::from_str(
        "Apache proxy 모듈 활성화 실패.\n터미널에서 한 번 실행 후 재시도하세요:\nsudo a2enmod ",
    );
    let j = join_strings(modules, " ");
    s.append(j.as_str());
    s.append(" && sudo systemctl reload apache2");
    s
}

/// The Adminer site served from `dir` at `pma.localhost`.
pub fn adminer_project(dir: &str) -> (r: VhostProject)
    ensures
        r.id@ == "pma"@,
        r.name@ == "Adminer"@,
        r.path@ == dir@,
        r.domain@ == "pma.localhost"@,
        r.project_type == ProjectType::Php,
        r.port == 80,
        r.start_command@ == Seq::<char>::empty(),
        r.app_dir@ == Seq::<char>::empty(),
{
    VhostProject {
        id: String::from_str("pma"),
        name: String::from_str("Adminer"),
        path: String::from_str(dir),
        domain: String::from_str("pma.localhost"),
        project_type: ProjectType::Php,
        port: 80,
        start_command: String::new(),
        app_dir: String::new(),
    }
}

/// The address a domain is opened at.
pub fn site_url(domain: &str) -> (r: String)
    ensures
        r@ == "http://"@ + domain@,
{
    let mut s = String::from_str("http://");
    s.append(domain);
    s
}

/// Where the latest Adminer is fetched from.
pub open spec fn adminer_url() -> Seq<char> {
    "https://www.adminer.org/latest.php"@
}

/// The download of Adminer into `dest`: `curl -fsSL <url> -o <dest>`, or, as the
/// fallback, `wget -q <url> -O <dest>`.
pub fn adminer_download(dest: &str, fallback: bool) -> (r: (&'static str, Vec<String>))
    ensures
        r.0@ == (if fallback {
            "wget"@
        } else {
            "curl"@
        }),
        views(r.1@) == (if fallback {
            seq!["-q"@, adminer_url(), "-O"@, dest@]
        } else {
            seq!["-fsSL"@, adminer_url(), "-o"@, dest@]
        }),
{
    let mut args: Vec<String> = Vec::new();
    args.push(String::from_str(if fallback { "-q" } else { "-fsSL" }));
    args.push(String::from_str("https://www.adminer.org/latest.php"));
    args.push(String::from_str(if fallback { "-O" } else { "-o" }));
    args.push(String::from_str(dest));
    let ghost expected = if fallback {
        seq!["-q"@, adminer_url(), "-O"@, dest@]
    } else {
        seq!["-fsSL"@, adminer_url(), "-o"@, dest@]
    };
    assert(views(args@) =~= expected);
    (if fallback { "wget" } else { "curl" }, args)
}

/// How fetching Adminer ends: it succeeded when a download ran successfully and
/// left the file in place (`curl_ok`, else `wget_ok`, tried only after curl failed).
pub fn adminer_download_result(curl_ok: bool, wget_ok: bool) -> (r: Result<(), String>)
    ensures
        match r {
            Ok(()) => curl_ok || wget_ok,
            Err(e) => !curl_ok && !wget_ok && e@ == "Adminer 다운로드 실패 (curl/wget·인터넷 연결 확인)"@,
        },
{
    if curl_ok || wget_ok {
        Ok(())
    } else {
        Err(String::from_str("Adminer 다운로드 실패 (curl/wget·인터넷 연결 확인)"))
    }
}

} // verus!

verus! {

proof fn no_match_across_break(a: Seq<char>, b: Seq<char>, d: Seq<char>)
    requires
        !contains_text(a, d),
        !contains_text(b, d),
        !d.contains('\n'),
    ensures
        !contains_text(a + seq!['\n'] + b, d),
{
    let t = a + seq!['\n'] + b;
    let k = a.len() as int;
    assert forall|i: int| !occurs_at(t, d, i) by {
        if occurs_at(t, d, i) {
            if i <= k && k < i + d.len() {
                assert(t.subrange(i, i + d.len())[k - i] == t[k]);
                assert(d[k - i] == '\n');
                assert(d.contains('\n'));
            } else if i + d.len() <= k {
                assert(a.subrange(i, i + d.len()) =~= t.subrange(i, i + d.len()));
                assert(occurs_at(a, d, i));
            } else {
                assert(b.subrange(i - k - 1, i - k - 1 + d.len()) =~= t.subrange(i, i + d.len()));
                assert(occurs_at(b, d, i - k - 1));
            }
        }
    }
}

proof fn joined_lines_miss(ls: Seq<Seq<char>>, d: Seq<char>)
    requires
        d.len() > 0,
        !d.contains('\n'),
        forall|i: int| 0 <= i < ls.len() ==> !contains_text(#[trigger] ls[i], d),
    ensures
        !contains_text(join(ls, "\n"@), d),
    decreases ls.len(),
{
    reveal_strlit("\n");
    if ls.len() == 0 {
        assert forall|i: int| !occurs_at(join(ls, "\n"@), d, i) by {}
    } else if ls.len() == 1 {
        assert(!contains_text(ls[0], d));
    } else {
        let init = ls.drop_last();
        assert forall|i: int| 0 <= i < init.len() implies !contains_text(#[trigger] init[i], d) by {
            assert(init[i] == ls[i]);
        }
        joined_lines_miss(init, d);
        assert(!contains_text(ls.last(), d));
        no_match_across_break(join(init, "\n"@), ls.last(), d);
        assert(join(ls, "\n"@) == join(init, "\n"@) + seq!['\n'] + ls.last());
    }
}

/// Adding a domain leaves a hosts file that mentions it, with the old content
/// kept at the front; a file that already mentions it is left alone.
pub proof fn added_domain_is_mapped(hosts: Seq<char>, domain: Seq<char>)
    ensures
        match spec_hosts_update(hosts, domain, true) {
            Some(n) => contains_text(n, domain) && n.take(hosts.len() as int) == hosts,
            None => contains_text(hosts, domain),
        },
{
    reveal_strlit("\n");
    reveal_strlit("127.0.0.1\t");
    if !contains_text(hosts, domain) {
        let n = hosts + "\n"@ + hosts_entry(domain) + "\n"@;
        let at: int = hosts.len() as int + 11;
        assert(n.subrange(at, at + domain.len()) =~= domain);
        assert(occurs_at(n, domain, at));
        assert(n.take(hosts.len() as int) =~= hosts);
    }
}

/// Removing a domain (one that is not empty and has no line break) leaves a
/// hosts file that does not mention it anywhere.
pub proof fn removed_domain_is_unmapped(hosts: Seq<char>, domain: Seq<char>)
    requires
        domain.len() > 0,
        !domain.contains('\n'),
    ensures
        spec_hosts_update(hosts, domain, false) matches Some(n) && !contains_text(n, domain),
{
    broadcast use vstd::seq_lib::group_filter_ensures;

    reveal_strlit("\n");
    let kept = lines_without(lines(hosts), domain);
    assert forall|i: int| 0 <= i < kept.len() implies !contains_text(#[trigger] kept[i], domain) by {
        let pred = |l: Seq<char>| !contains_text(l, domain);
        assert(pred(lines(hosts).filter(pred)[i]));
    }
    joined_lines_miss(kept, domain);
    assert forall|i: int| !occurs_at(Seq::<char>::empty(), domain, i) by {}
    no_match_across_break(join(kept, "\n"@), Seq::empty(), domain);
    assert(join(kept, "\n"@) + seq!['\n'] + Seq::<char>::empty() =~= join(kept, "\n"@) + "\n"@);
}


/// Exactly the modules a proxied project lacks are enabled, each judged on its
/// own: `proxy` and `proxy_http` when `proxy_http_module` is not loaded, and for
/// websockets `proxy_wstunnel` when `proxy_wstunnel_module` is not loaded and
/// `rewrite` when `rewrite_module` is not; no other module, none twice.
pub proof fn needed_modules_are_the_missing_ones(loaded: Seq<char>, need_ws: bool)
    ensures
        ({
            let m = spec_needed_modules(loaded, need_ws);
            &&& m.contains("proxy"@) <==> !contains_text(loaded, "proxy_http_module"@)
            &&& m.contains("proxy_http"@) <==> !contains_text(loaded, "proxy_http_module"@)
            &&& m.contains("proxy_wstunnel"@) <==> (need_ws && !contains_text(
                loaded,
                "proxy_wstunnel_module"@,
            ))
            &&& m.contains("rewrite"@) <==> (need_ws && !contains_text(loaded, "rewrite_module"@))
            &&& forall|k: int|
                0 <= k < m.len() ==> (m[k] == "proxy"@ || m[k] == "proxy_http"@ || m[k]
                    == "proxy_wstunnel"@ || m[k] == "rewrite"@)
            &&& forall|j: int, k: int| 0 <= j < k < m.len() ==> m[j] != m[k]
        }),
{
    reveal_strlit("proxy");
    reveal_strlit("proxy_http");
    reveal_strlit("proxy_wstunnel");
    reveal_strlit("rewrite");
    let a: Seq<Seq<char>> = if contains_text(loaded, "proxy_http_module"@) {
        seq![]
    } else {
        seq!["proxy"@, "proxy_http"@]
    };
    let b: Seq<Seq<char>> = if need_ws && !contains_text(loaded, "proxy_wstunnel_module"@) {
        seq!["proxy_wstunnel"@]
    } else {
        seq![]
    };
    let c: Seq<Seq<char>> = if need_ws && !contains_text(loaded, "rewrite_module"@) {
        seq!["rewrite"@]
    } else {
        seq![]
    };
    let m = spec_needed_modules(loaded, need_ws);
    assert(m == a + b + c);
    assert("proxy"@.len() != "proxy_http"@.len());
    assert("proxy"@.len() != "proxy_wstunnel"@.len());
    assert("proxy"@.len() != "rewrite"@.len());
    assert("proxy_http"@.len() != "proxy_wstunnel"@.len());
    assert("proxy_http"@.len() != "rewrite"@.len());
    assert("proxy_wstunnel"@.len() != "rewrite"@.len());
    assert forall|k: int| 0 <= k < m.len() implies (m[k] == "proxy"@ || m[k] == "proxy_http"@
        || m[k] == "proxy_wstunnel"@ || m[k] == "rewrite"@) by {
        if k < a.len() {
            assert(m[k] == a[k]);
        } else if k < a.len() + b.len() {
            assert(m[k] == b[k - a.len()]);
        } else {
            assert(m[k] == c[k - a.len() - b.len()]);
        }
    }
    assert(m.contains("proxy"@) <==> a.len() > 0) by {
        if a.len() > 0 {
            assert(m[0] == "proxy"@);
        }
        if m.contains("proxy"@) {
            let k = choose|k: int| 0 <= k < m.len() && m[k] == "proxy"@;
            if k >= a.len() {
                if k < a.len() + b.len() {
                    assert(m[k] == b[k - a.len()]);
                } else {
                    assert(m[k] == c[k - a.len() - b.len()]);
                }
            }
        }
    }
    assert(m.contains("proxy_http"@) <==> a.len() > 0) by {
        if a.len() > 0 {
            assert(m[1] == "proxy_http"@);
        }
        if m.contains("proxy_http"@) {
            let k = choose|k: int| 0 <= k < m.len() && m[k] == "proxy_http"@;
            if k >= a.len() {
                if k < a.len() + b.len() {
                    assert(m[k] == b[k - a.len()]);
                } else {
                    assert(m[k] == c[k - a.len() - b.len()]);
                }
            }
        }
    }
    assert(m.contains("proxy_wstunnel"@) <==> b.len() > 0) by {
        if b.len() > 0 {
            assert(m[a.len() as int] == "proxy_wstunnel"@);
        }
        if m.contains("proxy_wstunnel"@) {
            let k = choose|k: int| 0 <= k < m.len() && m[k] == "proxy_wstunnel"@;
            if k < a.len() {
                assert(m[k] == a[k]);
            } else if k >= a.len() + b.len() {
                assert(m[k] == c[k - a.len() - b.len()]);
            }
        }
    }
    assert(m.contains("rewrite"@) <==> c.len() > 0) by {
        if c.len() > 0 {
            assert(m[(a.len() + b.len()) as int] == "rewrite"@);
        }
        if m.contains("rewrite"@) {
            let k = choose|k: int| 0 <= k < m.len() && m[k] == "rewrite"@;
            if k < a.len() {
                assert(m[k] == a[k]);
            } else if k < a.len() + b.len() {
                assert(m[k] == b[k - a.len()]);
            }
        }
    }
    assert forall|j: int, k: int| 0 <= j < k < m.len() implies m[j] != m[k] by {
        if j < a.len() {
            assert(m[j] == a[j]);
        } else if j < a.len() + b.len() {
            assert(m[j] == b[j - a.len()]);
        } else {
            assert(m[j] == c[j - a.len() - b.len()]);
        }
        if k < a.len() {
            assert(m[k] == a[k]);
        } else if k < a.len() + b.len() {
            assert(m[k] == b[k - a.len()]);
        } else {
            assert(m[k] == c[k - a.len() - b.len()]);
        }
    }
}

} // verus!
