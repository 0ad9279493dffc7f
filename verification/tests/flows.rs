use dotsync::config::{Config, Entry, InitArgs};
use dotsync::effect::{Arg, Command, Effect, ExitReport, Notice, Outcome, Reply, Step};
use dotsync::env::Dirs;
use dotsync::error::{DotsyncError, GitStep};
use dotsync::init::InitRun;
use dotsync::path::LocalPath;
use dotsync::remote::RemoteRun;
use dotsync::session::{Next, Session};
use dotsync::store::{ExistsRun, LoadRun, ProbePhase, SaveRun, UpdateRun};

fn p(s: &str) -> LocalPath {
    LocalPath::parse(s)
}

fn show(x: &LocalPath) -> String {
    let ps = x.parts();
    if !ps.is_empty() && ps[0] == "/" {
        format!("/{}", ps[1..].join("/"))
    } else {
        ps.join("/")
    }
}

fn effect(st: Step) -> Effect {
    match st {
        Step::Do(e) => e,
        Step::Finish(r) => panic!("run ended: {:?}", r),
    }
}

fn finished(st: Step) -> Result<Outcome, DotsyncError> {
    match st {
        Step::Finish(r) => r,
        Step::Do(e) => panic!("run asked for {:?}", e),
    }
}

fn exit(success: bool, out: &[u8]) -> Reply {
    Reply::Exit(ExitReport { success, code: Some(if success { 0 } else { 1 }), stdout: out.to_vec() })
}

fn words(c: &Command) -> Vec<String> {
    c.args
        .iter()
        .map(|a| match a {
            Arg::Text(t) => t.clone(),
            Arg::Path(x) => show(x),
        })
        .collect()
}

fn run_of(e: Effect) -> Command {
    match e {
        Effect::Run(c) => c,
        other => panic!("expected a command, got {:?}", other),
    }
}

fn cfg() -> Option<LocalPath> {
    Some(p("/home/me/.config"))
}

// ---------------------------------------------------------------- remote origin

fn remote_run(remote: Option<&str>) -> RemoteRun {
    RemoteRun::new(p(".config"), remote.map(|s| s.to_string()), cfg())
}

#[test]
fn origin_that_answers_is_kept() {
    let mut r = remote_run(None);
    match effect(r.resume(Reply::Done)) {
        Effect::TryExists(x) => assert_eq!(show(&x), "/home/me/.config/.config"),
        other => panic!("{:?}", other),
    }
    match effect(r.resume(Reply::Flag(true))) {
        Effect::Say(Notice::UsingDirectory(d)) => assert_eq!(show(&d), "/home/me/.config/.config"),
        other => panic!("{:?}", other),
    }
    let c = run_of(effect(r.resume(Reply::Done)));
    assert_eq!(words(&c), vec!["remote", "get-url", "origin"]);
    assert_eq!(show(c.dir.as_ref().unwrap()), "/home/me/.config/.config");
    // the URL is read from git's output, decoded and trimmed
    match effect(r.resume(exit(true, b"  git@github.com:me/d.git \n"))) {
        Effect::Say(Notice::GetUrlOutput(x)) => assert!(x.success),
        other => panic!("{:?}", other),
    }
    let c = run_of(effect(r.resume(Reply::Done)));
    assert_eq!(words(&c), vec!["ls-remote", "git@github.com:me/d.git"]);
    assert!(c.dir.is_none());
    assert!(matches!(effect(r.resume(exit(true, b""))), Effect::Say(Notice::RemoteOriginOk)));
    assert!(matches!(finished(r.resume(Reply::Done)), Ok(Outcome::Nothing)));
}

#[test]
fn origin_url_is_trimmed_of_unicode_white_space_only() {
    let mut r = remote_run(None);
    r.resume(Reply::Done);
    r.resume(Reply::Flag(true));
    r.resume(Reply::Done);
    let out = "\t\u{3000}u r l\u{200b}\u{a0}\r\n".as_bytes();
    r.resume(exit(true, out));
    let c = run_of(effect(r.resume(Reply::Done)));
    assert_eq!(words(&c), vec!["ls-remote", "u r l\u{200b}"]);
}

#[test]
fn origin_url_with_invalid_bytes_is_decoded_lossily() {
    let mut r = remote_run(None);
    r.resume(Reply::Done);
    r.resume(Reply::Flag(true));
    r.resume(Reply::Done);
    r.resume(exit(true, b"a\xffb\n"));
    let c = run_of(effect(r.resume(Reply::Done)));
    assert_eq!(words(&c), vec!["ls-remote", "a\u{fffd}b"]);
}

#[test]
fn given_remote_is_added_when_origin_is_missing() {
    let mut r = remote_run(Some("git@h:me/new.git"));
    r.resume(Reply::Done);
    // the directory is not inside the config directory: the default one is used
    match effect(r.resume(Reply::Flag(false))) {
        Effect::Say(Notice::UsingDirectory(d)) => assert_eq!(show(&d), "/home/me/.config/dotsync"),
        other => panic!("{:?}", other),
    }
    r.resume(Reply::Done);
    r.resume(exit(false, b""));
    assert!(matches!(effect(r.resume(Reply::Done)), Effect::Say(Notice::FixingRemote)));
    let c = run_of(effect(r.resume(Reply::Done)));
    assert_eq!(words(&c), vec!["ls-remote", "git@h:me/new.git"]);
    let c = run_of(effect(r.resume(exit(true, b""))));
    assert_eq!(words(&c), vec!["ls-remote", "git@h:me/new.git"]);
    let c = run_of(effect(r.resume(exit(true, b""))));
    assert_eq!(words(&c), vec!["remote", "add", "origin", "git@h:me/new.git"]);
    assert!(matches!(finished(r.resume(exit(true, b""))), Ok(Outcome::Nothing)));
}

#[test]
fn unreachable_given_remote_changes_nothing() {
    let mut r = remote_run(Some("bad"));
    r.resume(Reply::Done);
    r.resume(Reply::Flag(true));
    r.resume(Reply::Done);
    r.resume(exit(false, b""));
    r.resume(Reply::Done);
    r.resume(Reply::Done);
    // git could not even start: the remote counts as unreachable
    assert!(matches!(finished(r.resume(Reply::Failed("spawn".to_string()))), Ok(Outcome::Nothing)));
}

#[test]
fn remote_that_stops_answering_is_an_error() {
    let mut r = remote_run(Some("flaky"));
    r.resume(Reply::Done);
    r.resume(Reply::Flag(true));
    r.resume(Reply::Done);
    r.resume(exit(false, b""));
    r.resume(Reply::Done);
    r.resume(Reply::Done);
    r.resume(exit(true, b""));
    assert!(matches!(finished(r.resume(exit(false, b""))), Err(DotsyncError::RemoteMissing)));
}

#[test]
fn user_is_asked_until_a_url_answers() {
    let mut r = remote_run(None);
    r.resume(Reply::Done);
    r.resume(Reply::Flag(true));
    r.resume(Reply::Done);
    r.resume(exit(true, b"old\n"));
    let c = run_of(effect(r.resume(Reply::Done)));
    assert_eq!(words(&c), vec!["ls-remote", "old"]);
    assert!(matches!(effect(r.resume(exit(false, b""))), Effect::Say(Notice::FixingRemote)));
    assert!(matches!(effect(r.resume(Reply::Done)), Effect::AskUrl));
    r.resume(Reply::Text("nope".to_string()));
    assert!(matches!(effect(r.resume(exit(false, b""))), Effect::Say(Notice::UrlUnreachable)));
    assert!(matches!(effect(r.resume(Reply::Done)), Effect::AskUrl));
    let c = run_of(effect(r.resume(Reply::Text("git@h:me/ok.git".to_string()))));
    assert_eq!(words(&c), vec!["ls-remote", "git@h:me/ok.git"]);
    let c = run_of(effect(r.resume(exit(true, b""))));
    assert_eq!(words(&c), vec!["remote", "set-url", "origin", "git@h:me/ok.git"]);
    // the config is updated: it must load first, then is saved with the new URL
    assert!(matches!(effect(r.resume(exit(true, b""))), Effect::ReadConfig { .. }));
    let prev = Config::new(p("old"), "old".to_string(), vec![Entry::new("a".to_string(), p("/a"))]);
    assert!(matches!(effect(r.resume(Reply::Loaded(prev))), Effect::MakeDirs(_)));
    match effect(r.resume(Reply::Done)) {
        Effect::WriteConfig { config, .. } => {
            assert_eq!(show(&config.repo_dir()), ".config");
            assert_eq!(config.remote(), "git@h:me/ok.git");
            assert_eq!(config.entry_count(), 0);
        },
        other => panic!("{:?}", other),
    }
    assert!(matches!(finished(r.resume(Reply::Done)), Ok(Outcome::Nothing)));
}

// ---------------------------------------------------------------- init

#[test]
fn init_with_remote_in_existing_git_repo() {
    let mut r = InitRun::new(InitArgs { repo_dir: p(".config"), remote: Some("git@h:me/d.git".to_string()) }, cfg());
    match effect(r.resume(Reply::Done)) {
        Effect::Exists(x) => assert_eq!(show(&x), "/home/me/.config/dotsync/config.toml"),
        other => panic!("{:?}", other),
    }
    assert!(matches!(effect(r.resume(Reply::Flag(false))), Effect::Say(Notice::RemoteGiven)));
    assert!(matches!(effect(r.resume(Reply::Done)), Effect::TryExists(_)));
    match effect(r.resume(Reply::Flag(true))) {
        Effect::Exists(x) => assert_eq!(show(&x), "/home/me/.config/.config/.git"),
        other => panic!("{:?}", other),
    }
    assert!(matches!(effect(r.resume(Reply::Flag(true))), Effect::Say(Notice::AlreadyGitRepo)));
    // check_and_set_remote_origin runs
    assert!(matches!(effect(r.resume(Reply::Done)), Effect::TryExists(_)));
    r.resume(Reply::Flag(true));
    r.resume(Reply::Done);
    r.resume(exit(true, b"git@h:me/d.git\n"));
    r.resume(Reply::Done);
    assert!(matches!(effect(r.resume(exit(true, b""))), Effect::Say(Notice::RemoteOriginOk)));
    // the config file does not exist yet: a fresh one is written
    assert!(matches!(effect(r.resume(Reply::Done)), Effect::TryExists(_)));
    assert!(matches!(effect(r.resume(Reply::Flag(false))), Effect::MakeDirs(_)));
    match effect(r.resume(Reply::Done)) {
        Effect::WriteConfig { config, announce, .. } => {
            assert!(announce);
            assert_eq!(show(&config.repo_dir()), ".config");
            assert_eq!(config.remote(), "git@h:me/d.git");
            assert_eq!(config.entry_count(), 0);
        },
        other => panic!("{:?}", other),
    }
    assert!(matches!(effect(r.resume(Reply::Done)), Effect::Say(Notice::InitDone)));
    assert!(matches!(finished(r.resume(Reply::Done)), Ok(Outcome::Nothing)));
}

#[test]
fn init_keeps_entries_of_existing_config() {
    let mut r = InitRun::new(InitArgs { repo_dir: p("dots"), remote: Some("u".to_string()) }, cfg());
    r.resume(Reply::Done);
    assert!(matches!(effect(r.resume(Reply::Flag(true))), Effect::Say(Notice::ConfigAlreadyExists)));
    assert!(matches!(effect(r.resume(Reply::Done)), Effect::Say(Notice::RemoteGiven)));
    r.resume(Reply::Done);
    match effect(r.resume(Reply::Flag(false))) {
        Effect::Say(Notice::RepoDirMissing(d)) => assert_eq!(show(&d), "dots"),
        other => panic!("{:?}", other),
    }
    // the new directory is created and set up as a git repository
    match effect(r.resume(Reply::Done)) {
        Effect::MakeDirs(d) => assert_eq!(show(&d), "/home/me/.config/dots"),
        other => panic!("{:?}", other),
    }
    let c = run_of(effect(r.resume(Reply::Done)));
    assert_eq!(words(&c), vec!["init"]);
    assert_eq!(show(c.dir.as_ref().unwrap()), "/home/me/.config/dots");
    // origin: the new repository has none, so it is added
    match effect(r.resume(exit(true, b""))) {
        Effect::TryExists(d) => assert_eq!(show(&d), "/home/me/.config/dots"),
        other => panic!("{:?}", other),
    }
    assert!(matches!(effect(r.resume(Reply::Flag(true))), Effect::Say(Notice::UsingDirectory(_))));
    let c = run_of(effect(r.resume(Reply::Done)));
    assert_eq!(words(&c), vec!["remote", "get-url", "origin"]);
    assert!(matches!(effect(r.resume(exit(false, b""))), Effect::Say(Notice::GetUrlOutput(_))));
    assert!(matches!(effect(r.resume(Reply::Done)), Effect::Say(Notice::FixingRemote)));
    let c = run_of(effect(r.resume(Reply::Done)));
    assert_eq!(words(&c), vec!["ls-remote", "u"]);
    r.resume(exit(true, b""));
    let c = run_of(effect(r.resume(exit(true, b""))));
    assert_eq!(words(&c), vec!["remote", "add", "origin", "u"]);
    // the existing config keeps its entries
    assert!(matches!(effect(r.resume(exit(true, b""))), Effect::TryExists(_)));
    assert!(matches!(effect(r.resume(Reply::Flag(true))), Effect::ReadConfig { .. }));
    let cur = Config::new(p("old"), "old".to_string(), vec![Entry::new("nvim".to_string(), p("/n"))]);
    r.resume(Reply::Loaded(cur));
    match effect(r.resume(Reply::Done)) {
        Effect::WriteConfig { config, .. } => {
            assert_eq!(show(&config.repo_dir()), "dots");
            assert_eq!(config.remote(), "u");
            assert_eq!(config.entry_count(), 1);
            assert_eq!(config.entry(0).name(), "nvim");
        },
        other => panic!("{:?}", other),
    }
}

#[test]
fn init_sets_up_git_in_a_plain_directory() {
    let mut r = InitRun::new(InitArgs { repo_dir: p("plain"), remote: Some("u".to_string()) }, cfg());
    r.resume(Reply::Done);
    r.resume(Reply::Flag(false));
    r.resume(Reply::Done);
    r.resume(Reply::Flag(true));
    assert!(matches!(effect(r.resume(Reply::Flag(false))), Effect::Say(Notice::NotGitRepo)));
    let c = run_of(effect(r.resume(Reply::Done)));
    assert_eq!(words(&c), vec!["init"]);
    assert_eq!(show(c.dir.as_ref().unwrap()), "/home/me/.config/plain");
    assert!(matches!(
        finished(r.resume(exit(false, b""))),
        Err(DotsyncError::GitFailed { step: GitStep::Init })
    ));
}

#[test]
fn init_reports_a_directory_that_cannot_be_created() {
    let mut r = InitRun::new(InitArgs { repo_dir: p("dots"), remote: Some("u".to_string()) }, cfg());
    r.resume(Reply::Done);
    r.resume(Reply::Flag(false));
    r.resume(Reply::Done);
    r.resume(Reply::Flag(false));
    r.resume(Reply::Done);
    match finished(r.resume(Reply::Failed("denied".to_string()))) {
        Err(DotsyncError::MakeDirsFailed { path, .. }) => assert_eq!(show(&path), "/home/me/.config/dots"),
        other => panic!("{:?}", other),
    }
}

#[test]
fn init_without_remote_asks_once_and_saves_the_url() {
    let mut r = InitRun::new(InitArgs { repo_dir: p(".config"), remote: None }, cfg());
    r.resume(Reply::Done);
    assert!(matches!(effect(r.resume(Reply::Flag(false))), Effect::AskUrl));
    r.resume(Reply::Text("git@h:me/u.git".to_string()));
    r.resume(exit(true, b""));
    r.resume(Reply::Flag(true));
    assert!(matches!(effect(r.resume(Reply::Flag(true))), Effect::Say(Notice::AlreadyGitRepo)));
    r.resume(Reply::Done);
    r.resume(Reply::Flag(true));
    r.resume(Reply::Done);
    // the repository has no origin: the URL already given is used, not asked again
    r.resume(exit(false, b""));
    assert!(matches!(effect(r.resume(Reply::Done)), Effect::Say(Notice::FixingRemote)));
    let c = run_of(effect(r.resume(Reply::Done)));
    assert_eq!(words(&c), vec!["ls-remote", "git@h:me/u.git"]);
    r.resume(exit(true, b""));
    let c = run_of(effect(r.resume(exit(true, b""))));
    assert_eq!(words(&c), vec!["remote", "add", "origin", "git@h:me/u.git"]);
    assert!(matches!(effect(r.resume(exit(true, b""))), Effect::TryExists(_)));
    assert!(matches!(effect(r.resume(Reply::Flag(false))), Effect::MakeDirs(_)));
    match effect(r.resume(Reply::Done)) {
        Effect::WriteConfig { config, .. } => {
            assert_eq!(show(&config.repo_dir()), ".config");
            assert_eq!(config.remote(), "git@h:me/u.git");
            assert_eq!(config.entry_count(), 0);
        },
        other => panic!("{:?}", other),
    }
    assert!(matches!(effect(r.resume(Reply::Done)), Effect::Say(Notice::InitDone)));
    assert!(matches!(finished(r.resume(Reply::Done)), Ok(Outcome::Nothing)));
}

#[test]
fn failed_origin_update_is_an_error() {
    let mut r = remote_run(Some("git@h:me/new.git"));
    r.resume(Reply::Done);
    r.resume(Reply::Flag(true));
    r.resume(Reply::Done);
    r.resume(exit(true, b"old\n"));
    r.resume(Reply::Done);
    r.resume(exit(false, b""));
    r.resume(Reply::Done);
    r.resume(exit(true, b""));
    let c = run_of(effect(r.resume(exit(true, b""))));
    assert_eq!(words(&c), vec!["remote", "set-url", "origin", "git@h:me/new.git"]);
    assert!(matches!(
        finished(r.resume(exit(false, b""))),
        Err(DotsyncError::GitFailed { step: GitStep::SetOrigin })
    ));
}

#[test]
fn init_with_empty_args_asks_for_url() {
    let mut r = InitRun::new(InitArgs { repo_dir: p(""), remote: None }, cfg());
    r.resume(Reply::Done);
    assert!(matches!(effect(r.resume(Reply::Flag(false))), Effect::Say(Notice::InitArgsEmpty)));
    assert!(matches!(effect(r.resume(Reply::Done)), Effect::AskUrl));
    let c = run_of(effect(r.resume(Reply::Text("x".to_string()))));
    assert_eq!(words(&c), vec!["ls-remote", "x"]);
    assert!(matches!(effect(r.resume(exit(true, b""))), Effect::TryExists(_)));
}

#[test]
fn init_without_config_dir() {
    let mut r = InitRun::new(InitArgs { repo_dir: p("d"), remote: None }, None);
    assert!(matches!(finished(r.resume(Reply::Done)), Err(DotsyncError::NoConfigDir)));
}

// ---------------------------------------------------------------- store

#[test]
fn load_reads_the_config_file() {
    let mut r = LoadRun::new(cfg());
    match effect(r.resume(Reply::Done)) {
        Effect::ReadConfig { path: x, announce } => {
            assert!(announce);
            assert_eq!(show(&x), "/home/me/.config/dotsync/config.toml");
        },
        other => panic!("{:?}", other),
    }
    match finished(r.resume(Reply::Loaded(Config::new(p("d"), "u".to_string(), vec![])))) {
        Ok(Outcome::Loaded(c)) => assert_eq!(c.remote(), "u"),
        other => panic!("{:?}", other),
    }
}

#[test]
fn save_reports_write_failure() {
    let mut r = SaveRun::new(Config::new(p("d"), "u".to_string(), vec![]), cfg());
    r.resume(Reply::Done);
    r.resume(Reply::Done);
    match finished(r.resume(Reply::Failed("full".to_string()))) {
        Err(DotsyncError::WriteFailed { path, reason }) => {
            assert_eq!(show(&path), "/home/me/.config/dotsync/config.toml");
            assert_eq!(reason, "full");
        },
        other => panic!("{:?}", other),
    }
}

#[test]
fn update_needs_a_loadable_config() {
    let mut r = UpdateRun::new(Config::new(p("d"), "u".to_string(), vec![]), cfg());
    r.resume(Reply::Done);
    assert!(matches!(finished(r.resume(Reply::Failed("x".to_string()))), Err(DotsyncError::ConfigUnreadable { .. })));
}

#[test]
fn config_file_probe() {
    let mut r = ExistsRun { config_dir: cfg(), phase: ProbePhase::Start };
    assert!(matches!(effect(r.resume(Reply::Done)), Effect::Exists(_)));
    assert!(matches!(finished(r.resume(Reply::Flag(true))), Ok(Outcome::Flag(true))));
    let mut r = ExistsRun { config_dir: None, phase: ProbePhase::Start };
    assert!(matches!(finished(r.resume(Reply::Done)), Err(DotsyncError::NoConfigDir)));
}

// ---------------------------------------------------------------- sessions

fn dirs() -> Dirs {
    Dirs { config: cfg(), home: Some(p("/home/me")) }
}

#[test]
fn show_session_reports_unreadable_config() {
    let mut s = Session::after_load(Next::Show, dirs());
    assert!(matches!(effect(s.resume(Reply::Done)), Effect::ReadConfig { .. }));
    match effect(s.resume(Reply::Failed("missing".to_string()))) {
        Effect::Say(Notice::ConfigUnavailable(DotsyncError::ConfigUnreadable { reason, .. })) => {
            assert_eq!(reason, "missing")
        },
        other => panic!("{:?}", other),
    }
    assert!(matches!(finished(s.resume(Reply::Done)), Ok(Outcome::Nothing)));
}

#[test]
fn repo_session_shows_resolved_dir() {
    let mut s = Session::after_load(Next::Repo, dirs());
    s.resume(Reply::Done);
    let c = Config::new(p("/srv/dots"), String::new(), vec![]);
    assert!(matches!(effect(s.resume(Reply::Loaded(c))), Effect::Say(Notice::RepoCandidate(_))));
    assert!(matches!(effect(s.resume(Reply::Done)), Effect::Exists(_)));
    assert!(matches!(effect(s.resume(Reply::Flag(false))), Effect::Canonicalize(_)));
    match effect(s.resume(Reply::Path(p("/srv/dots")))) {
        Effect::Say(Notice::ResolvedRepo(d)) => assert_eq!(show(&d), "/srv/dots"),
        other => panic!("{:?}", other),
    }
    assert!(matches!(finished(s.resume(Reply::Done)), Ok(Outcome::Nothing)));
}

#[test]
fn push_session_stops_when_config_cannot_load() {
    let mut s = Session::after_load(Next::Push, dirs());
    s.resume(Reply::Done);
    assert!(matches!(finished(s.resume(Reply::Failed("x".to_string()))), Err(DotsyncError::ConfigUnreadable { .. })));
    assert!(matches!(finished(s.resume(Reply::Done)), Err(DotsyncError::UnexpectedReply)));
}

#[test]
fn push_session_starts_push_after_load() {
    let mut s = Session::after_load(Next::Push, dirs());
    s.resume(Reply::Done);
    let c = Config::new(p("dots"), String::new(), vec![]);
    assert!(matches!(effect(s.resume(Reply::Loaded(c))), Effect::Say(Notice::RepoCandidate(_))));
    match effect(s.resume(Reply::Done)) {
        Effect::Exists(x) => assert_eq!(show(&x), "/home/me/.config/dots"),
        other => panic!("{:?}", other),
    }
}
