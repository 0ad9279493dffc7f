use dotsync::add::AddRun;
use dotsync::clone_repo::CloneRun;
use dotsync::config::{CloneArgs, Config, Entry, EntryArgs};
use dotsync::copy::CopyRun;
use dotsync::diff::DiffRun;
use dotsync::effect::{Arg, Command, Effect, ExitReport, Notice, Outcome, Program, Reply, Step};
use dotsync::env::Dirs;
use dotsync::error::{DotsyncError, GitStep};
use dotsync::path::LocalPath;
use dotsync::pull::PullRun;
use dotsync::push::PushRun;
use dotsync::resolve::ResolveRun;
use dotsync::restore::RestoreRun;
use dotsync::sync::SyncRun;

fn p(s: &str) -> LocalPath {
    LocalPath::parse(s)
}

fn show(x: &LocalPath) -> String {
    let ps = x.parts();
    if !ps.is_empty() && ps[0] == "/" {
        format!("/{}", ps[1..].join("/"))
    } else {
        ps.join("/")
    }
}

fn dirs() -> Dirs {
    Dirs { config: Some(p("/home/me/.config")), home: Some(p("/home/me")) }
}

fn effect(st: Step) -> Effect {
    match st {
        Step::Do(e) => e,
        Step::Finish(r) => panic!("run ended: {:?}", r),
    }
}

fn finished(st: Step) -> Result<Outcome, DotsyncError> {
    match st {
        Step::Finish(r) => r,
        Step::Do(e) => panic!("run asked for {:?}", e),
    }
}

fn exit(success: bool, code: i32, out: &str) -> Reply {
    Reply::Exit(ExitReport { success, code: Some(code), stdout: out.as_bytes().to_vec() })
}

fn words(c: &Command) -> Vec<String> {
    c.args
        .iter()
        .map(|a| match a {
            Arg::Text(t) => t.clone(),
            Arg::Path(x) => show(x),
        })
        .collect()
}

fn run_of(e: Effect) -> Command {
    match e {
        Effect::Run(c) => c,
        other => panic!("expected a command, got {:?}", other),
    }
}

fn path_of(e: &Effect) -> String {
    match e {
        Effect::Exists(x)
        | Effect::TryExists(x)
        | Effect::IsDir(x)
        | Effect::HasEntries(x)
        | Effect::Canonicalize(x)
        | Effect::RemoveTree(x)
        | Effect::RemoveFile(x)
        | Effect::MakeDirs(x)
        | Effect::ListDir(x)
        | Effect::ReadConfig { path: x, .. } => show(x),
        other => panic!("expected a path effect, got {:?}", other),
    }
}

fn watched() -> Config {
    Config::new(
        p("dots"),
        "git@github.com:you/dotfiles.git".to_string(),
        vec![
            Entry::new("nvim".to_string(), p("/home/me/.config/nvim")),
            Entry::new("kitty".to_string(), p("/home/me/.config/dots/kitty")),
        ],
    )
}

// ---------------------------------------------------------------- resolve

#[test]
fn resolve_prefers_the_config_directory() {
    let mut r = ResolveRun::new(p("dots"), Some(p("/home/me/.config")));
    match effect(r.resume(Reply::Done)) {
        Effect::Say(Notice::RepoCandidate(d)) => assert_eq!(show(&d), "/home/me/.config/dots"),
        other => panic!("{:?}", other),
    }
    let e = effect(r.resume(Reply::Done));
    assert!(matches!(e, Effect::Exists(_)));
    assert_eq!(path_of(&e), "/home/me/.config/dots");
    let e = effect(r.resume(Reply::Flag(true)));
    assert!(matches!(e, Effect::Canonicalize(_)));
    assert_eq!(path_of(&e), "/home/me/.config/dots");
    match finished(r.resume(Reply::Path(p("/real/dots")))) {
        Ok(Outcome::Path(x)) => assert_eq!(show(&x), "/real/dots"),
        other => panic!("{:?}", other),
    }
}

#[test]
fn resolve_falls_back_to_repo_dir() {
    let mut r = ResolveRun::new(p("/srv/dots"), Some(p("/home/me/.config")));
    r.resume(Reply::Done);
    let e = effect(r.resume(Reply::Done));
    // an absolute repo_dir replaces the config directory
    assert_eq!(path_of(&e), "/srv/dots");
    let e = effect(r.resume(Reply::Flag(false)));
    assert_eq!(path_of(&e), "/srv/dots");
    match finished(r.resume(Reply::Failed("missing".to_string()))) {
        Err(DotsyncError::Canonicalize { path, reason }) => {
            assert_eq!(show(&path), "/srv/dots");
            assert_eq!(reason, "missing");
        },
        other => panic!("{:?}", other),
    }
}

#[test]
fn resolve_without_config_dir() {
    let mut r = ResolveRun::new(p("dots"), None);
    assert!(matches!(finished(r.resume(Reply::Done)), Err(DotsyncError::NoConfigDir)));
    assert!(matches!(finished(r.resume(Reply::Done)), Err(DotsyncError::UnexpectedReply)));
}

// ---------------------------------------------------------------- push

fn push_to_entries(r: &mut PushRun) {
    match effect(r.resume(Reply::Done)) {
        Effect::Say(Notice::RepoCandidate(d)) => assert_eq!(show(&d), "/home/me/.config/dots"),
        other => panic!("{:?}", other),
    }
    assert_eq!(path_of(&effect(r.resume(Reply::Done))), "/home/me/.config/dots");
    assert_eq!(path_of(&effect(r.resume(Reply::Flag(true)))), "/home/me/.config/dots");
    let e = effect(r.resume(Reply::Path(p("/home/me/.config/dots"))));
    assert!(matches!(e, Effect::Canonicalize(_)));
    assert_eq!(path_of(&e), "/home/me/.config/nvim");
}

#[test]
fn push_copies_commits_and_pushes() {
    let mut r = PushRun::new(watched(), dirs());
    push_to_entries(&mut r);
    let e = effect(r.resume(Reply::Path(p("/home/me/.config/nvim"))));
    assert!(matches!(e, Effect::IsDir(_)));
    assert_eq!(path_of(&e), "/home/me/.config/dots/nvim");
    let e = effect(r.resume(Reply::Flag(true)));
    assert!(matches!(e, Effect::RemoveTree(_)));
    assert_eq!(path_of(&e), "/home/me/.config/dots/nvim");
    // the copy: a directory with one file
    let e = effect(r.resume(Reply::Done));
    assert!(matches!(e, Effect::IsDir(_)));
    assert_eq!(path_of(&e), "/home/me/.config/nvim");
    let e = effect(r.resume(Reply::Flag(true)));
    assert!(matches!(e, Effect::MakeDirs(_)));
    assert_eq!(path_of(&e), "/home/me/.config/dots/nvim");
    let e = effect(r.resume(Reply::Done));
    assert!(matches!(e, Effect::ListDir(_)));
    let e = effect(r.resume(Reply::Names(vec!["init.lua".to_string()])));
    assert_eq!(path_of(&e), "/home/me/.config/nvim/init.lua");
    let e = effect(r.resume(Reply::Flag(false)));
    assert!(matches!(e, Effect::MakeDirs(_)));
    assert_eq!(path_of(&e), "/home/me/.config/dots/nvim");
    match effect(r.resume(Reply::Done)) {
        Effect::CopyFile { from, to } => {
            assert_eq!(show(&from), "/home/me/.config/nvim/init.lua");
            assert_eq!(show(&to), "/home/me/.config/dots/nvim/init.lua");
        },
        other => panic!("{:?}", other),
    }
    // second entry already lives inside the repository
    let e = effect(r.resume(Reply::Done));
    assert_eq!(path_of(&e), "/home/me/.config/dots/kitty");
    match effect(r.resume(Reply::Path(p("/home/me/.config/dots/kitty")))) {
        Effect::WriteConfig { path, config, announce } => {
            assert_eq!(show(&path), "/home/me/.config/dots/dotsync.toml");
            assert!(!announce);
            assert_eq!(show(&config.entry(0).source()), "~/.config/nvim");
            assert_eq!(show(&config.entry(1).source()), "~/.config/dots/kitty");
            assert_eq!(show(&config.repo_dir()), "dots");
        },
        other => panic!("{:?}", other),
    }
    let c = run_of(effect(r.resume(Reply::Done)));
    assert_eq!(words(&c), vec!["status", "--porcelain"]);
    assert!(c.capture);
    assert_eq!(show(c.dir.as_ref().unwrap()), "/home/me/.config/dots");
    let c = run_of(effect(r.resume(exit(true, 0, " M nvim/init.lua\n"))));
    assert_eq!(words(&c), vec!["add", "-A"]);
    assert!(!c.capture);
    assert!(matches!(effect(r.resume(exit(true, 0, ""))), Effect::Clock));
    let c = run_of(effect(r.resume(Reply::Number(1700000000))));
    assert_eq!(words(&c), vec!["commit", "-m", "sync 1700000000"]);
    let c = run_of(effect(r.resume(exit(true, 0, ""))));
    assert_eq!(words(&c), vec!["push"]);
    assert_eq!(c.program, Program::Git);
    match effect(r.resume(exit(true, 0, ""))) {
        Effect::Say(Notice::Synced(names)) => assert_eq!(names, vec!["nvim", "kitty"]),
        other => panic!("{:?}", other),
    }
    assert!(matches!(finished(r.resume(Reply::Done)), Ok(Outcome::Nothing)));
}

#[test]
fn push_commit_message_small_timestamp() {
    let c = Config::new(p("/repo"), String::new(), vec![]);
    let mut r = PushRun::new(c, dirs());
    r.resume(Reply::Done);
    r.resume(Reply::Done);
    r.resume(Reply::Flag(false));
    assert!(matches!(effect(r.resume(Reply::Path(p("/repo")))), Effect::WriteConfig { .. }));
    r.resume(Reply::Done);
    r.resume(exit(true, 0, "?? x\n"));
    r.resume(exit(true, 0, ""));
    let c = run_of(effect(r.resume(Reply::Number(0))));
    assert_eq!(words(&c), vec!["commit", "-m", "sync 0"]);
    // no remote: nothing is pushed
    match effect(r.resume(exit(true, 0, ""))) {
        Effect::Say(Notice::Synced(names)) => assert!(names.is_empty()),
        other => panic!("{:?}", other),
    }
}

fn push_to_add() -> PushRun {
    let c = Config::new(p("/repo"), "r".to_string(), vec![]);
    let mut r = PushRun::new(c, dirs());
    r.resume(Reply::Done);
    r.resume(Reply::Done);
    r.resume(Reply::Flag(false));
    r.resume(Reply::Path(p("/repo")));
    r.resume(Reply::Done);
    let c = run_of(effect(r.resume(exit(true, 0, "?? x\n"))));
    assert_eq!(words(&c), vec!["add", "-A"]);
    r
}

#[test]
fn push_fails_when_git_add_fails() {
    let mut r = push_to_add();
    assert!(matches!(
        finished(r.resume(exit(false, 128, ""))),
        Err(DotsyncError::GitFailed { step: GitStep::Add })
    ));
}

#[test]
fn push_fails_when_git_commit_fails() {
    let mut r = push_to_add();
    r.resume(exit(true, 0, ""));
    r.resume(Reply::Number(5));
    assert!(matches!(
        finished(r.resume(exit(false, 1, ""))),
        Err(DotsyncError::GitFailed { step: GitStep::Commit })
    ));
}

#[test]
fn push_fails_when_git_push_fails() {
    let mut r = push_to_add();
    r.resume(exit(true, 0, ""));
    r.resume(Reply::Number(5));
    let c = run_of(effect(r.resume(exit(true, 0, ""))));
    assert_eq!(words(&c), vec!["push"]);
    assert!(matches!(
        finished(r.resume(exit(false, 1, ""))),
        Err(DotsyncError::GitFailed { step: GitStep::Push })
    ));
}

#[test]
fn push_with_nothing_to_commit() {
    let c = Config::new(p("/repo"), "r".to_string(), vec![]);
    let mut r = PushRun::new(c, dirs());
    r.resume(Reply::Done);
    r.resume(Reply::Done);
    r.resume(Reply::Flag(false));
    r.resume(Reply::Path(p("/repo")));
    r.resume(Reply::Done);
    assert!(matches!(effect(r.resume(exit(true, 0, ""))), Effect::Say(Notice::NothingToCommit)));
    assert!(matches!(finished(r.resume(Reply::Done)), Ok(Outcome::Nothing)));
}

#[test]
fn push_refuses_a_name_that_escapes() {
    let c = Config::new(p("/repo"), String::new(), vec![Entry::new("/etc".to_string(), p("/home/me/x"))]);
    let mut r = PushRun::new(c, dirs());
    r.resume(Reply::Done);
    r.resume(Reply::Done);
    r.resume(Reply::Flag(false));
    r.resume(Reply::Path(p("/repo")));
    match finished(r.resume(Reply::Path(p("/home/me/x")))) {
        Err(DotsyncError::NameEscapesRepo { name }) => assert_eq!(name, "/etc"),
        other => panic!("{:?}", other),
    }
}

fn push_name_outcome(name: &str) -> Result<Outcome, DotsyncError> {
    let c = Config::new(p("/repo"), String::new(), vec![Entry::new(name.to_string(), p("/home/me/x"))]);
    let mut r = PushRun::new(c, dirs());
    r.resume(Reply::Done);
    r.resume(Reply::Done);
    r.resume(Reply::Flag(false));
    r.resume(Reply::Path(p("/repo")));
    finished(r.resume(Reply::Path(p("/home/me/x"))))
}

#[test]
fn push_refuses_a_name_that_climbs_out_of_the_repo() {
    match push_name_outcome("../x") {
        Err(DotsyncError::NameEscapesRepo { name }) => assert_eq!(name, "../x"),
        other => panic!("{:?}", other),
    }
    assert!(matches!(push_name_outcome("a/../../x"), Err(DotsyncError::NameEscapesRepo { .. })));
}

#[test]
fn push_refuses_a_name_that_is_the_repo_itself() {
    assert!(matches!(push_name_outcome(""), Err(DotsyncError::NameEscapesRepo { .. })));
    assert!(matches!(push_name_outcome("."), Err(DotsyncError::NameEscapesRepo { .. })));
}

#[test]
fn push_accepts_a_nested_name() {
    let c = Config::new(p("/repo"), String::new(), vec![Entry::new("a/b".to_string(), p("/home/me/x"))]);
    let mut r = PushRun::new(c, dirs());
    r.resume(Reply::Done);
    r.resume(Reply::Done);
    r.resume(Reply::Flag(false));
    r.resume(Reply::Path(p("/repo")));
    let e = effect(r.resume(Reply::Path(p("/home/me/x"))));
    assert!(matches!(e, Effect::IsDir(_)));
    assert_eq!(path_of(&e), "/repo/a/b");
}

#[test]
fn push_reports_missing_source() {
    let mut r = PushRun::new(watched(), dirs());
    push_to_entries(&mut r);
    match finished(r.resume(Reply::Failed("No such file".to_string()))) {
        Err(DotsyncError::SourceMissing { source, reason }) => {
            assert_eq!(show(&source), "/home/me/.config/nvim");
            assert_eq!(reason, "No such file");
        },
        other => panic!("{:?}", other),
    }
}

#[test]
fn push_removes_old_file_then_reports_copy_failure() {
    let mut r = PushRun::new(watched(), dirs());
    push_to_entries(&mut r);
    r.resume(Reply::Path(p("/home/me/.config/nvim")));
    assert!(matches!(effect(r.resume(Reply::Flag(false))), Effect::Exists(_)));
    assert!(matches!(effect(r.resume(Reply::Flag(true))), Effect::RemoveFile(_)));
    assert!(matches!(effect(r.resume(Reply::Done)), Effect::IsDir(_)));
    r.resume(Reply::Flag(false));
    match finished(r.resume(Reply::Failed("denied".to_string()))) {
        Err(DotsyncError::CopyFailed { from, to, reason }) => {
            assert_eq!(show(&from), "/home/me/.config/nvim");
            assert_eq!(show(&to), "/home/me/.config/dots/nvim");
            assert_eq!(reason, "denied");
        },
        other => panic!("{:?}", other),
    }
}

#[test]
fn push_reports_failed_removal() {
    let mut r = PushRun::new(watched(), dirs());
    push_to_entries(&mut r);
    r.resume(Reply::Path(p("/home/me/.config/nvim")));
    r.resume(Reply::Flag(true));
    match finished(r.resume(Reply::Failed("busy".to_string()))) {
        Err(DotsyncError::RemoveFailed { path, .. }) => assert_eq!(show(&path), "/home/me/.config/dots/nvim"),
        other => panic!("{:?}", other),
    }
}

#[test]
fn push_without_home_cannot_write_manifest() {
    let c = Config::new(p("/repo"), String::new(), vec![]);
    let mut r = PushRun::new(c, Dirs { config: Some(p("/home/me/.config")), home: None });
    r.resume(Reply::Done);
    r.resume(Reply::Done);
    r.resume(Reply::Flag(false));
    assert!(matches!(finished(r.resume(Reply::Path(p("/repo")))), Err(DotsyncError::NoHomeDir)));
}

#[test]
fn push_reports_manifest_write_failure() {
    let c = Config::new(p("/repo"), String::new(), vec![]);
    let mut r = PushRun::new(c, dirs());
    r.resume(Reply::Done);
    r.resume(Reply::Done);
    r.resume(Reply::Flag(false));
    r.resume(Reply::Path(p("/repo")));
    match finished(r.resume(Reply::Failed("read-only".to_string()))) {
        Err(DotsyncError::WriteFailed { path, .. }) => assert_eq!(show(&path), "/repo/dotsync.toml"),
        other => panic!("{:?}", other),
    }
}

#[test]
fn push_reports_git_that_cannot_start() {
    let c = Config::new(p("/repo"), String::new(), vec![]);
    let mut r = PushRun::new(c, dirs());
    r.resume(Reply::Done);
    r.resume(Reply::Done);
    r.resume(Reply::Flag(false));
    r.resume(Reply::Path(p("/repo")));
    r.resume(Reply::Done);
    match finished(r.resume(Reply::Failed("no git".to_string()))) {
        Err(DotsyncError::Io { reason }) => assert_eq!(reason, "no git"),
        other => panic!("{:?}", other),
    }
}

#[test]
fn push_rejects_a_wrong_reply() {
    let mut r = PushRun::new(watched(), dirs());
    r.resume(Reply::Done);
    assert!(matches!(finished(r.resume(Reply::Number(3))), Err(DotsyncError::UnexpectedReply)));
}

// ---------------------------------------------------------------- sync and pull

#[test]
fn sync_stops_on_failed_rebase() {
    let mut r = SyncRun::new(watched(), dirs());
    r.resume(Reply::Done);
    r.resume(Reply::Done);
    r.resume(Reply::Flag(true));
    let c = run_of(effect(r.resume(Reply::Path(p("/home/me/.config/dots")))));
    assert_eq!(words(&c), vec!["pull", "--rebase"]);
    match finished(r.resume(exit(false, 1, ""))) {
        Err(DotsyncError::RebaseFailed { repo_dir }) => assert_eq!(show(&repo_dir), "/home/me/.config/dots"),
        other => panic!("{:?}", other),
    }
}

#[test]
fn sync_pushes_after_rebase() {
    let mut r = SyncRun::new(watched(), dirs());
    r.resume(Reply::Done);
    r.resume(Reply::Done);
    r.resume(Reply::Flag(true));
    r.resume(Reply::Path(p("/home/me/.config/dots")));
    // push starts over by resolving the repository
    assert!(matches!(effect(r.resume(exit(true, 0, ""))), Effect::Say(Notice::RepoCandidate(_))));
    let e = effect(r.resume(Reply::Done));
    assert!(matches!(e, Effect::Exists(_)));
    assert_eq!(path_of(&e), "/home/me/.config/dots");
}

#[test]
fn pull_fails_when_git_pull_fails() {
    let mut r = PullRun::new(&watched(), dirs());
    r.resume(Reply::Done);
    r.resume(Reply::Done);
    r.resume(Reply::Flag(true));
    let c = run_of(effect(r.resume(Reply::Path(p("/home/me/.config/dots")))));
    assert_eq!(words(&c), vec!["pull"]);
    assert!(matches!(finished(r.resume(exit(false, 1, ""))), Err(DotsyncError::PullFailed)));
}

#[test]
fn pull_restores_after_pull() {
    let mut r = PullRun::new(&watched(), dirs());
    r.resume(Reply::Done);
    r.resume(Reply::Done);
    r.resume(Reply::Flag(true));
    r.resume(Reply::Path(p("/repo")));
    let e = effect(r.resume(exit(true, 0, "")));
    assert!(matches!(e, Effect::Exists(_)));
    assert_eq!(path_of(&e), "/repo/dotsync.toml");
    r.resume(Reply::Flag(true));
    let manifest = Config::new(p("dots"), "u".to_string(), vec![]);
    // no entries: the manifest is saved as the local config
    assert!(matches!(effect(r.resume(Reply::Loaded(manifest))), Effect::MakeDirs(_)));
    assert!(matches!(effect(r.resume(Reply::Done)), Effect::WriteConfig { announce: true, .. }));
    match effect(r.resume(Reply::Done)) {
        Effect::Say(Notice::Restored(names)) => assert!(names.is_empty()),
        other => panic!("{:?}", other),
    }
    assert!(matches!(finished(r.resume(Reply::Done)), Ok(Outcome::Nothing)));
}

// ---------------------------------------------------------------- restore

fn manifest() -> Config {
    Config::new(
        p(".config"),
        "git@github.com:you/dotfiles.git".to_string(),
        vec![
            Entry::new("nvim".to_string(), p("~/.config/nvim")),
            Entry::new("inside".to_string(), p("/repo/inside")),
        ],
    )
}

#[test]
fn restore_expands_home_and_copies_back() {
    let mut r = RestoreRun::new(p("/repo"), Dirs { config: Some(p("/cfg")), home: Some(p("/Users/other")) });
    r.resume(Reply::Done);
    let e = effect(r.resume(Reply::Flag(true)));
    assert!(matches!(e, Effect::ReadConfig { announce: false, .. }));
    assert_eq!(path_of(&e), "/repo/dotsync.toml");
    let e = effect(r.resume(Reply::Loaded(manifest())));
    assert!(matches!(e, Effect::Canonicalize(_)));
    assert_eq!(path_of(&e), "/repo/nvim");
    let e = effect(r.resume(Reply::Path(p("/repo/nvim"))));
    assert!(matches!(e, Effect::IsDir(_)));
    assert_eq!(path_of(&e), "/Users/other/.config/nvim");
    assert!(matches!(effect(r.resume(Reply::Flag(false))), Effect::Exists(_)));
    let e = effect(r.resume(Reply::Flag(false)));
    assert!(matches!(e, Effect::MakeDirs(_)));
    assert_eq!(path_of(&e), "/Users/other/.config");
    let e = effect(r.resume(Reply::Done));
    assert_eq!(path_of(&e), "/repo/nvim");
    let e = effect(r.resume(Reply::Flag(false)));
    assert_eq!(path_of(&e), "/Users/other/.config");
    match effect(r.resume(Reply::Done)) {
        Effect::CopyFile { from, to } => {
            assert_eq!(show(&from), "/repo/nvim");
            assert_eq!(show(&to), "/Users/other/.config/nvim");
        },
        other => panic!("{:?}", other),
    }
    // the second entry lives inside the repository: nothing to copy; the
    // manifest, now with this machine's paths, is saved as the local config
    let e = effect(r.resume(Reply::Done));
    assert!(matches!(e, Effect::MakeDirs(_)));
    assert_eq!(path_of(&e), "/cfg/dotsync");
    match effect(r.resume(Reply::Done)) {
        Effect::WriteConfig { path, config, announce } => {
            assert_eq!(show(&path), "/cfg/dotsync/config.toml");
            assert!(announce);
            assert_eq!(show(&config.repo_dir()), "/repo");
            assert_eq!(show(&config.entry(0).source()), "/Users/other/.config/nvim");
        },
        other => panic!("{:?}", other),
    }
    match finished(r.resume(Reply::Done)) {
        Ok(Outcome::Names(names)) => assert_eq!(names, vec!["nvim", "inside"]),
        other => panic!("{:?}", other),
    }
}

#[test]
fn restore_needs_a_manifest() {
    let mut r = RestoreRun::new(p("/repo"), dirs());
    r.resume(Reply::Done);
    match finished(r.resume(Reply::Flag(false))) {
        Err(DotsyncError::ManifestMissing { path }) => assert_eq!(show(&path), "/repo/dotsync.toml"),
        other => panic!("{:?}", other),
    }
}

#[test]
fn restore_reports_unreadable_manifest() {
    let mut r = RestoreRun::new(p("/repo"), dirs());
    r.resume(Reply::Done);
    r.resume(Reply::Flag(true));
    assert!(matches!(
        finished(r.resume(Reply::Failed("bad toml".to_string()))),
        Err(DotsyncError::ManifestUnreadable { .. })
    ));
}

#[test]
fn restore_needs_home() {
    let mut r = RestoreRun::new(p("/repo"), Dirs { config: Some(p("/cfg")), home: None });
    r.resume(Reply::Done);
    r.resume(Reply::Flag(true));
    assert!(matches!(finished(r.resume(Reply::Loaded(manifest()))), Err(DotsyncError::NoHomeDir)));
}

#[test]
fn restore_refuses_copy_outside_repo() {
    let mut r = RestoreRun::new(p("/repo"), dirs());
    r.resume(Reply::Done);
    r.resume(Reply::Flag(true));
    r.resume(Reply::Loaded(manifest()));
    match finished(r.resume(Reply::Path(p("/etc/nvim")))) {
        Err(DotsyncError::PathEscapesRepo { name }) => assert_eq!(name, "nvim"),
        other => panic!("{:?}", other),
    }
}

#[test]
fn restore_reports_entry_missing_in_repo() {
    let mut r = RestoreRun::new(p("/repo"), dirs());
    r.resume(Reply::Done);
    r.resume(Reply::Flag(true));
    r.resume(Reply::Loaded(manifest()));
    match finished(r.resume(Reply::Failed("gone".to_string()))) {
        Err(DotsyncError::NotInRepo { name, origin, .. }) => {
            assert_eq!(name, "nvim");
            assert_eq!(show(&origin), "/repo/nvim");
        },
        other => panic!("{:?}", other),
    }
}

#[test]
fn restore_reports_copy_failure_by_name() {
    let mut r = RestoreRun::new(p("/repo"), dirs());
    r.resume(Reply::Done);
    r.resume(Reply::Flag(true));
    r.resume(Reply::Loaded(manifest()));
    r.resume(Reply::Path(p("/repo/nvim")));
    assert!(matches!(effect(r.resume(Reply::Flag(true))), Effect::RemoveTree(_)));
    r.resume(Reply::Done);
    r.resume(Reply::Done);
    r.resume(Reply::Flag(false));
    r.resume(Reply::Done);
    match finished(r.resume(Reply::Failed("disk full".to_string()))) {
        Err(DotsyncError::RestoreFailed { name, reason }) => {
            assert_eq!(name, "nvim");
            assert_eq!(reason, "disk full");
        },
        other => panic!("{:?}", other),
    }
}

#[test]
fn restore_reports_parent_dir_failure() {
    let mut r = RestoreRun::new(p("/repo"), dirs());
    r.resume(Reply::Done);
    r.resume(Reply::Flag(true));
    r.resume(Reply::Loaded(manifest()));
    r.resume(Reply::Path(p("/repo/nvim")));
    r.resume(Reply::Flag(false));
    r.resume(Reply::Flag(false));
    assert!(matches!(finished(r.resume(Reply::Failed("no".to_string()))), Err(DotsyncError::Io { .. })));
}

#[test]
fn restore_reports_config_dir_failures_on_save() {
    let c = Config::new(p("r"), String::new(), vec![]);
    let mut r = RestoreRun::new(p("/repo"), dirs());
    r.resume(Reply::Done);
    r.resume(Reply::Flag(true));
    r.resume(Reply::Loaded(c));
    match finished(r.resume(Reply::Failed("perm".to_string()))) {
        Err(DotsyncError::MakeDirsFailed { path, .. }) => assert_eq!(show(&path), "/home/me/.config/dotsync"),
        other => panic!("{:?}", other),
    }
}

// ---------------------------------------------------------------- clone

#[test]
fn clone_refuses_when_config_exists() {
    let mut r = CloneRun::new(CloneArgs { remote: "u".to_string(), repo_dir: None }, dirs());
    let e = effect(r.resume(Reply::Done));
    assert_eq!(path_of(&e), "/home/me/.config/dotsync/config.toml");
    assert!(matches!(finished(r.resume(Reply::Flag(true))), Err(DotsyncError::ConfigExists)));
}

#[test]
fn clone_defaults_to_home_dotsync_and_restores() {
    let mut r = CloneRun::new(CloneArgs { remote: "git@h:me/d.git".to_string(), repo_dir: None }, dirs());
    r.resume(Reply::Done);
    let e = effect(r.resume(Reply::Flag(false)));
    assert_eq!(path_of(&e), "/home/me/dotsync");
    let c = run_of(effect(r.resume(Reply::Flag(false))));
    assert_eq!(words(&c), vec!["clone", "git@h:me/d.git", "/home/me/dotsync"]);
    assert!(c.dir.is_none());
    let e = effect(r.resume(exit(true, 0, "")));
    assert!(matches!(e, Effect::Canonicalize(_)));
    let e = effect(r.resume(Reply::Path(p("/home/me/dotsync"))));
    assert_eq!(path_of(&e), "/home/me/dotsync/dotsync.toml");
    r.resume(Reply::Flag(true));
    r.resume(Reply::Loaded(Config::new(p("x"), String::new(), vec![])));
    r.resume(Reply::Done);
    match effect(r.resume(Reply::Done)) {
        Effect::Say(Notice::ClonedAndRestored(names)) => assert!(names.is_empty()),
        other => panic!("{:?}", other),
    }
    assert!(matches!(finished(r.resume(Reply::Done)), Ok(Outcome::Nothing)));
}

#[test]
fn clone_refuses_non_empty_target() {
    let mut r = CloneRun::new(CloneArgs { remote: "u".to_string(), repo_dir: Some(p("/tmp/d")) }, dirs());
    r.resume(Reply::Done);
    assert_eq!(path_of(&effect(r.resume(Reply::Flag(false)))), "/tmp/d");
    assert!(matches!(effect(r.resume(Reply::Flag(true))), Effect::HasEntries(_)));
    match finished(r.resume(Reply::Flag(true))) {
        Err(DotsyncError::RepoDirNotEmpty { path }) => assert_eq!(show(&path), "/tmp/d"),
        other => panic!("{:?}", other),
    }
}

#[test]
fn clone_reports_failed_clone() {
    let mut r = CloneRun::new(CloneArgs { remote: "u".to_string(), repo_dir: Some(p("/tmp/d")) }, dirs());
    r.resume(Reply::Done);
    r.resume(Reply::Flag(false));
    r.resume(Reply::Flag(true));
    r.resume(Reply::Flag(false));
    assert!(matches!(finished(r.resume(exit(false, 128, ""))), Err(DotsyncError::CloneFailed)));
}

#[test]
fn clone_without_home_or_config_dir() {
    let mut r = CloneRun::new(
        CloneArgs { remote: "u".to_string(), repo_dir: None },
        Dirs { config: Some(p("/cfg")), home: None },
    );
    r.resume(Reply::Done);
    assert!(matches!(finished(r.resume(Reply::Flag(false))), Err(DotsyncError::NoHomeDir)));
    let mut r = CloneRun::new(CloneArgs { remote: "u".to_string(), repo_dir: None }, Dirs { config: None, home: None });
    assert!(matches!(finished(r.resume(Reply::Done)), Err(DotsyncError::NoConfigDir)));
}

// ---------------------------------------------------------------- add

fn add_run(name: &str) -> AddRun {
    AddRun::new(EntryArgs { name: name.to_string(), source: p("/home/me/.zshrc") }, Some(p("/home/me/.config")))
}

#[test]
fn add_appends_and_saves() {
    let mut r = add_run("zsh");
    let e = effect(r.resume(Reply::Done));
    assert!(matches!(e, Effect::ReadConfig { announce: true, .. }));
    assert_eq!(path_of(&e), "/home/me/.config/dotsync/config.toml");
    let e = effect(r.resume(Reply::Loaded(watched())));
    assert!(matches!(e, Effect::TryExists(_)));
    assert_eq!(path_of(&e), "/home/me/.zshrc");
    r.resume(Reply::Flag(true));
    match effect(r.resume(Reply::Done)) {
        Effect::WriteConfig { config, .. } => {
            assert_eq!(config.entry_count(), 3);
            assert_eq!(config.entry(2).name(), "zsh");
        },
        other => panic!("{:?}", other),
    }
    assert!(matches!(finished(r.resume(Reply::Done)), Ok(Outcome::Nothing)));
}

#[test]
fn add_rejects_missing_source() {
    let mut r = add_run("zsh");
    r.resume(Reply::Done);
    r.resume(Reply::Loaded(watched()));
    match finished(r.resume(Reply::Flag(false))) {
        Err(DotsyncError::SourceNotFound { source }) => assert_eq!(show(&source), "/home/me/.zshrc"),
        other => panic!("{:?}", other),
    }
}

#[test]
fn add_rejects_duplicate_name() {
    let mut r = add_run("nvim");
    r.resume(Reply::Done);
    r.resume(Reply::Loaded(watched()));
    match finished(r.resume(Reply::Flag(true))) {
        Err(DotsyncError::EntryExists { name }) => assert_eq!(name, "nvim"),
        other => panic!("{:?}", other),
    }
}

#[test]
fn add_makes_a_relative_source_absolute() {
    let mut r = AddRun::new(EntryArgs { name: "zsh".to_string(), source: p(".zshrc") }, Some(p("/home/me/.config")));
    r.resume(Reply::Done);
    r.resume(Reply::Loaded(watched()));
    let e = effect(r.resume(Reply::Flag(true)));
    assert!(matches!(e, Effect::Canonicalize(_)));
    assert_eq!(path_of(&e), ".zshrc");
    assert!(matches!(effect(r.resume(Reply::Path(p("/home/me/.zshrc")))), Effect::MakeDirs(_)));
    match effect(r.resume(Reply::Done)) {
        Effect::WriteConfig { config, .. } => {
            assert_eq!(config.entry_count(), 3);
            assert_eq!(config.entry(2).name(), "zsh");
            assert_eq!(show(&config.entry(2).source()), "/home/me/.zshrc");
        },
        other => panic!("{:?}", other),
    }
}

#[test]
fn add_reports_a_source_that_cannot_be_made_absolute() {
    let mut r = AddRun::new(EntryArgs { name: "zsh".to_string(), source: p(".zshrc") }, Some(p("/home/me/.config")));
    r.resume(Reply::Done);
    r.resume(Reply::Loaded(watched()));
    r.resume(Reply::Flag(true));
    match finished(r.resume(Reply::Failed("gone".to_string()))) {
        Err(DotsyncError::Canonicalize { path, reason }) => {
            assert_eq!(show(&path), ".zshrc");
            assert_eq!(reason, "gone");
        },
        other => panic!("{:?}", other),
    }
}

#[test]
fn add_rejects_duplicate_name_before_absolutizing() {
    let mut r = AddRun::new(EntryArgs { name: "nvim".to_string(), source: p("rel") }, Some(p("/home/me/.config")));
    r.resume(Reply::Done);
    r.resume(Reply::Loaded(watched()));
    assert!(matches!(finished(r.resume(Reply::Flag(true))), Err(DotsyncError::EntryExists { .. })));
}

#[test]
fn add_reports_unreadable_config() {
    let mut r = add_run("zsh");
    r.resume(Reply::Done);
    match finished(r.resume(Reply::Failed("parse".to_string()))) {
        Err(DotsyncError::ConfigUnreadable { path, .. }) => assert_eq!(show(&path), "/home/me/.config/dotsync/config.toml"),
        other => panic!("{:?}", other),
    }
}

// ---------------------------------------------------------------- diff

#[test]
fn diff_flags_missing_copies_and_shows_differences() {
    let mut r = DiffRun::new(watched(), Some(p("/home/me/.config")));
    r.resume(Reply::Done);
    r.resume(Reply::Done);
    r.resume(Reply::Flag(true));
    r.resume(Reply::Path(p("/home/me/.config/dots")));
    let e = effect(r.resume(Reply::Path(p("/home/me/.config/nvim"))));
    assert!(matches!(e, Effect::Exists(_)));
    assert_eq!(path_of(&e), "/home/me/.config/dots/nvim");
    let c = run_of(effect(r.resume(Reply::Flag(true))));
    assert_eq!(c.program, Program::Diff);
    assert_eq!(words(&c), vec!["-ru", "/home/me/.config/nvim", "/home/me/.config/dots/nvim"]);
    match effect(r.resume(exit(false, 1, "--- a\n+++ b\n"))) {
        Effect::Show(bytes) => assert_eq!(bytes, b"--- a\n+++ b\n".to_vec()),
        other => panic!("{:?}", other),
    }
    r.resume(Reply::Done);
    let c = run_of(effect(r.resume(Reply::Path(p("/home/me/.config/dots/kitty")))));
    assert_eq!(words(&c), vec!["diff", "HEAD"]);
    assert!(matches!(finished(r.resume(exit(true, 0, ""))), Ok(Outcome::Nothing)));
}

#[test]
fn diff_says_when_nothing_differs() {
    let mut r = DiffRun::new(watched(), Some(p("/home/me/.config")));
    r.resume(Reply::Done);
    r.resume(Reply::Done);
    r.resume(Reply::Flag(true));
    r.resume(Reply::Path(p("/home/me/.config/dots")));
    r.resume(Reply::Path(p("/home/me/.config/nvim")));
    r.resume(Reply::Flag(true));
    r.resume(exit(true, 0, ""));
    r.resume(Reply::Path(p("/home/me/.config/dots/kitty")));
    assert!(matches!(effect(r.resume(exit(true, 0, ""))), Effect::Say(Notice::NoDifferences)));
    assert!(matches!(finished(r.resume(Reply::Done)), Ok(Outcome::Nothing)));
}

#[test]
fn diff_notes_entries_not_in_repo() {
    let mut r = DiffRun::new(watched(), Some(p("/home/me/.config")));
    r.resume(Reply::Done);
    r.resume(Reply::Done);
    r.resume(Reply::Flag(true));
    r.resume(Reply::Path(p("/home/me/.config/dots")));
    r.resume(Reply::Path(p("/home/me/.config/nvim")));
    match effect(r.resume(Reply::Flag(false))) {
        Effect::Say(Notice::NotInRepoYet(name)) => assert_eq!(name, "nvim"),
        other => panic!("{:?}", other),
    }
    r.resume(Reply::Done);
    r.resume(Reply::Path(p("/home/me/.config/dots/kitty")));
    // a difference was flagged: no "no differences" message
    assert!(matches!(finished(r.resume(exit(true, 0, ""))), Ok(Outcome::Nothing)));
}

#[test]
fn diff_fails_on_trouble_exit_code() {
    let mut r = DiffRun::new(watched(), Some(p("/home/me/.config")));
    r.resume(Reply::Done);
    r.resume(Reply::Done);
    r.resume(Reply::Flag(true));
    r.resume(Reply::Path(p("/home/me/.config/dots")));
    r.resume(Reply::Path(p("/home/me/.config/nvim")));
    r.resume(Reply::Flag(true));
    match finished(r.resume(exit(false, 2, ""))) {
        Err(DotsyncError::DiffFailed { name }) => assert_eq!(name, "nvim"),
        other => panic!("{:?}", other),
    }
}

// ---------------------------------------------------------------- copy

#[test]
fn copy_refuses_item_names_that_are_not_file_names() {
    for bad in ["..", ".", "", "a/b"] {
        let mut r = CopyRun::new(p("/s"), p("/d"));
        r.resume(Reply::Done);
        r.resume(Reply::Flag(true));
        r.resume(Reply::Done);
        let out = finished(r.resume(Reply::Names(vec!["ok".to_string(), bad.to_string()])));
        assert!(matches!(out, Err(DotsyncError::UnexpectedReply)), "{:?}", bad);
    }
}

#[test]
fn copy_walks_directories_depth_first() {
    let mut r = CopyRun::new(p("/s"), p("/d"));
    assert_eq!(path_of(&effect(r.resume(Reply::Done))), "/s");
    assert_eq!(path_of(&effect(r.resume(Reply::Flag(true)))), "/d");
    r.resume(Reply::Done);
    let e = effect(r.resume(Reply::Names(vec!["a".to_string(), "b".to_string()])));
    assert_eq!(path_of(&e), "/s/a");
    assert_eq!(path_of(&effect(r.resume(Reply::Flag(true)))), "/d/a");
    r.resume(Reply::Done);
    let e = effect(r.resume(Reply::Names(vec!["x".to_string()])));
    assert_eq!(path_of(&e), "/s/a/x");
    r.resume(Reply::Flag(false));
    r.resume(Reply::Done);
    let e = effect(r.resume(Reply::Done));
    assert_eq!(path_of(&e), "/s/b");
    r.resume(Reply::Flag(false));
    r.resume(Reply::Done);
    assert!(matches!(finished(r.resume(Reply::Done)), Ok(Outcome::Nothing)));
}
