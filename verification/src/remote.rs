//! `check_and_set_remote_origin`: keeps the repository's `origin` pointing at a
//! reachable git remote.
use crate::config::{default_repo_in, Config, ConfigView, InitArgs};
use crate::effect::{ask, done_ok, done_with, opt_path, Arg, ArgView, Command, CommandView, Effect, EffectView, ExitReport, ExitView, Notice, NoticeView, Outcome, OutcomeView, Program, Reply, ReplyView, Step, StepView};
use crate::env::{Dirs, DirsView};
use crate::error::{DotsyncError, ErrorView, GitStep};
use crate::path::{joined, LocalPath, PathView};
use crate::store::{update_next, update_start, UpdateRun, UpdateView};
use crate::text::{lossy_text, trim_text, trimmed, utf8_lossy};
use vstd::prelude::*;

verus! {

/// `git ls-remote <url>`: whether the remote answers.
pub open spec fn ls_remote_command(url: Seq<char>) -> CommandView {
    CommandView {
        program: Program::Git,
        args: seq![ArgView::Text("ls-remote"@), ArgView::Text(url)],
        dir: None,
        capture: true,
    }
}

pub open spec fn get_url_command(dir: PathView) -> CommandView {
    CommandView {
        program: Program::Git,
        args: seq![ArgView::Text("remote"@), ArgView::Text("get-url"@), ArgView::Text("origin"@)],
        dir: Some(dir),
        capture: true,
    }
}

pub open spec fn set_url_command(dir: PathView, url: Seq<char>) -> CommandView {
    CommandView {
        program: Program::Git,
        args: seq![
            ArgView::Text("remote"@),
            ArgView::Text("set-url"@),
            ArgView::Text("origin"@),
            ArgView::Text(url),
        ],
        dir: Some(dir),
        capture: true,
    }
}

pub open spec fn add_origin_command(dir: PathView, url: Seq<char>) -> CommandView {
    CommandView {
        program: Program::Git,
        args: seq![
            ArgView::Text("remote"@),
            ArgView::Text("add"@),
            ArgView::Text("origin"@),
            ArgView::Text(url),
        ],
        dir: Some(dir),
        capture: true,
    }
}

/// Points `origin` at `url`: `set-url` when the repository has an origin,
/// `add` when it has none.
pub open spec fn origin_command(dir: PathView, has_origin: bool, url: Seq<char>) -> CommandView {
    if has_origin {
        set_url_command(dir, url)
    } else {
        add_origin_command(dir, url)
    }
}

pub open spec fn origin_step(has_origin: bool) -> GitStep {
    if has_origin {
        GitStep::SetOrigin
    } else {
        GitStep::AddOrigin
    }
}

/// What a run of `git ls-remote` says of the remote: reachable when git ran and
/// succeeded; a run that could not start counts as unreachable.
pub open spec fn reachable(r: ReplyView) -> Option<bool> {
    match r {
        ReplyView::Exit(x) => Some(x.success),
        ReplyView::Failed(_) => Some(false),
        _ => None,
    }
}

pub fn ls_remote(url: &String) -> (c: Command)
    ensures
        c@ == ls_remote_command(url@),
{
    let c = Command { program: Program::Git, args: Vec::new(), dir: None, capture: true }
        .word("ls-remote").arg(Arg::Text(url.clone()));
    assert(c@.args =~= ls_remote_command(url@).args);
    c
}

fn get_url(dir: &LocalPath) -> (c: Command)
    ensures
        c@ == get_url_command(dir@),
{
    let c = Command::git(Some(dir.duplicate()), true).word("remote").word("get-url").word("origin");
    assert(c@.args =~= get_url_command(dir@).args);
    c
}

fn set_url(dir: &LocalPath, has_origin: bool, url: &String) -> (c: Command)
    ensures
        c@ == origin_command(dir@, has_origin, url@),
{
    let verb = if has_origin { "set-url" } else { "add" };
    let c = Command::git(Some(dir.duplicate()), true).word("remote").word(verb).word("origin").arg(
        Arg::Text(url.clone()),
    );
    proof {
        if has_origin {
            assert(c@.args =~= set_url_command(dir@, url@).args);
        } else {
            assert(c@.args =~= add_origin_command(dir@, url@).args);
        }
    }
    c
}

fn origin_failed(has_origin: bool) -> (e: DotsyncError)
    ensures
        e@ == (ErrorView::GitFailed { step: origin_step(has_origin) }),
{
    if has_origin {
        DotsyncError::GitFailed { step: GitStep::SetOrigin }
    } else {
        DotsyncError::GitFailed { step: GitStep::AddOrigin }
    }
}

pub fn reachable_of(r: &Reply) -> (b: Option<bool>)
    ensures
        b == reachable(r@),
{
    match r {
        Reply::Exit(x) => Some(x.success),
        Reply::Failed(_) => Some(false),
        _ => None,
    }
}

pub enum RemotePhase {
    Start,
    /// Waiting to learn whether the given directory exists inside the config directory.
    Locating(LocalPath),
    /// Waiting for the directory notice.
    Announced,
    /// Waiting for `git remote get-url origin`.
    GettingUrl,
    /// Waiting for the notice of what `get-url` reported.
    ShownUrl(ExitReport),
    /// Waiting for `git ls-remote` on the current origin.
    CheckingCurrent,
    /// Waiting for the notice that origin needs fixing.
    Fixing,
    /// Waiting for the first `git ls-remote` on the given remote.
    Given1(String),
    /// Waiting for the second `git ls-remote` on the given remote.
    Given2(String),
    /// Waiting for `git remote set-url` to the given remote.
    Setting,
    /// Waiting for the user's URL.
    Asking,
    /// Waiting for `git ls-remote` on the user's URL.
    Checking(String),
    /// Waiting for the notice that the URL does not answer.
    Reasking,
    /// Waiting for `git remote set-url` to the user's URL.
    SettingAsked(String),
    Updating(UpdateRun),
    Closing,
    Over,
}

pub enum RemotePhaseView {
    Start,
    Locating(PathView),
    Announced,
    GettingUrl,
    ShownUrl(ExitView),
    CheckingCurrent,
    Fixing,
    Given1(Seq<char>),
    Given2(Seq<char>),
    Setting,
    Asking,
    Checking(Seq<char>),
    Reasking,
    SettingAsked(Seq<char>),
    Updating(UpdateView),
    Closing,
    Over,
}

impl View for RemotePhase {
    type V = RemotePhaseView;

    open spec fn view(&self) -> RemotePhaseView {
        match self {
            RemotePhase::Start => RemotePhaseView::Start,
            RemotePhase::Locating(p) => RemotePhaseView::Locating(p@),
            RemotePhase::Announced => RemotePhaseView::Announced,
            RemotePhase::GettingUrl => RemotePhaseView::GettingUrl,
            RemotePhase::ShownUrl(x) => RemotePhaseView::ShownUrl(x@),
            RemotePhase::CheckingCurrent => RemotePhaseView::CheckingCurrent,
            RemotePhase::Fixing => RemotePhaseView::Fixing,
            RemotePhase::Given1(u) => RemotePhaseView::Given1(u@),
            RemotePhase::Given2(u) => RemotePhaseView::Given2(u@),
            RemotePhase::Setting => RemotePhaseView::Setting,
            RemotePhase::Asking => RemotePhaseView::Asking,
            RemotePhase::Checking(u) => RemotePhaseView::Checking(u@),
            RemotePhase::Reasking => RemotePhaseView::Reasking,
            RemotePhase::SettingAsked(u) => RemotePhaseView::SettingAsked(u@),
            RemotePhase::Updating(u) => RemotePhaseView::Updating(u@),
            RemotePhase::Closing => RemotePhaseView::Closing,
            RemotePhase::Over => RemotePhaseView::Over,
        }
    }
}

/// A run of `check_and_set_remote_origin` for the `init` arguments `repo_dir`
/// and `remote`; `dir` is the directory whose origin is checked, once chosen, and
/// `has_origin` whether `git remote get-url origin` found one there.
pub struct RemoteRun {
    pub repo_dir: LocalPath,
    pub remote: Option<String>,
    pub config_dir: Option<LocalPath>,
    pub dir: LocalPath,
    pub has_origin: bool,
    pub phase: RemotePhase,
}

pub struct RemoteView {
    pub repo_dir: PathView,
    pub remote: Option<Seq<char>>,
    pub config_dir: Option<PathView>,
    pub dir: PathView,
    pub has_origin: bool,
    pub phase: RemotePhaseView,
}

pub open spec fn opt_text(t: Option<String>) -> Option<Seq<char>> {
    match t {
        Some(s) => Some(s@),
        None => None,
    }
}

impl View for RemoteRun {
    type V = RemoteView;

    open spec fn view(&self) -> RemoteView {
        RemoteView {
            repo_dir: self.repo_dir@,
            remote: opt_text(self.remote),
            config_dir: opt_path(self.config_dir),
            dir: self.dir@,
            has_origin: self.has_origin,
            phase: self.phase@,
        }
    }
}

pub open spec fn remote_start(repo_dir: PathView, remote: Option<Seq<char>>, config_dir: Option<PathView>) -> RemoteView {
    RemoteView { repo_dir, remote, config_dir, dir: Seq::empty(), has_origin: false, phase: RemotePhaseView::Start }
}

pub open spec fn remote_in(s: RemoteView, phase: RemotePhaseView) -> RemoteView {
    RemoteView { phase, ..s }
}

pub open spec fn remote_fail(s: RemoteView, e: ErrorView) -> (RemoteView, StepView) {
    (remote_in(s, RemotePhaseView::Over), done_with(e))
}

pub open spec fn remote_done(s: RemoteView) -> (RemoteView, StepView) {
    (remote_in(s, RemotePhaseView::Over), done_ok(OutcomeView::Nothing))
}

pub open spec fn remote_updating(s: RemoteView, uv: UpdateView, st: StepView) -> (RemoteView, StepView) {
    match st {
        StepView::Do(e) => (remote_in(s, RemotePhaseView::Updating(uv)), ask(e)),
        StepView::Finish(Ok(_)) => remote_done(s),
        StepView::Finish(Err(e)) => remote_fail(s, e),
    }
}

/// The config written after the user gave a new URL: the `init` directory, the
/// URL, and no entries.
pub open spec fn fresh_config(repo_dir: PathView, url: Seq<char>) -> ConfigView {
    ConfigView { repo_dir, remote: url, entries: Seq::empty() }
}

/// One step of `check_and_set_remote_origin`: an origin that answers is kept; else
/// a given remote that answers replaces it; with no remote given, the user is
/// asked until a URL answers, origin is set to it and the config updated.
pub open spec fn remote_next(s: RemoteView, r: ReplyView) -> (RemoteView, StepView) {
    let unexpected = remote_fail(s, ErrorView::UnexpectedReply);
    match s.phase {
        RemotePhaseView::Start => match s.config_dir {
            None => remote_fail(s, ErrorView::NoConfigDir),
            Some(cd) => {
                let cand = joined(cd, s.repo_dir);
                (remote_in(s, RemotePhaseView::Locating(cand)), ask(EffectView::TryExists(cand)))
            },
        },
        RemotePhaseView::Locating(cand) => match (r, s.config_dir) {
            (ReplyView::Flag(b), Some(cd)) => {
                let dir = if b {
                    cand
                } else {
                    default_repo_in(cd)
                };
                (
                    RemoteView { dir, phase: RemotePhaseView::Announced, ..s },
                    ask(EffectView::Say(NoticeView::UsingDirectory(dir))),
                )
            },
            (ReplyView::Failed(m), _) => remote_fail(s, ErrorView::Io { reason: m }),
            _ => unexpected,
        },
        RemotePhaseView::Announced => match r {
            ReplyView::Done => (
                remote_in(s, RemotePhaseView::GettingUrl),
                ask(EffectView::Run(get_url_command(s.dir))),
            ),
            _ => unexpected,
        },
        RemotePhaseView::GettingUrl => match r {
            ReplyView::Exit(x) => (
                remote_in(s, RemotePhaseView::ShownUrl(x)),
                ask(EffectView::Say(NoticeView::GetUrlOutput(x))),
            ),
            ReplyView::Failed(m) => remote_fail(s, ErrorView::Io { reason: m }),
            _ => unexpected,
        },
        RemotePhaseView::ShownUrl(x) => match r {
            ReplyView::Done => if x.success {
                (
                    RemoteView { has_origin: true, phase: RemotePhaseView::CheckingCurrent, ..s },
                    ask(EffectView::Run(ls_remote_command(trimmed(utf8_lossy(x.stdout))))),
                )
            } else {
                (remote_in(s, RemotePhaseView::Fixing), ask(EffectView::Say(NoticeView::FixingRemote)))
            },
            _ => unexpected,
        },
        RemotePhaseView::CheckingCurrent => match reachable(r) {
            Some(true) => (remote_in(s, RemotePhaseView::Closing), ask(EffectView::Say(NoticeView::RemoteOriginOk))),
            Some(false) => (remote_in(s, RemotePhaseView::Fixing), ask(EffectView::Say(NoticeView::FixingRemote))),
            None => unexpected,
        },
        RemotePhaseView::Fixing => match r {
            ReplyView::Done => match s.remote {
                Some(rm) => (
                    remote_in(s, RemotePhaseView::Given1(rm)),
                    ask(EffectView::Run(ls_remote_command(rm))),
                ),
                None => (remote_in(s, RemotePhaseView::Asking), ask(EffectView::AskUrl)),
            },
            _ => unexpected,
        },
        RemotePhaseView::Given1(rm) => match reachable(r) {
            Some(true) => (remote_in(s, RemotePhaseView::Given2(rm)), ask(EffectView::Run(ls_remote_command(rm)))),
            Some(false) => remote_done(s),
            None => unexpected,
        },
        RemotePhaseView::Given2(rm) => match reachable(r) {
            Some(true) => (
                remote_in(s, RemotePhaseView::Setting),
                ask(EffectView::Run(origin_command(s.dir, s.has_origin, rm))),
            ),
            Some(false) => remote_fail(s, ErrorView::RemoteMissing),
            None => unexpected,
        },
        RemotePhaseView::Setting => match r {
            ReplyView::Exit(x) => if x.success {
                remote_done(s)
            } else {
                remote_fail(s, ErrorView::GitFailed { step: origin_step(s.has_origin) })
            },
            ReplyView::Failed(m) => remote_fail(s, ErrorView::Io { reason: m }),
            _ => unexpected,
        },
        RemotePhaseView::Asking => match r {
            ReplyView::Text(url) => (
                remote_in(s, RemotePhaseView::Checking(url)),
                ask(EffectView::Run(ls_remote_command(url))),
            ),
            ReplyView::Failed(m) => remote_fail(s, ErrorView::Io { reason: m }),
            _ => unexpected,
        },
        RemotePhaseView::Checking(url) => match reachable(r) {
            Some(true) => (
                remote_in(s, RemotePhaseView::SettingAsked(url)),
                ask(EffectView::Run(origin_command(s.dir, s.has_origin, url))),
            ),
            Some(false) => (remote_in(s, RemotePhaseView::Reasking), ask(EffectView::Say(NoticeView::UrlUnreachable))),
            None => unexpected,
        },
        RemotePhaseView::Reasking => match r {
            ReplyView::Done => (remote_in(s, RemotePhaseView::Asking), ask(EffectView::AskUrl)),
            _ => unexpected,
        },
        RemotePhaseView::SettingAsked(url) => match r {
            ReplyView::Exit(x) => if !x.success {
                remote_fail(s, ErrorView::GitFailed { step: origin_step(s.has_origin) })
            } else {
                let (uv, st) = update_next(update_start(fresh_config(s.repo_dir, url), s.config_dir), ReplyView::Done);
                remote_updating(s, uv, st)
            },
            ReplyView::Failed(m) => remote_fail(s, ErrorView::Io { reason: m }),
            _ => unexpected,
        },
        RemotePhaseView::Updating(uv) => {
            let (uv2, st) = update_next(uv, r);
            remote_updating(s, uv2, st)
        },
        RemotePhaseView::Closing => match r {
            ReplyView::Done => remote_done(s),
            _ => unexpected,
        },
        RemotePhaseView::Over => unexpected,
    }
}

/// A run that was given a remote never reaches the phases that ask the user.
pub open spec fn given_never_asks(s: RemoteView) -> bool {
    s.remote is Some ==> !(s.phase is Asking || s.phase is Checking || s.phase is Reasking
        || s.phase is SettingAsked || s.phase is Updating)
}

/// With a remote given, `check_and_set_remote_origin` never asks the user for a
/// URL and never rewrites the stored config: every step keeps it out of those
/// phases, and none asks for a URL.
pub proof fn lemma_given_remote_never_asks(s: RemoteView, r: ReplyView)
    requires
        given_never_asks(s),
    ensures
        given_never_asks(remote_next(s, r).0),
        remote_next(s, r).0.remote == s.remote,
        s.remote is Some ==> !(remote_next(s, r).1 matches StepView::Do(EffectView::AskUrl)),
{
}

impl RemoteRun {
    pub fn new(repo_dir: LocalPath, remote: Option<String>, config_dir: Option<LocalPath>) -> (r: RemoteRun)
        ensures
            r@ == remote_start(repo_dir@, opt_text(remote), opt_path(config_dir)),
    {
        RemoteRun { repo_dir, remote, config_dir, dir: LocalPath::empty(), has_origin: false, phase: RemotePhase::Start }
    }

    fn fail(&mut self, e: DotsyncError) -> (st: Step)
        ensures
            (final(self)@, st@) == remote_fail(old(self)@, e@),
    {
        self.phase = RemotePhase::Over;
        Step::Finish(Err(e))
    }

    fn done(&mut self) -> (st: Step)
        ensures
            (final(self)@, st@) == remote_done(old(self)@),
    {
        self.phase = RemotePhase::Over;
        Step::Finish(Ok(Outcome::Nothing))
    }

    fn updating(&mut self, uv: UpdateRun, st: Step) -> (out: Step)
        ensures
            (final(self)@, out@) == remote_updating(old(self)@, uv@, st@),
    {
        match st {
            Step::Do(e) => {
                self.phase = RemotePhase::Updating(uv);
                Step::Do(e)
            },
            Step::Finish(Ok(_)) => self.done(),
            Step::Finish(Err(e)) => self.fail(e),
        }
    }

    pub fn resume(&mut self, reply: Reply) -> (st: Step)
        ensures
            (final(self)@, st@) == remote_next(old(self)@, reply@),
    {
        let mut phase = RemotePhase::Over;
        std::mem::swap(&mut phase, &mut self.phase);
        match phase {
            RemotePhase::Start => match &self.config_dir {
                None => self.fail(DotsyncError::NoConfigDir),
                Some(cd) => {
                    let cand = cd.join(&self.repo_dir);
                    let probe = cand.duplicate();
                    self.phase = RemotePhase::Locating(cand);
                    Step::Do(Effect::TryExists(probe))
                },
            },
            RemotePhase::Locating(cand) => match reply {
                Reply::Flag(b) => match &self.config_dir {
                    Some(cd) => {
                        let dir = if b {
                            cand
                        } else {
                            Config::default_repo_dir_in(cd)
                        };
                        let shown = dir.duplicate();
                        self.dir = dir;
                        self.phase = RemotePhase::Announced;
                        Step::Do(Effect::Say(Notice::UsingDirectory(shown)))
                    },
                    None => self.fail(DotsyncError::UnexpectedReply),
                },
                Reply::Failed(m) => self.fail(DotsyncError::Io { reason: m }),
                _ => self.fail(DotsyncError::UnexpectedReply),
            },
            RemotePhase::Announced => match reply {
                Reply::Done => {
                    self.phase = RemotePhase::GettingUrl;
                    Step::Do(Effect::Run(get_url(&self.dir)))
                },
                _ => self.fail(DotsyncError::UnexpectedReply),
            },
            RemotePhase::GettingUrl => match reply {
                Reply::Exit(x) => {
                    let shown = x.duplicate();
                    self.phase = RemotePhase::ShownUrl(x);
                    Step::Do(Effect::Say(Notice::GetUrlOutput(shown)))
                },
                Reply::Failed(m) => self.fail(DotsyncError::Io { reason: m }),
                _ => self.fail(DotsyncError::UnexpectedReply),
            },
            RemotePhase::ShownUrl(x) => match reply {
                Reply::Done => {
                    if x.success {
                        let text = lossy_text(&x.stdout);
                        let url = trim_text(text.as_str());
                        self.has_origin = true;
                        self.phase = RemotePhase::CheckingCurrent;
                        Step::Do(Effect::Run(ls_remote(&url)))
                    } else {
                        self.phase = RemotePhase::Fixing;
                        Step::Do(Effect::Say(Notice::FixingRemote))
                    }
                },
                _ => self.fail(DotsyncError::UnexpectedReply),
            },
            RemotePhase::CheckingCurrent => match reachable_of(&reply) {
                Some(true) => {
                    self.phase = RemotePhase::Closing;
                    Step::Do(Effect::Say(Notice::RemoteOriginOk))
                },
                Some(false) => {
                    self.phase = RemotePhase::Fixing;
                    Step::Do(Effect::Say(Notice::FixingRemote))
                },
                None => self.fail(DotsyncError::UnexpectedReply),
            },
            RemotePhase::Fixing => match reply {
                Reply::Done => match &self.remote {
                    Some(rm) => {
                        let c = ls_remote(rm);
                        self.phase = RemotePhase::Given1(rm.clone());
                        Step::Do(Effect::Run(c))
                    },
                    None => {
                        self.phase = RemotePhase::Asking;
                        Step::Do(Effect::AskUrl)
                    },
                },
                _ => self.fail(DotsyncError::UnexpectedReply),
            },
            RemotePhase::Given1(rm) => match reachable_of(&reply) {
                Some(true) => {
                    let c = ls_remote(&rm);
                    self.phase = RemotePhase::Given2(rm);
                    Step::Do(Effect::Run(c))
                },
                Some(false) => self.done(),
                None => self.fail(DotsyncError::UnexpectedReply),
            },
            RemotePhase::Given2(rm) => match reachable_of(&reply) {
                Some(true) => {
                    let c = set_url(&self.dir, self.has_origin, &rm);
                    self.phase = RemotePhase::Setting;
                    Step::Do(Effect::Run(c))
                },
                Some(false) => self.fail(DotsyncError::RemoteMissing),
                None => self.fail(DotsyncError::UnexpectedReply),
            },
            RemotePhase::Setting => match reply {
                Reply::Exit(x) => {
                    if x.success {
                        self.done()
                    } else {
                        self.fail(origin_failed(self.has_origin))
                    }
                },
                Reply::Failed(m) => self.fail(DotsyncError::Io { reason: m }),
                _ => self.fail(DotsyncError::UnexpectedReply),
            },
            RemotePhase::Asking => match reply {
                Reply::Text(url) => {
                    let c = ls_remote(&url);
                    self.phase = RemotePhase::Checking(url);
                    Step::Do(Effect::Run(c))
                },
                Reply::Failed(m) => self.fail(DotsyncError::Io { reason: m }),
                _ => self.fail(DotsyncError::UnexpectedReply),
            },
            RemotePhase::Checking(url) => match reachable_of(&reply) {
                Some(true) => {
                    let c = set_url(&self.dir, self.has_origin, &url);
                    self.phase = RemotePhase::SettingAsked(url);
                    Step::Do(Effect::Run(c))
                },
                Some(false) => {
                    self.phase = RemotePhase::Reasking;
                    Step::Do(Effect::Say(Notice::UrlUnreachable))
                },
                None => self.fail(DotsyncError::UnexpectedReply),
            },
            RemotePhase::Reasking => match reply {
                Reply::Done => {
                    self.phase = RemotePhase::Asking;
                    Step::Do(Effect::AskUrl)
                },
                _ => self.fail(DotsyncError::UnexpectedReply),
            },
            RemotePhase::SettingAsked(url) => match reply {
                Reply::Exit(x) => if !x.success {
                    self.fail(origin_failed(self.has_origin))
                } else {
                    let target = Config::new(self.repo_dir.duplicate(), url, Vec::new());
                    assert(target@.entries =~= Seq::<crate::config::EntryView>::empty());
                    let cd = match &self.config_dir {
                        Some(p) => Some(p.duplicate()),
                        None => None,
                    };
                    let mut uv = UpdateRun::new(target, cd);
                    let st = uv.resume(Reply::Done);
                    self.updating(uv, st)
                },
                Reply::Failed(m) => self.fail(DotsyncError::Io { reason: m }),
                _ => self.fail(DotsyncError::UnexpectedReply),
            },
            RemotePhase::Updating(mut uv) => {
                let st = uv.resume(reply);
                self.updating(uv, st)
            },
            RemotePhase::Closing => match reply {
                Reply::Done => self.done(),
                _ => self.fail(DotsyncError::UnexpectedReply),
            },
            RemotePhase::Over => self.fail(DotsyncError::UnexpectedReply),
        }
    }
}

impl Config {
    /// `check_and_set_remote_origin` for the `init` arguments. The user's config
    /// directory is looked up at the start.
    pub fn check_and_set_remote_origin(init_args: &InitArgs) -> (r: RemoteRun)
        ensures
            exists|cd: Option<PathView>|
                crate::env::found_dir(cd) && r@ == remote_start(
                    init_args.repo_dir@,
                    opt_text(init_args.remote),
                    cd,
                ),
    {
        let dirs = Dirs::lookup();
        let remote = match &init_args.remote {
            Some(t) => Some(t.clone()),
            None => None,
        };
        RemoteRun::new(init_args.repo_dir.duplicate(), remote, dirs.config)
    }
}

} // verus!
