//! `init`: sets up dotsync for a repository directory and a git remote.
use crate::config::{config_file_in, default_repo_in, Config, ConfigView, InitArgs};
use crate::effect::{ask, done_ok, done_with, opt_path, ArgView, Command, CommandView, Effect, EffectView, Notice, NoticeView, Outcome, OutcomeView, Program, Reply, ReplyView, Step, StepView};
use crate::env::{found_dir, Dirs};
use crate::error::{DotsyncError, ErrorView, GitStep};
use crate::path::{components, joined, LocalPath, PathView};
use crate::remote::{given_never_asks, lemma_given_remote_never_asks, ls_remote, ls_remote_command, opt_text, reachable, reachable_of, remote_next, remote_start, RemoteRun, RemoteView};
use crate::store::{load_next, load_start, save_next, save_start, LoadRun, LoadView, SaveRun, SaveView};
use vstd::prelude::*;

verus! {

pub enum InitPhase {
    Start,
    CheckingConfig,
    NotedExisting,
    NotedEmpty,
    NotedRemote,
    Asking,
    Checking(String),
    Reasking,
    Locating(LocalPath),
    /// Waiting to learn whether the directory holds `.git`.
    GitProbe(LocalPath),
    NotedGit,
    /// Waiting for the notice that the directory is no git repository.
    NotedNoGit(LocalPath),
    /// Waiting for the notice that the directory does not exist.
    Missing(LocalPath),
    /// Waiting for the directory to be created.
    Creating(LocalPath),
    /// Waiting for `git init`.
    GitInit,
    Remote(RemoteRun),
    Final,
    Loading(LoadRun),
    Saving(SaveRun),
    Closing,
    Over,
}

pub enum InitPhaseView {
    Start,
    CheckingConfig,
    NotedExisting,
    NotedEmpty,
    NotedRemote,
    Asking,
    Checking(Seq<char>),
    Reasking,
    Locating(PathView),
    GitProbe(PathView),
    NotedGit,
    NotedNoGit(PathView),
    Missing(PathView),
    Creating(PathView),
    GitInit,
    Remote(RemoteView),
    Final,
    Loading(LoadView),
    Saving(SaveView),
    Closing,
    Over,
}

impl View for InitPhase {
    type V = InitPhaseView;

    open spec fn view(&self) -> InitPhaseView {
        match self {
            InitPhase::Start => InitPhaseView::Start,
            InitPhase::CheckingConfig => InitPhaseView::CheckingConfig,
            InitPhase::NotedExisting => InitPhaseView::NotedExisting,
            InitPhase::NotedEmpty => InitPhaseView::NotedEmpty,
            InitPhase::NotedRemote => InitPhaseView::NotedRemote,
            InitPhase::Asking => InitPhaseView::Asking,
            InitPhase::Checking(u) => InitPhaseView::Checking(u@),
            InitPhase::Reasking => InitPhaseView::Reasking,
            InitPhase::Locating(p) => InitPhaseView::Locating(p@),
            InitPhase::GitProbe(p) => InitPhaseView::GitProbe(p@),
            InitPhase::NotedGit => InitPhaseView::NotedGit,
            InitPhase::NotedNoGit(p) => InitPhaseView::NotedNoGit(p@),
            InitPhase::Missing(p) => InitPhaseView::Missing(p@),
            InitPhase::Creating(p) => InitPhaseView::Creating(p@),
            InitPhase::GitInit => InitPhaseView::GitInit,
            InitPhase::Remote(r) => InitPhaseView::Remote(r@),
            InitPhase::Final => InitPhaseView::Final,
            InitPhase::Loading(l) => InitPhaseView::Loading(l@),
            InitPhase::Saving(s) => InitPhaseView::Saving(s@),
            InitPhase::Closing => InitPhaseView::Closing,
            InitPhase::Over => InitPhaseView::Over,
        }
    }
}

/// A run of `Config::init` for the arguments `repo_dir` and `remote_arg`;
/// `remote` is the remote chosen for the config.
pub struct InitRun {
    pub repo_dir: LocalPath,
    pub remote_arg: Option<String>,
    pub config_dir: Option<LocalPath>,
    pub remote: String,
    pub phase: InitPhase,
}

pub struct InitView {
    pub repo_dir: PathView,
    pub remote_arg: Option<Seq<char>>,
    pub config_dir: Option<PathView>,
    pub remote: Seq<char>,
    pub phase: InitPhaseView,
}

impl View for InitRun {
    type V = InitView;

    open spec fn view(&self) -> InitView {
        InitView {
            repo_dir: self.repo_dir@,
            remote_arg: opt_text(self.remote_arg),
            config_dir: opt_path(self.config_dir),
            remote: self.remote@,
            phase: self.phase@,
        }
    }
}

pub open spec fn init_start(repo_dir: PathView, remote_arg: Option<Seq<char>>, config_dir: Option<PathView>) -> InitView {
    InitView { repo_dir, remote_arg, config_dir, remote: Seq::empty(), phase: InitPhaseView::Start }
}

pub open spec fn init_in(s: InitView, phase: InitPhaseView) -> InitView {
    InitView { phase, ..s }
}

pub open spec fn init_fail(s: InitView, e: ErrorView) -> (InitView, StepView) {
    (init_in(s, InitPhaseView::Over), done_with(e))
}

/// After the existing-config check: empty arguments are noted.
pub open spec fn init_after_existing(s: InitView) -> (InitView, StepView) {
    if s.repo_dir.len() == 0 && s.remote_arg is None {
        (init_in(s, InitPhaseView::NotedEmpty), ask(EffectView::Say(NoticeView::InitArgsEmpty)))
    } else {
        init_choose_remote(s)
    }
}

/// The remote given is used; with none given, the user is asked until a URL answers.
pub open spec fn init_choose_remote(s: InitView) -> (InitView, StepView) {
    match s.remote_arg {
        Some(rm) => (
            InitView { remote: rm, phase: InitPhaseView::NotedRemote, ..s },
            ask(EffectView::Say(NoticeView::RemoteGiven)),
        ),
        None => (init_in(s, InitPhaseView::Asking), ask(EffectView::AskUrl)),
    }
}

/// Looks for the repository directory inside the config directory.
pub open spec fn init_locate(s: InitView) -> (InitView, StepView) {
    match s.config_dir {
        None => init_fail(s, ErrorView::UnexpectedReply),
        Some(cd) => {
            let cand = joined(cd, s.repo_dir);
            (init_in(s, InitPhaseView::Locating(cand)), ask(EffectView::TryExists(cand)))
        },
    }
}

pub open spec fn init_remote(s: InitView, rv: RemoteView, st: StepView) -> (InitView, StepView) {
    match st {
        StepView::Do(e) => (init_in(s, InitPhaseView::Remote(rv)), ask(e)),
        StepView::Finish(Ok(_)) => init_finalize(s),
        StepView::Finish(Err(e)) => init_fail(s, e),
    }
}

/// `git init`, run in `dir`.
pub open spec fn git_init_command(dir: PathView) -> CommandView {
    CommandView { program: Program::Git, args: seq![ArgView::Text("init"@)], dir: Some(dir), capture: false }
}

/// Points the repository's origin at the chosen remote, which is known to answer
/// or was given by the user, so nothing is asked a second time.
pub open spec fn init_start_remote(s: InitView) -> (InitView, StepView) {
    let (rv, st) = remote_next(remote_start(s.repo_dir, Some(s.remote), s.config_dir), ReplyView::Done);
    init_remote(s, rv, st)
}

/// Checks for the local config file before writing it.
pub open spec fn init_finalize(s: InitView) -> (InitView, StepView) {
    match s.config_dir {
        None => init_fail(s, ErrorView::NoConfigDir),
        Some(cd) => (init_in(s, InitPhaseView::Final), ask(EffectView::TryExists(config_file_in(cd)))),
    }
}

pub open spec fn init_save(s: InitView, c: ConfigView) -> (InitView, StepView) {
    let (sv, st) = save_next(save_start(c, s.config_dir), ReplyView::Done);
    init_saving(s, sv, st)
}

pub open spec fn init_saving(s: InitView, sv: SaveView, st: StepView) -> (InitView, StepView) {
    match st {
        StepView::Do(e) => (init_in(s, InitPhaseView::Saving(sv)), ask(e)),
        StepView::Finish(Ok(_)) => (init_in(s, InitPhaseView::Closing), ask(EffectView::Say(NoticeView::InitDone))),
        StepView::Finish(Err(e)) => init_fail(s, e),
    }
}

pub open spec fn init_loading(s: InitView, lv: LoadView, st: StepView) -> (InitView, StepView) {
    match st {
        StepView::Do(e) => (init_in(s, InitPhaseView::Loading(lv)), ask(e)),
        StepView::Finish(Ok(OutcomeView::Loaded(cur))) => init_save(
            s,
            ConfigView { repo_dir: s.repo_dir, remote: s.remote, ..cur },
        ),
        StepView::Finish(Ok(_)) => init_fail(s, ErrorView::UnexpectedReply),
        StepView::Finish(Err(e)) => init_fail(s, e),
    }
}

/// One step of `Config::init`: the remote is chosen (asking the user once, until a
/// URL answers, when none was given); the repository directory is created when it
/// does not exist and set up with `git init` when it holds no `.git`; its origin
/// is pointed at the chosen remote; and the config is written with the given
/// directory and the chosen remote, keeping its entries when it existed.
pub open spec fn init_next(s: InitView, r: ReplyView) -> (InitView, StepView) {
    let unexpected = init_fail(s, ErrorView::UnexpectedReply);
    match s.phase {
        InitPhaseView::Start => match s.config_dir {
            None => init_fail(s, ErrorView::NoConfigDir),
            Some(cd) => (init_in(s, InitPhaseView::CheckingConfig), ask(EffectView::Exists(config_file_in(cd)))),
        },
        InitPhaseView::CheckingConfig => match r {
            ReplyView::Flag(true) => (
                init_in(s, InitPhaseView::NotedExisting),
                ask(EffectView::Say(NoticeView::ConfigAlreadyExists)),
            ),
            ReplyView::Flag(false) => init_after_existing(s),
            _ => unexpected,
        },
        InitPhaseView::NotedExisting => match r {
            ReplyView::Done => init_after_existing(s),
            _ => unexpected,
        },
        InitPhaseView::NotedEmpty => match r {
            ReplyView::Done => init_choose_remote(s),
            _ => unexpected,
        },
        InitPhaseView::NotedRemote => match r {
            ReplyView::Done => init_locate(s),
            _ => unexpected,
        },
        InitPhaseView::Asking => match r {
            ReplyView::Text(url) => (
                init_in(s, InitPhaseView::Checking(url)),
                ask(EffectView::Run(ls_remote_command(url))),
            ),
            ReplyView::Failed(m) => init_fail(s, ErrorView::Io { reason: m }),
            _ => unexpected,
        },
        InitPhaseView::Checking(url) => match reachable(r) {
            Some(true) => init_locate(InitView { remote: url, ..s }),
            Some(false) => (init_in(s, InitPhaseView::Reasking), ask(EffectView::Say(NoticeView::UrlUnreachable))),
            None => unexpected,
        },
        InitPhaseView::Reasking => match r {
            ReplyView::Done => (init_in(s, InitPhaseView::Asking), ask(EffectView::AskUrl)),
            _ => unexpected,
        },
        InitPhaseView::Locating(cand) => match r {
            ReplyView::Flag(true) => (
                init_in(s, InitPhaseView::GitProbe(cand)),
                ask(EffectView::Exists(joined(cand, components(".git"@)))),
            ),
            ReplyView::Flag(false) => (
                init_in(s, InitPhaseView::Missing(cand)),
                ask(EffectView::Say(NoticeView::RepoDirMissing(s.repo_dir))),
            ),
            ReplyView::Failed(m) => init_fail(s, ErrorView::Io { reason: m }),
            _ => unexpected,
        },
        InitPhaseView::GitProbe(cand) => match r {
            ReplyView::Flag(true) => (init_in(s, InitPhaseView::NotedGit), ask(EffectView::Say(NoticeView::AlreadyGitRepo))),
            ReplyView::Flag(false) => (
                init_in(s, InitPhaseView::NotedNoGit(cand)),
                ask(EffectView::Say(NoticeView::NotGitRepo)),
            ),
            _ => unexpected,
        },
        InitPhaseView::NotedGit => match r {
            ReplyView::Done => init_start_remote(s),
            _ => unexpected,
        },
        InitPhaseView::NotedNoGit(cand) => match r {
            ReplyView::Done => (init_in(s, InitPhaseView::GitInit), ask(EffectView::Run(git_init_command(cand)))),
            _ => unexpected,
        },
        InitPhaseView::Missing(cand) => match r {
            ReplyView::Done => (init_in(s, InitPhaseView::Creating(cand)), ask(EffectView::MakeDirs(cand))),
            _ => unexpected,
        },
        InitPhaseView::Creating(cand) => match r {
            ReplyView::Done => (init_in(s, InitPhaseView::GitInit), ask(EffectView::Run(git_init_command(cand)))),
            ReplyView::Failed(m) => init_fail(s, ErrorView::MakeDirsFailed { path: cand, reason: m }),
            _ => unexpected,
        },
        InitPhaseView::GitInit => match r {
            ReplyView::Exit(x) => if x.success {
                init_start_remote(s)
            } else {
                init_fail(s, ErrorView::GitFailed { step: GitStep::Init })
            },
            ReplyView::Failed(m) => init_fail(s, ErrorView::Io { reason: m }),
            _ => unexpected,
        },
        InitPhaseView::Remote(rv) => {
            let (rv2, st) = remote_next(rv, r);
            init_remote(s, rv2, st)
        },
        InitPhaseView::Final => match r {
            ReplyView::Flag(true) => {
                let (lv, st) = load_next(load_start(s.config_dir), ReplyView::Done);
                init_loading(s, lv, st)
            },
            ReplyView::Flag(false) => init_save(
                s,
                ConfigView { repo_dir: s.repo_dir, remote: s.remote, entries: Seq::empty() },
            ),
            ReplyView::Failed(m) => init_fail(s, ErrorView::Io { reason: m }),
            _ => unexpected,
        },
        InitPhaseView::Loading(lv) => {
            let (lv2, st) = load_next(lv, r);
            init_loading(s, lv2, st)
        },
        InitPhaseView::Saving(sv) => {
            let (sv2, st) = save_next(sv, r);
            init_saving(s, sv2, st)
        },
        InitPhaseView::Closing => match r {
            ReplyView::Done => (init_in(s, InitPhaseView::Over), done_ok(OutcomeView::Nothing)),
            _ => unexpected,
        },
        InitPhaseView::Over => unexpected,
    }
}

/// The origin step of an init run was handed the chosen remote and has not
/// strayed into asking.
pub open spec fn init_asks_once(s: InitView) -> bool {
    s.phase matches InitPhaseView::Remote(rv) ==> rv.remote is Some && given_never_asks(rv)
}

/// Init asks the user for a URL only while choosing the remote, before the
/// repository is touched: the origin step is handed the chosen remote, so it
/// never asks a second time.
pub proof fn lemma_init_asks_only_while_choosing(s: InitView, r: ReplyView)
    requires
        init_asks_once(s),
    ensures
        init_asks_once(init_next(s, r).0),
        init_next(s, r).1 matches StepView::Do(EffectView::AskUrl) ==> init_next(s, r).0.phase is Asking,
{
    let rs = remote_start(s.repo_dir, Some(s.remote), s.config_dir);
    lemma_given_remote_never_asks(rs, ReplyView::Done);
    if let InitPhaseView::Remote(rv) = s.phase {
        lemma_given_remote_never_asks(rv, r);
    }
}

/// An init run starts outside the origin step.
pub proof fn lemma_init_start_asks_once(repo_dir: PathView, remote_arg: Option<Seq<char>>, config_dir: Option<PathView>)
    ensures
        init_asks_once(init_start(repo_dir, remote_arg, config_dir)),
{
}

/// The remote init saves is one that answered: a URL typed by the user becomes
/// the chosen remote only when its `git ls-remote` check succeeded, and otherwise
/// only the `--remote` given is taken; a failed check keeps the remote as it was
/// and leads to asking the user again.
pub proof fn lemma_init_keeps_only_answering_urls(s: InitView, r: ReplyView)
    ensures
        init_next(s, r).0.remote != s.remote ==> (s.phase matches InitPhaseView::Checking(url) && reachable(r)
            == Some(true) && init_next(s, r).0.remote == url) || (s.remote_arg matches Some(rm)
            && init_next(s, r).0.remote == rm),
        s.phase is Checking && reachable(r) == Some(true) ==> init_next(s, r).0.remote == s.phase->Checking_0,
        s.phase is Checking && reachable(r) == Some(false) ==> init_next(s, r).0.remote == s.remote
            && init_next(s, r).0.phase is Reasking && init_next(
            init_next(s, r).0,
            ReplyView::Done,
        ).1 == ask(EffectView::AskUrl),
{
}

fn git_init(dir: &LocalPath) -> (c: Command)
    ensures
        c@ == git_init_command(dir@),
{
    let c = Command::git(Some(dir.duplicate()), false).word("init");
    assert(c@.args =~= git_init_command(dir@).args);
    c
}

fn copy_dir(d: &Option<LocalPath>) -> (r: Option<LocalPath>)
    ensures
        opt_path(r) == opt_path(*d),
{
    match d {
        Some(p) => Some(p.duplicate()),
        None => None,
    }
}

impl InitRun {
    pub fn new(args: InitArgs, config_dir: Option<LocalPath>) -> (r: InitRun)
        ensures
            r@ == init_start(args.repo_dir@, opt_text(args.remote), opt_path(config_dir)),
    {
        InitRun {
            repo_dir: args.repo_dir,
            remote_arg: args.remote,
            config_dir,
            remote: String::new(),
            phase: InitPhase::Start,
        }
    }

    fn fail(&mut self, e: DotsyncError) -> (st: Step)
        ensures
            (final(self)@, st@) == init_fail(old(self)@, e@),
    {
        self.phase = InitPhase::Over;
        Step::Finish(Err(e))
    }

    fn after_existing(&mut self) -> (st: Step)
        ensures
            (final(self)@, st@) == init_after_existing(old(self)@),
    {
        if self.repo_dir.is_empty() && self.remote_arg.is_none() {
            self.phase = InitPhase::NotedEmpty;
            Step::Do(Effect::Say(Notice::InitArgsEmpty))
        } else {
            self.choose_remote()
        }
    }

    fn choose_remote(&mut self) -> (st: Step)
        ensures
            (final(self)@, st@) == init_choose_remote(old(self)@),
    {
        match &self.remote_arg {
            Some(rm) => {
                self.remote = rm.clone();
                self.phase = InitPhase::NotedRemote;
                Step::Do(Effect::Say(Notice::RemoteGiven))
            },
            None => {
                self.phase = InitPhase::Asking;
                Step::Do(Effect::AskUrl)
            },
        }
    }

    fn locate(&mut self) -> (st: Step)
        ensures
            (final(self)@, st@) == init_locate(old(self)@),
    {
        match &self.config_dir {
            None => self.fail(DotsyncError::UnexpectedReply),
            Some(cd) => {
                let cand = cd.join(&self.repo_dir);
                let probe = cand.duplicate();
                self.phase = InitPhase::Locating(cand);
                Step::Do(Effect::TryExists(probe))
            },
        }
    }

    fn remote_step(&mut self, rv: RemoteRun, st: Step) -> (out: Step)
        ensures
            (final(self)@, out@) == init_remote(old(self)@, rv@, st@),
    {
        match st {
            Step::Do(e) => {
                self.phase = InitPhase::Remote(rv);
                Step::Do(e)
            },
            Step::Finish(Ok(_)) => self.finalize(),
            Step::Finish(Err(e)) => self.fail(e),
        }
    }

    fn start_remote(&mut self) -> (out: Step)
        ensures
            (final(self)@, out@) == init_start_remote(old(self)@),
    {
        let remote = Some(self.remote.clone());
        let mut rv = RemoteRun::new(self.repo_dir.duplicate(), remote, copy_dir(&self.config_dir));
        let st = rv.resume(Reply::Done);
        self.remote_step(rv, st)
    }

    fn finalize(&mut self) -> (st: Step)
        ensures
            (final(self)@, st@) == init_finalize(old(self)@),
    {
        match &self.config_dir {
            None => self.fail(DotsyncError::NoConfigDir),
            Some(cd) => {
                let p = Config::path_in(cd);
                self.phase = InitPhase::Final;
                Step::Do(Effect::TryExists(p))
            },
        }
    }

    fn save(&mut self, c: Config) -> (st: Step)
        ensures
            (final(self)@, st@) == init_save(old(self)@, c@),
    {
        let mut sv = SaveRun::new(c, copy_dir(&self.config_dir));
        let st = sv.resume(Reply::Done);
        self.saving(sv, st)
    }

    fn saving(&mut self, sv: SaveRun, st: Step) -> (out: Step)
        ensures
            (final(self)@, out@) == init_saving(old(self)@, sv@, st@),
    {
        match st {
            Step::Do(e) => {
                self.phase = InitPhase::Saving(sv);
                Step::Do(e)
            },
            Step::Finish(Ok(_)) => {
                self.phase = InitPhase::Closing;
                Step::Do(Effect::Say(Notice::InitDone))
            },
            Step::Finish(Err(e)) => self.fail(e),
        }
    }

    fn loading(&mut self, lv: LoadRun, st: Step) -> (out: Step)
        ensures
            (final(self)@, out@) == init_loading(old(self)@, lv@, st@),
    {
        match st {
            Step::Do(e) => {
                self.phase = InitPhase::Loading(lv);
                Step::Do(e)
            },
            Step::Finish(Ok(Outcome::Loaded(cur))) => {
                let c = cur.relocated(self.repo_dir.duplicate(), self.remote.clone());
                self.save(c)
            },
            Step::Finish(Ok(_)) => self.fail(DotsyncError::UnexpectedReply),
            Step::Finish(Err(e)) => self.fail(e),
        }
    }

    pub fn resume(&mut self, reply: Reply) -> (st: Step)
        ensures
            (final(self)@, st@) == init_next(old(self)@, reply@),
    {
        let mut phase = InitPhase::Over;
        std::mem::swap(&mut phase, &mut self.phase);
        match phase {
            InitPhase::Start => match &self.config_dir {
                None => self.fail(DotsyncError::NoConfigDir),
                Some(cd) => {
                    let p = Config::path_in(cd);
                    self.phase = InitPhase::CheckingConfig;
                    Step::Do(Effect::Exists(p))
                },
            },
            InitPhase::CheckingConfig => match reply {
                Reply::Flag(true) => {
                    self.phase = InitPhase::NotedExisting;
                    Step::Do(Effect::Say(Notice::ConfigAlreadyExists))
                },
                Reply::Flag(false) => self.after_existing(),
                _ => self.fail(DotsyncError::UnexpectedReply),
            },
            InitPhase::NotedExisting => match reply {
                Reply::Done => self.after_existing(),
                _ => self.fail(DotsyncError::UnexpectedReply),
            },
            InitPhase::NotedEmpty => match reply {
                Reply::Done => self.choose_remote(),
                _ => self.fail(DotsyncError::UnexpectedReply),
            },
            InitPhase::NotedRemote => match reply {
                Reply::Done => self.locate(),
                _ => self.fail(DotsyncError::UnexpectedReply),
            },
            InitPhase::Asking => match reply {
                Reply::Text(url) => {
                    let c = ls_remote(&url);
                    self.phase = InitPhase::Checking(url);
                    Step::Do(Effect::Run(c))
                },
                Reply::Failed(m) => self.fail(DotsyncError::Io { reason: m }),
                _ => self.fail(DotsyncError::UnexpectedReply),
            },
            InitPhase::Checking(url) => match reachable_of(&reply) {
                Some(true) => {
                    self.remote = url;
                    self.locate()
                },
                Some(false) => {
                    self.phase = InitPhase::Reasking;
                    Step::Do(Effect::Say(Notice::UrlUnreachable))
                },
                None => self.fail(DotsyncError::UnexpectedReply),
            },
            InitPhase::Reasking => match reply {
                Reply::Done => {
                    self.phase = InitPhase::Asking;
                    Step::Do(Effect::AskUrl)
                },
                _ => self.fail(DotsyncError::UnexpectedReply),
            },
            InitPhase::Locating(cand) => match reply {
                Reply::Flag(true) => {
                    let git_dir = cand.join(&LocalPath::parse(".git"));
                    self.phase = InitPhase::GitProbe(cand);
                    Step::Do(Effect::Exists(git_dir))
                },
                Reply::Flag(false) => {
                    self.phase = InitPhase::Missing(cand);
                    Step::Do(Effect::Say(Notice::RepoDirMissing(self.repo_dir.duplicate())))
                },
                Reply::Failed(m) => self.fail(DotsyncError::Io { reason: m }),
                _ => self.fail(DotsyncError::UnexpectedReply),
            },
            InitPhase::GitProbe(cand) => match reply {
                Reply::Flag(true) => {
                    self.phase = InitPhase::NotedGit;
                    Step::Do(Effect::Say(Notice::AlreadyGitRepo))
                },
                Reply::Flag(false) => {
                    self.phase = InitPhase::NotedNoGit(cand);
                    Step::Do(Effect::Say(Notice::NotGitRepo))
                },
                _ => self.fail(DotsyncError::UnexpectedReply),
            },
            InitPhase::NotedGit => match reply {
                Reply::Done => self.start_remote(),
                _ => self.fail(DotsyncError::UnexpectedReply),
            },
            InitPhase::NotedNoGit(cand) => match reply {
                Reply::Done => {
                    self.phase = InitPhase::GitInit;
                    Step::Do(Effect::Run(git_init(&cand)))
                },
                _ => self.fail(DotsyncError::UnexpectedReply),
            },
            InitPhase::Missing(cand) => match reply {
                Reply::Done => {
                    let target = cand.duplicate();
                    self.phase = InitPhase::Creating(cand);
                    Step::Do(Effect::MakeDirs(target))
                },
                _ => self.fail(DotsyncError::UnexpectedReply),
            },
            InitPhase::Creating(cand) => match reply {
                Reply::Done => {
                    self.phase = InitPhase::GitInit;
                    Step::Do(Effect::Run(git_init(&cand)))
                },
                Reply::Failed(m) => self.fail(DotsyncError::MakeDirsFailed { path: cand, reason: m }),
                _ => self.fail(DotsyncError::UnexpectedReply),
            },
            InitPhase::GitInit => match reply {
                Reply::Exit(x) => {
                    if x.success {
                        self.start_remote()
                    } else {
                        self.fail(DotsyncError::GitFailed { step: GitStep::Init })
                    }
                },
                Reply::Failed(m) => self.fail(DotsyncError::Io { reason: m }),
                _ => self.fail(DotsyncError::UnexpectedReply),
            },
            InitPhase::Remote(mut rv) => {
                let st = rv.resume(reply);
                self.remote_step(rv, st)
            },
            InitPhase::Final => match reply {
                Reply::Flag(true) => {
                    let mut lv = LoadRun::new(copy_dir(&self.config_dir));
                    let st = lv.resume(Reply::Done);
                    self.loading(lv, st)
                },
                Reply::Flag(false) => {
                    let c = Config::new(self.repo_dir.duplicate(), self.remote.clone(), Vec::new());
                    assert(c@.entries =~= Seq::<crate::config::EntryView>::empty());
                    self.save(c)
                },
                Reply::Failed(m) => self.fail(DotsyncError::Io { reason: m }),
                _ => self.fail(DotsyncError::UnexpectedReply),
            },
            InitPhase::Loading(mut lv) => {
                let st = lv.resume(reply);
                self.loading(lv, st)
            },
            InitPhase::Saving(mut sv) => {
                let st = sv.resume(reply);
                self.saving(sv, st)
            },
            InitPhase::Closing => match reply {
                Reply::Done => Step::Finish(Ok(Outcome::Nothing)),
                _ => self.fail(DotsyncError::UnexpectedReply),
            },
            InitPhase::Over => self.fail(DotsyncError::UnexpectedReply),
        }
    }
}

impl Config {
    /// `init`: sets up the local config for `init_args`. The user's config
    /// directory is looked up at the start.
    pub fn init(init_args: InitArgs) -> (r: InitRun)
        ensures
            exists|cd: Option<PathView>|
                found_dir(cd) && r@ == init_start(init_args.repo_dir@, opt_text(init_args.remote), cd),
    {
        let dirs = Dirs::lookup();
        InitRun::new(init_args, dirs.config)
    }
}

} // verus!
