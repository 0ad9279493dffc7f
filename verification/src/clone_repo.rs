//! `clone`: bootstraps a fresh machine from a remote repository.
use crate::config::{config_file_in, CloneArgs, Config};
use crate::effect::{ask, done_ok, done_with, opt_path, Arg, ArgView, Command, CommandView, Effect, EffectView, Notice, NoticeView, Outcome, OutcomeView, Program, Reply, ReplyView, Step, StepView};
use crate::env::{found_dir, Dirs, DirsView};
use crate::error::{DotsyncError, ErrorView};
use crate::path::{components, joined, LocalPath, PathView};
use crate::restore::{restore_next, restore_start, RestoreRun, RestoreView};
use vstd::prelude::*;

verus! {

pub enum ClonePhase {
    Start,
    /// Waiting to learn whether a local config exists.
    Checking,
    /// Waiting to learn whether the target directory exists.
    Probing(LocalPath),
    /// Waiting to learn whether the target directory has items.
    Listing(LocalPath),
    /// Waiting for `git clone`.
    Cloning(LocalPath),
    /// Waiting for the canonical form of the cloned directory.
    Canon,
    Restoring(RestoreRun),
    Closing,
    Over,
}

pub enum ClonePhaseView {
    Start,
    Checking,
    Probing(PathView),
    Listing(PathView),
    Cloning(PathView),
    Canon,
    Restoring(RestoreView),
    Closing,
    Over,
}

impl View for ClonePhase {
    type V = ClonePhaseView;

    open spec fn view(&self) -> ClonePhaseView {
        match self {
            ClonePhase::Start => ClonePhaseView::Start,
            ClonePhase::Checking => ClonePhaseView::Checking,
            ClonePhase::Probing(p) => ClonePhaseView::Probing(p@),
            ClonePhase::Listing(p) => ClonePhaseView::Listing(p@),
            ClonePhase::Cloning(p) => ClonePhaseView::Cloning(p@),
            ClonePhase::Canon => ClonePhaseView::Canon,
            ClonePhase::Restoring(r) => ClonePhaseView::Restoring(r@),
            ClonePhase::Closing => ClonePhaseView::Closing,
            ClonePhase::Over => ClonePhaseView::Over,
        }
    }
}

/// A run of `Config::clone_repo`.
pub struct CloneRun {
    pub remote: String,
    pub repo_dir: Option<LocalPath>,
    pub dirs: Dirs,
    pub phase: ClonePhase,
}

pub struct CloneView {
    pub remote: Seq<char>,
    pub repo_dir: Option<PathView>,
    pub dirs: DirsView,
    pub phase: ClonePhaseView,
}

impl View for CloneRun {
    type V = CloneView;

    open spec fn view(&self) -> CloneView {
        CloneView { remote: self.remote@, repo_dir: opt_path(self.repo_dir), dirs: self.dirs@, phase: self.phase@ }
    }
}

pub open spec fn clone_start(remote: Seq<char>, repo_dir: Option<PathView>, dirs: DirsView) -> CloneView {
    CloneView { remote, repo_dir, dirs, phase: ClonePhaseView::Start }
}

/// `git clone <remote> <target>`, output passed through.
pub open spec fn clone_command(remote: Seq<char>, target: PathView) -> CommandView {
    CommandView {
        program: Program::Git,
        args: seq![ArgView::Text("clone"@), ArgView::Text(remote), ArgView::Path(target)],
        dir: None,
        capture: false,
    }
}

/// The directory the clone goes to when none is given: `~/dotsync`.
pub open spec fn default_clone_dir(home: PathView) -> PathView {
    joined(home, components("dotsync"@))
}

pub open spec fn clone_in(s: CloneView, phase: ClonePhaseView) -> CloneView {
    CloneView { phase, ..s }
}

pub open spec fn clone_fail(s: CloneView, e: ErrorView) -> (CloneView, StepView) {
    (clone_in(s, ClonePhaseView::Over), done_with(e))
}

pub open spec fn clone_run(s: CloneView, target: PathView) -> (CloneView, StepView) {
    (clone_in(s, ClonePhaseView::Cloning(target)), ask(EffectView::Run(clone_command(s.remote, target))))
}

pub open spec fn clone_restoring(s: CloneView, rv: RestoreView, st: StepView) -> (CloneView, StepView) {
    match st {
        StepView::Do(e) => (clone_in(s, ClonePhaseView::Restoring(rv)), ask(e)),
        StepView::Finish(Ok(OutcomeView::Names(names))) => (
            clone_in(s, ClonePhaseView::Closing),
            ask(EffectView::Say(NoticeView::ClonedAndRestored(names))),
        ),
        StepView::Finish(Ok(_)) => clone_fail(s, ErrorView::UnexpectedReply),
        StepView::Finish(Err(e)) => clone_fail(s, e),
    }
}

/// One step of `Config::clone_repo`: refuses when a local config exists or the
/// target directory holds anything; otherwise clones, then restores from the
/// manifest, which saves it as the local config.
pub open spec fn clone_next(s: CloneView, r: ReplyView) -> (CloneView, StepView) {
    let unexpected = clone_fail(s, ErrorView::UnexpectedReply);
    match s.phase {
        ClonePhaseView::Start => match s.dirs.config {
            None => clone_fail(s, ErrorView::NoConfigDir),
            Some(cd) => (clone_in(s, ClonePhaseView::Checking), ask(EffectView::Exists(config_file_in(cd)))),
        },
        ClonePhaseView::Checking => match r {
            ReplyView::Flag(true) => clone_fail(s, ErrorView::ConfigExists),
            ReplyView::Flag(false) => match s.repo_dir {
                Some(t) => (clone_in(s, ClonePhaseView::Probing(t)), ask(EffectView::Exists(t))),
                None => match s.dirs.home {
                    None => clone_fail(s, ErrorView::NoHomeDir),
                    Some(h) => (
                        clone_in(s, ClonePhaseView::Probing(default_clone_dir(h))),
                        ask(EffectView::Exists(default_clone_dir(h))),
                    ),
                },
            },
            _ => unexpected,
        },
        ClonePhaseView::Probing(t) => match r {
            ReplyView::Flag(true) => (clone_in(s, ClonePhaseView::Listing(t)), ask(EffectView::HasEntries(t))),
            ReplyView::Flag(false) => clone_run(s, t),
            _ => unexpected,
        },
        ClonePhaseView::Listing(t) => match r {
            ReplyView::Flag(true) => clone_fail(s, ErrorView::RepoDirNotEmpty { path: t }),
            ReplyView::Flag(false) => clone_run(s, t),
            ReplyView::Failed(m) => clone_fail(s, ErrorView::Io { reason: m }),
            _ => unexpected,
        },
        ClonePhaseView::Cloning(t) => match r {
            ReplyView::Exit(x) => if !x.success {
                clone_fail(s, ErrorView::CloneFailed)
            } else {
                (clone_in(s, ClonePhaseView::Canon), ask(EffectView::Canonicalize(t)))
            },
            ReplyView::Failed(m) => clone_fail(s, ErrorView::Io { reason: m }),
            _ => unexpected,
        },
        ClonePhaseView::Canon => match r {
            ReplyView::Path(repo) => {
                let (rv, st) = restore_next(restore_start(repo, s.dirs), ReplyView::Done);
                clone_restoring(s, rv, st)
            },
            ReplyView::Failed(m) => clone_fail(s, ErrorView::Io { reason: m }),
            _ => unexpected,
        },
        ClonePhaseView::Restoring(rv) => {
            let (rv2, st) = restore_next(rv, r);
            clone_restoring(s, rv2, st)
        },
        ClonePhaseView::Closing => match r {
            ReplyView::Done => (clone_in(s, ClonePhaseView::Over), done_ok(OutcomeView::Nothing)),
            _ => unexpected,
        },
        ClonePhaseView::Over => unexpected,
    }
}

/// Where clone puts the repository: the `--repo-dir` given, or `~/dotsync` only
/// when none was given.
pub open spec fn clone_target(s: CloneView) -> PathView {
    match s.repo_dir {
        Some(d) => d,
        None => default_clone_dir(s.dirs.home->0),
    }
}

/// Every directory a clone run probes, lists or clones into is its target.
pub open spec fn clone_inv(s: CloneView) -> bool {
    match s.phase {
        ClonePhaseView::Probing(t) => t == clone_target(s) && (s.repo_dir is Some || s.dirs.home is Some),
        ClonePhaseView::Listing(t) => t == clone_target(s) && (s.repo_dir is Some || s.dirs.home is Some),
        ClonePhaseView::Cloning(t) => t == clone_target(s) && (s.repo_dir is Some || s.dirs.home is Some),
        _ => true,
    }
}

/// Clone works on one directory: the one probed for emptiness is the one
/// `git clone` writes to, and the one made canonical and restored from; it is the
/// `--repo-dir` given, or `~/dotsync` only when none was given.
pub proof fn lemma_clone_uses_its_target(s: CloneView, r: ReplyView)
    requires
        clone_inv(s),
    ensures
        clone_inv(clone_next(s, r).0),
        clone_next(s, r).1 matches StepView::Do(EffectView::Run(c)) ==> s.phase is Restoring || s.phase is Canon
            || c == clone_command(s.remote, clone_target(s)),
        clone_next(s, r).1 matches StepView::Do(EffectView::Exists(p)) ==> s.phase is Start || s.phase is Restoring
            || s.phase is Canon || p == clone_target(s),
        clone_next(s, r).1 matches StepView::Do(EffectView::Canonicalize(p)) ==> s.phase is Restoring || s.phase is Canon
            || p == clone_target(s),
{
}

impl CloneRun {
    pub fn new(args: CloneArgs, dirs: Dirs) -> (r: CloneRun)
        ensures
            r@ == clone_start(args.remote@, opt_path(args.repo_dir), dirs@),
    {
        CloneRun { remote: args.remote, repo_dir: args.repo_dir, dirs, phase: ClonePhase::Start }
    }

    fn fail(&mut self, e: DotsyncError) -> (st: Step)
        ensures
            (final(self)@, st@) == clone_fail(old(self)@, e@),
    {
        self.phase = ClonePhase::Over;
        Step::Finish(Err(e))
    }

    fn run_clone(&mut self, t: LocalPath) -> (st: Step)
        ensures
            (final(self)@, st@) == clone_run(old(self)@, t@),
    {
        let c = Command { program: Program::Git, args: Vec::new(), dir: None, capture: false }
            .word("clone").arg(Arg::Text(self.remote.clone())).arg(Arg::Path(t.duplicate()));
        assert(c@.args =~= clone_command(self.remote@, t@).args);
        self.phase = ClonePhase::Cloning(t);
        Step::Do(Effect::Run(c))
    }

    fn restoring(&mut self, rv: RestoreRun, st: Step) -> (out: Step)
        ensures
            (final(self)@, out@) == clone_restoring(old(self)@, rv@, st@),
    {
        match st {
            Step::Do(e) => {
                self.phase = ClonePhase::Restoring(rv);
                Step::Do(e)
            },
            Step::Finish(Ok(Outcome::Names(names))) => {
                self.phase = ClonePhase::Closing;
                Step::Do(Effect::Say(Notice::ClonedAndRestored(names)))
            },
            Step::Finish(Ok(_)) => self.fail(DotsyncError::UnexpectedReply),
            Step::Finish(Err(e)) => self.fail(e),
        }
    }

    pub fn resume(&mut self, reply: Reply) -> (st: Step)
        ensures
            (final(self)@, st@) == clone_next(old(self)@, reply@),
    {
        let mut phase = ClonePhase::Over;
        std::mem::swap(&mut phase, &mut self.phase);
        match phase {
            ClonePhase::Start => match &self.dirs.config {
                None => self.fail(DotsyncError::NoConfigDir),
                Some(cd) => {
                    let p = Config::path_in(cd);
                    self.phase = ClonePhase::Checking;
                    Step::Do(Effect::Exists(p))
                },
            },
            ClonePhase::Checking => match reply {
                Reply::Flag(true) => self.fail(DotsyncError::ConfigExists),
                Reply::Flag(false) => match &self.repo_dir {
                    Some(t) => {
                        let probe = t.duplicate();
                        self.phase = ClonePhase::Probing(t.duplicate());
                        Step::Do(Effect::Exists(probe))
                    },
                    None => match &self.dirs.home {
                        None => self.fail(DotsyncError::NoHomeDir),
                        Some(h) => {
                            let t = h.join(&LocalPath::parse("dotsync"));
                            let probe = t.duplicate();
                            self.phase = ClonePhase::Probing(t);
                            Step::Do(Effect::Exists(probe))
                        },
                    },
                },
                _ => self.fail(DotsyncError::UnexpectedReply),
            },
            ClonePhase::Probing(t) => match reply {
                Reply::Flag(true) => {
                    let probe = t.duplicate();
                    self.phase = ClonePhase::Listing(t);
                    Step::Do(Effect::HasEntries(probe))
                },
                Reply::Flag(false) => self.run_clone(t),
                _ => self.fail(DotsyncError::UnexpectedReply),
            },
            ClonePhase::Listing(t) => match reply {
                Reply::Flag(true) => self.fail(DotsyncError::RepoDirNotEmpty { path: t }),
                Reply::Flag(false) => self.run_clone(t),
                Reply::Failed(m) => self.fail(DotsyncError::Io { reason: m }),
                _ => self.fail(DotsyncError::UnexpectedReply),
            },
            ClonePhase::Cloning(t) => match reply {
                Reply::Exit(x) => {
                    if !x.success {
                        self.fail(DotsyncError::CloneFailed)
                    } else {
                        self.phase = ClonePhase::Canon;
                        Step::Do(Effect::Canonicalize(t))
                    }
                },
                Reply::Failed(m) => self.fail(DotsyncError::Io { reason: m }),
                _ => self.fail(DotsyncError::UnexpectedReply),
            },
            ClonePhase::Canon => match reply {
                Reply::Path(repo) => {
                    let mut rv = RestoreRun::new(repo, self.dirs.duplicate());
                    let st = rv.resume(Reply::Done);
                    self.restoring(rv, st)
                },
                Reply::Failed(m) => self.fail(DotsyncError::Io { reason: m }),
                _ => self.fail(DotsyncError::UnexpectedReply),
            },
            ClonePhase::Restoring(mut rv) => {
                let st = rv.resume(reply);
                self.restoring(rv, st)
            },
            ClonePhase::Closing => match reply {
                Reply::Done => Step::Finish(Ok(Outcome::Nothing)),
                _ => self.fail(DotsyncError::UnexpectedReply),
            },
            ClonePhase::Over => self.fail(DotsyncError::UnexpectedReply),
        }
    }
}

impl Config {
    /// `clone`: clones `args.remote` into `args.repo_dir` (by default `~/dotsync`)
    /// and restores every file its manifest lists. The user's directories are
    /// looked up once, at the start.
    pub fn clone_repo(args: CloneArgs) -> (r: CloneRun)
        ensures
            r@ == clone_start(args.remote@, opt_path(args.repo_dir), r@.dirs),
            found_dir(r@.dirs.config),
            found_dir(r@.dirs.home),
    {
        CloneRun::new(args, Dirs::lookup())
    }
}

} // verus!
