//! `pull`: `git pull` in the repository, then restore from its manifest.
use crate::config::{Config, ConfigView};
use crate::effect::{ask, done_ok, done_with, Command, CommandView, Effect, EffectView, Notice, NoticeView, Outcome, OutcomeView, Program, Reply, ReplyView, Step, StepView};
use crate::env::{found_dir, Dirs, DirsView};
use crate::error::{DotsyncError, ErrorView};
use crate::path::{LocalPath, PathView};
use crate::push::git_in;
use crate::resolve::{resolve_next, resolve_start, ResolveRun, ResolveView};
use crate::restore::{copy_names, restore_next, restore_start, RestoreRun, RestoreView};
use vstd::prelude::*;

verus! {

pub enum PullPhase {
    Resolving(ResolveRun),
    /// Waiting for `git pull`.
    Pulling(LocalPath),
    Restoring(RestoreRun),
    Closing,
    Over,
}

pub enum PullPhaseView {
    Resolving(ResolveView),
    Pulling(PathView),
    Restoring(RestoreView),
    Closing,
    Over,
}

impl View for PullPhase {
    type V = PullPhaseView;

    open spec fn view(&self) -> PullPhaseView {
        match self {
            PullPhase::Resolving(r) => PullPhaseView::Resolving(r@),
            PullPhase::Pulling(p) => PullPhaseView::Pulling(p@),
            PullPhase::Restoring(r) => PullPhaseView::Restoring(r@),
            PullPhase::Closing => PullPhaseView::Closing,
            PullPhase::Over => PullPhaseView::Over,
        }
    }
}

/// A run of `Config::pull`.
pub struct PullRun {
    pub dirs: Dirs,
    pub phase: PullPhase,
}

pub struct PullView {
    pub dirs: DirsView,
    pub phase: PullPhaseView,
}

impl View for PullRun {
    type V = PullView;

    open spec fn view(&self) -> PullView {
        PullView { dirs: self.dirs@, phase: self.phase@ }
    }
}

pub open spec fn pull_start(config: ConfigView, dirs: DirsView) -> PullView {
    PullView { dirs, phase: PullPhaseView::Resolving(resolve_start(config.repo_dir, dirs.config)) }
}

pub open spec fn pull_command(repo: PathView) -> CommandView {
    git_in(repo, seq!["pull"@], false)
}

pub open spec fn pull_in(s: PullView, phase: PullPhaseView) -> PullView {
    PullView { phase, ..s }
}

pub open spec fn pull_restoring(s: PullView, rv: RestoreView, st: StepView) -> (PullView, StepView) {
    match st {
        StepView::Do(e) => (pull_in(s, PullPhaseView::Restoring(rv)), ask(e)),
        StepView::Finish(Ok(OutcomeView::Names(names))) => (
            pull_in(s, PullPhaseView::Closing),
            ask(EffectView::Say(NoticeView::Restored(names))),
        ),
        StepView::Finish(Ok(_)) => (pull_in(s, PullPhaseView::Over), done_with(ErrorView::UnexpectedReply)),
        StepView::Finish(Err(e)) => (pull_in(s, PullPhaseView::Over), done_with(e)),
    }
}

/// One step of `Config::pull`: the pull must succeed before anything is restored.
pub open spec fn pull_next(s: PullView, r: ReplyView) -> (PullView, StepView) {
    let over = pull_in(s, PullPhaseView::Over);
    match s.phase {
        PullPhaseView::Resolving(rv) => {
            let (rv2, st) = resolve_next(rv, r);
            match st {
                StepView::Do(e) => (pull_in(s, PullPhaseView::Resolving(rv2)), ask(e)),
                StepView::Finish(Ok(OutcomeView::Path(repo))) => (
                    pull_in(s, PullPhaseView::Pulling(repo)),
                    ask(EffectView::Run(pull_command(repo))),
                ),
                StepView::Finish(Ok(_)) => (over, done_with(ErrorView::UnexpectedReply)),
                StepView::Finish(Err(e)) => (over, done_with(e)),
            }
        },
        PullPhaseView::Pulling(repo) => match r {
            ReplyView::Exit(x) => if !x.success {
                (over, done_with(ErrorView::PullFailed))
            } else {
                let (rv2, st) = restore_next(restore_start(repo, s.dirs), ReplyView::Done);
                pull_restoring(s, rv2, st)
            },
            ReplyView::Failed(m) => (over, done_with(ErrorView::Io { reason: m })),
            _ => (over, done_with(ErrorView::UnexpectedReply)),
        },
        PullPhaseView::Restoring(rv) => {
            let (rv2, st) = restore_next(rv, r);
            pull_restoring(s, rv2, st)
        },
        PullPhaseView::Closing => match r {
            ReplyView::Done => (over, done_ok(OutcomeView::Nothing)),
            _ => (over, done_with(ErrorView::UnexpectedReply)),
        },
        PullPhaseView::Over => (over, done_with(ErrorView::UnexpectedReply)),
    }
}

/// Pull restores only after `git pull` succeeded.
pub proof fn lemma_pull_restores_only_after_pull(s: PullView, r: ReplyView)
    ensures
        pull_next(s, r).0.phase is Restoring && !(s.phase is Restoring) ==> s.phase is Pulling && (r matches ReplyView::Exit(
            x,
        ) && x.success),
{
}

impl PullRun {
    pub fn new(config: &Config, dirs: Dirs) -> (r: PullRun)
        ensures
            r@ == pull_start(config@, dirs@),
    {
        let cd = match &dirs.config {
            Some(p) => Some(p.duplicate()),
            None => None,
        };
        PullRun { dirs, phase: PullPhase::Resolving(ResolveRun::new(config.repo_dir(), cd)) }
    }

    fn restoring(&mut self, rv: RestoreRun, st: Step) -> (out: Step)
        ensures
            (final(self)@, out@) == pull_restoring(old(self)@, rv@, st@),
    {
        match st {
            Step::Do(e) => {
                self.phase = PullPhase::Restoring(rv);
                Step::Do(e)
            },
            Step::Finish(Ok(Outcome::Names(names))) => {
                self.phase = PullPhase::Closing;
                Step::Do(Effect::Say(Notice::Restored(names)))
            },
            Step::Finish(Ok(_)) => {
                self.phase = PullPhase::Over;
                Step::Finish(Err(DotsyncError::UnexpectedReply))
            },
            Step::Finish(Err(e)) => {
                self.phase = PullPhase::Over;
                Step::Finish(Err(e))
            },
        }
    }

    pub fn resume(&mut self, reply: Reply) -> (st: Step)
        ensures
            (final(self)@, st@) == pull_next(old(self)@, reply@),
    {
        let mut phase = PullPhase::Over;
        std::mem::swap(&mut phase, &mut self.phase);
        match phase {
            PullPhase::Resolving(mut rv) => {
                let st = rv.resume(reply);
                match st {
                    Step::Do(e) => {
                        self.phase = PullPhase::Resolving(rv);
                        Step::Do(e)
                    },
                    Step::Finish(Ok(Outcome::Path(repo))) => {
                        let c = Command::git(Some(repo.duplicate()), false).word("pull");
                        assert(c@.args =~= pull_command(repo@).args);
                        self.phase = PullPhase::Pulling(repo);
                        Step::Do(Effect::Run(c))
                    },
                    Step::Finish(Ok(_)) => Step::Finish(Err(DotsyncError::UnexpectedReply)),
                    Step::Finish(Err(e)) => Step::Finish(Err(e)),
                }
            },
            PullPhase::Pulling(repo) => match reply {
                Reply::Exit(x) => {
                    if !x.success {
                        Step::Finish(Err(DotsyncError::PullFailed))
                    } else {
                        let mut rv = RestoreRun::new(repo, self.dirs.duplicate());
                        let st = rv.resume(Reply::Done);
                        self.restoring(rv, st)
                    }
                },
                Reply::Failed(m) => Step::Finish(Err(DotsyncError::Io { reason: m })),
                _ => Step::Finish(Err(DotsyncError::UnexpectedReply)),
            },
            PullPhase::Restoring(mut rv) => {
                let st = rv.resume(reply);
                self.restoring(rv, st)
            },
            PullPhase::Closing => match reply {
                Reply::Done => Step::Finish(Ok(Outcome::Nothing)),
                _ => Step::Finish(Err(DotsyncError::UnexpectedReply)),
            },
            PullPhase::Over => Step::Finish(Err(DotsyncError::UnexpectedReply)),
        }
    }
}

impl Config {
    /// `pull`: resolves the repository, runs `git pull` there, and restores from
    /// its manifest. The user's directories are looked up once, at the start.
    pub fn pull(&self) -> (r: PullRun)
        ensures
            r@ == pull_start(self@, r@.dirs),
            found_dir(r@.dirs.config),
            found_dir(r@.dirs.home),
    {
        PullRun::new(self, Dirs::lookup())
    }
}

/// `pull`: loads the stored config and pulls.
pub fn pull() -> (s: crate::session::Session)
    ensures
        s@ == crate::session::session_loading(crate::session::Next::Pull, s@->Loading_dirs),
        found_dir(s@->Loading_dirs.config),
        found_dir(s@->Loading_dirs.home),
{
    crate::session::Session::after_load(crate::session::Next::Pull, Dirs::lookup())
}

} // verus!
