//! `sync`: `git pull --rebase` in the repository, then `push`.
use crate::config::{Config, ConfigView};
use crate::effect::{ask, done_with, Command, CommandView, Effect, EffectView, Outcome, OutcomeView, Reply, ReplyView, Step, StepView};
use crate::env::{found_dir, Dirs, DirsView};
use crate::error::{DotsyncError, ErrorView};
use crate::path::{LocalPath, PathView};
use crate::push::{git_in, push_next, push_start, PushRun, PushView};
use crate::resolve::{resolve_next, resolve_start, ResolveRun, ResolveView};
use vstd::prelude::*;

verus! {

pub enum SyncPhase {
    Resolving(ResolveRun),
    /// Waiting for `git pull --rebase`.
    Rebasing(LocalPath),
    Pushing(PushRun),
    Over,
}

pub enum SyncPhaseView {
    Resolving(ResolveView),
    Rebasing(PathView),
    Pushing(PushView),
    Over,
}

impl View for SyncPhase {
    type V = SyncPhaseView;

    open spec fn view(&self) -> SyncPhaseView {
        match self {
            SyncPhase::Resolving(r) => SyncPhaseView::Resolving(r@),
            SyncPhase::Rebasing(p) => SyncPhaseView::Rebasing(p@),
            SyncPhase::Pushing(r) => SyncPhaseView::Pushing(r@),
            SyncPhase::Over => SyncPhaseView::Over,
        }
    }
}

/// A run of `Config::sync`.
pub struct SyncRun {
    pub config: Config,
    pub dirs: Dirs,
    pub phase: SyncPhase,
}

pub struct SyncView {
    pub config: ConfigView,
    pub dirs: DirsView,
    pub phase: SyncPhaseView,
}

impl View for SyncRun {
    type V = SyncView;

    open spec fn view(&self) -> SyncView {
        SyncView { config: self.config@, dirs: self.dirs@, phase: self.phase@ }
    }
}

pub open spec fn sync_start(config: ConfigView, dirs: DirsView) -> SyncView {
    SyncView { config, dirs, phase: SyncPhaseView::Resolving(resolve_start(config.repo_dir, dirs.config)) }
}

pub open spec fn rebase_command(repo: PathView) -> CommandView {
    git_in(repo, seq!["pull"@, "--rebase"@], false)
}

pub open spec fn sync_in(s: SyncView, phase: SyncPhaseView) -> SyncView {
    SyncView { phase, ..s }
}

pub open spec fn sync_pushing(s: SyncView, pv: PushView, st: StepView) -> (SyncView, StepView) {
    match st {
        StepView::Do(e) => (sync_in(s, SyncPhaseView::Pushing(pv)), ask(e)),
        StepView::Finish(res) => (sync_in(s, SyncPhaseView::Over), StepView::Finish(res)),
    }
}

/// One step of `Config::sync`: a failed rebase stops the run before anything is
/// pushed; otherwise a whole `push` follows.
pub open spec fn sync_next(s: SyncView, r: ReplyView) -> (SyncView, StepView) {
    let over = sync_in(s, SyncPhaseView::Over);
    match s.phase {
        SyncPhaseView::Resolving(rv) => {
            let (rv2, st) = resolve_next(rv, r);
            match st {
                StepView::Do(e) => (sync_in(s, SyncPhaseView::Resolving(rv2)), ask(e)),
                StepView::Finish(Ok(OutcomeView::Path(repo))) => (
                    sync_in(s, SyncPhaseView::Rebasing(repo)),
                    ask(EffectView::Run(rebase_command(repo))),
                ),
                StepView::Finish(Ok(_)) => (over, done_with(ErrorView::UnexpectedReply)),
                StepView::Finish(Err(e)) => (over, done_with(e)),
            }
        },
        SyncPhaseView::Rebasing(repo) => match r {
            ReplyView::Exit(x) => if !x.success {
                (over, done_with(ErrorView::RebaseFailed { repo_dir: repo }))
            } else {
                let (pv, st) = push_next(push_start(s.config, s.dirs), ReplyView::Done);
                sync_pushing(s, pv, st)
            },
            ReplyView::Failed(m) => (over, done_with(ErrorView::Io { reason: m })),
            _ => (over, done_with(ErrorView::UnexpectedReply)),
        },
        SyncPhaseView::Pushing(pv) => {
            let (pv2, st) = push_next(pv, r);
            sync_pushing(s, pv2, st)
        },
        SyncPhaseView::Over => (over, done_with(ErrorView::UnexpectedReply)),
    }
}

/// Sync pushes only after `git pull --rebase` succeeded: a failed rebase ends the
/// run before anything is copied or committed.
pub proof fn lemma_sync_pushes_only_after_rebase(s: SyncView, r: ReplyView)
    ensures
        sync_next(s, r).0.phase is Pushing && !(s.phase is Pushing) ==> s.phase is Rebasing && (r matches ReplyView::Exit(
            x,
        ) && x.success),
        s.phase is Rebasing && (r matches ReplyView::Exit(x) && !x.success) ==> sync_next(s, r).1
            == done_with(ErrorView::RebaseFailed { repo_dir: s.phase->Rebasing_0 }),
{
}

/// After a successful `git pull --rebase`, sync behaves exactly as `push` does
/// from its start, `push_start(config, dirs)` (what `config.push()` returns): the
/// step taken on the rebase's success is push's first step, and every later step
/// is push's step on the same reply, with the same effect or the same result.
pub proof fn lemma_sync_is_push_after_rebase(s: SyncView, r: ReplyView)
    ensures
        s.phase is Rebasing && (r matches ReplyView::Exit(x) && x.success) ==> sync_next(s, r).1 == push_next(
            push_start(s.config, s.dirs),
            ReplyView::Done,
        ).1 && (sync_next(s, r).0.phase == (SyncPhaseView::Pushing(
            push_next(push_start(s.config, s.dirs), ReplyView::Done).0,
        )) || sync_next(s, r).0.phase is Over),
        s.phase matches SyncPhaseView::Pushing(pv) ==> sync_next(s, r).1 == push_next(pv, r).1 && (
        sync_next(s, r).0.phase == (SyncPhaseView::Pushing(push_next(pv, r).0))
            || sync_next(s, r).0.phase is Over),
        s.phase matches SyncPhaseView::Pushing(pv) ==> (push_next(pv, r).1 is Do <==> sync_next(s, r).0.phase is Pushing),
{
}

impl SyncRun {
    pub fn new(config: Config, dirs: Dirs) -> (r: SyncRun)
        ensures
            r@ == sync_start(config@, dirs@),
    {
        let cd = match &dirs.config {
            Some(p) => Some(p.duplicate()),
            None => None,
        };
        let rv = ResolveRun::new(config.repo_dir(), cd);
        SyncRun { config, dirs, phase: SyncPhase::Resolving(rv) }
    }

    fn pushing(&mut self, pv: PushRun, st: Step) -> (out: Step)
        ensures
            (final(self)@, out@) == sync_pushing(old(self)@, pv@, st@),
    {
        match st {
            Step::Do(e) => {
                self.phase = SyncPhase::Pushing(pv);
                Step::Do(e)
            },
            Step::Finish(res) => {
                self.phase = SyncPhase::Over;
                Step::Finish(res)
            },
        }
    }

    pub fn resume(&mut self, reply: Reply) -> (st: Step)
        ensures
            (final(self)@, st@) == sync_next(old(self)@, reply@),
    {
        let mut phase = SyncPhase::Over;
        std::mem::swap(&mut phase, &mut self.phase);
        match phase {
            SyncPhase::Resolving(mut rv) => {
                let st = rv.resume(reply);
                match st {
                    Step::Do(e) => {
                        self.phase = SyncPhase::Resolving(rv);
                        Step::Do(e)
                    },
                    Step::Finish(Ok(Outcome::Path(repo))) => {
                        let c = Command::git(Some(repo.duplicate()), false).word("pull").word("--rebase");
                        assert(c@.args =~= rebase_command(repo@).args);
                        self.phase = SyncPhase::Rebasing(repo);
                        Step::Do(Effect::Run(c))
                    },
                    Step::Finish(Ok(_)) => Step::Finish(Err(DotsyncError::UnexpectedReply)),
                    Step::Finish(Err(e)) => Step::Finish(Err(e)),
                }
            },
            SyncPhase::Rebasing(repo) => match reply {
                Reply::Exit(x) => {
                    if !x.success {
                        Step::Finish(Err(DotsyncError::RebaseFailed { repo_dir: repo }))
                    } else {
                        let mut pv = PushRun::new(self.config.duplicate(), self.dirs.duplicate());
                        let st = pv.resume(Reply::Done);
                        self.pushing(pv, st)
                    }
                },
                Reply::Failed(m) => Step::Finish(Err(DotsyncError::Io { reason: m })),
                _ => Step::Finish(Err(DotsyncError::UnexpectedReply)),
            },
            SyncPhase::Pushing(mut pv) => {
                let st = pv.resume(reply);
                self.pushing(pv, st)
            },
            SyncPhase::Over => Step::Finish(Err(DotsyncError::UnexpectedReply)),
        }
    }
}

impl Config {
    /// `sync`: `git pull --rebase` in the repository, then a full `push`. The
    /// user's directories are looked up once, at the start.
    pub fn sync(&self) -> (r: SyncRun)
        ensures
            r@ == sync_start(self@, r@.dirs),
            found_dir(r@.dirs.config),
            found_dir(r@.dirs.home),
    {
        SyncRun::new(self.duplicate(), Dirs::lookup())
    }
}

/// `sync`: loads the stored config and syncs.
pub fn sync() -> (s: crate::session::Session)
    ensures
        s@ == crate::session::session_loading(crate::session::Next::Sync, s@->Loading_dirs),
        found_dir(s@->Loading_dirs.config),
        found_dir(s@->Loading_dirs.home),
{
    crate::session::Session::after_load(crate::session::Next::Sync, Dirs::lookup())
}

} // verus!
