//! Finding the repository directory on disk: a relative `repo_dir` is looked
//! for inside the user's config directory first, then taken as it is.
use crate::effect::{ask, done_ok, done_with, Effect, EffectView, Notice, NoticeView, Outcome, OutcomeView, Reply, ReplyView, Step, StepView};
use crate::error::{DotsyncError, ErrorView};
use crate::path::{joined, LocalPath, PathView};
use vstd::prelude::*;

verus! {

pub enum ResolvePhase {
    Start,
    /// Waiting for the notice of the candidate inside the config directory.
    Announcing(LocalPath),
    /// Waiting to learn whether the candidate inside the config directory exists.
    Probing(LocalPath),
    /// Waiting for the canonical form of this path.
    Canon(LocalPath),
    Over,
}

pub enum ResolvePhaseView {
    Start,
    Announcing(PathView),
    Probing(PathView),
    Canon(PathView),
    Over,
}

impl View for ResolvePhase {
    type V = ResolvePhaseView;

    open spec fn view(&self) -> ResolvePhaseView {
        match self {
            ResolvePhase::Start => ResolvePhaseView::Start,
            ResolvePhase::Announcing(p) => ResolvePhaseView::Announcing(p@),
            ResolvePhase::Probing(p) => ResolvePhaseView::Probing(p@),
            ResolvePhase::Canon(p) => ResolvePhaseView::Canon(p@),
            ResolvePhase::Over => ResolvePhaseView::Over,
        }
    }
}

/// A run of `resolve_repo_dir`.
pub struct ResolveRun {
    pub repo_dir: LocalPath,
    pub config_dir: Option<LocalPath>,
    pub phase: ResolvePhase,
}

pub struct ResolveView {
    pub repo_dir: PathView,
    pub config_dir: Option<PathView>,
    pub phase: ResolvePhaseView,
}

impl View for ResolveRun {
    type V = ResolveView;

    open spec fn view(&self) -> ResolveView {
        ResolveView {
            repo_dir: self.repo_dir@,
            config_dir: crate::effect::opt_path(self.config_dir),
            phase: self.phase@,
        }
    }
}

pub open spec fn resolve_start(repo_dir: PathView, config_dir: Option<PathView>) -> ResolveView {
    ResolveView { repo_dir, config_dir, phase: ResolvePhaseView::Start }
}

pub open spec fn resolve_in(s: ResolveView, phase: ResolvePhaseView) -> ResolveView {
    ResolveView { phase, ..s }
}

/// One step of `resolve_repo_dir`: the config directory joined with `repo_dir`
/// is shown to the user, and used when it exists, `repo_dir` itself otherwise; either is made canonical.
pub open spec fn resolve_next(s: ResolveView, r: ReplyView) -> (ResolveView, StepView) {
    let over = resolve_in(s, ResolvePhaseView::Over);
    match s.phase {
        ResolvePhaseView::Start => match s.config_dir {
            None => (over, done_with(ErrorView::NoConfigDir)),
            Some(cd) => {
                let via = joined(cd, s.repo_dir);
                (resolve_in(s, ResolvePhaseView::Announcing(via)), ask(EffectView::Say(NoticeView::RepoCandidate(via))))
            },
        },
        ResolvePhaseView::Announcing(via) => match r {
            ReplyView::Done => (resolve_in(s, ResolvePhaseView::Probing(via)), ask(EffectView::Exists(via))),
            _ => (over, done_with(ErrorView::UnexpectedReply)),
        },
        ResolvePhaseView::Probing(via) => match r {
            ReplyView::Flag(true) => (
                resolve_in(s, ResolvePhaseView::Canon(via)),
                ask(EffectView::Canonicalize(via)),
            ),
            ReplyView::Flag(false) => (
                resolve_in(s, ResolvePhaseView::Canon(s.repo_dir)),
                ask(EffectView::Canonicalize(s.repo_dir)),
            ),
            _ => (over, done_with(ErrorView::UnexpectedReply)),
        },
        ResolvePhaseView::Canon(p) => match r {
            ReplyView::Path(q) => (over, done_ok(OutcomeView::Path(q))),
            ReplyView::Failed(m) => (over, done_with(ErrorView::Canonicalize { path: p, reason: m })),
            _ => (over, done_with(ErrorView::UnexpectedReply)),
        },
        ResolvePhaseView::Over => (over, done_with(ErrorView::UnexpectedReply)),
    }
}

pub fn unexpected() -> (st: Step)
    ensures
        st@ == done_with(ErrorView::UnexpectedReply),
{
    Step::Finish(Err(DotsyncError::UnexpectedReply))
}

impl ResolveRun {
    pub fn new(repo_dir: LocalPath, config_dir: Option<LocalPath>) -> (r: ResolveRun)
        ensures
            r@ == resolve_start(repo_dir@, crate::effect::opt_path(config_dir)),
    {
        ResolveRun { repo_dir, config_dir, phase: ResolvePhase::Start }
    }

    pub fn resume(&mut self, reply: Reply) -> (st: Step)
        ensures
            (final(self)@, st@) == resolve_next(old(self)@, reply@),
    {
        let mut phase = ResolvePhase::Over;
        std::mem::swap(&mut phase, &mut self.phase);
        match phase {
            ResolvePhase::Start => match &self.config_dir {
                None => Step::Finish(Err(DotsyncError::NoConfigDir)),
                Some(cd) => {
                    let via = cd.join(&self.repo_dir);
                    self.phase = ResolvePhase::Announcing(via.duplicate());
                    Step::Do(Effect::Say(Notice::RepoCandidate(via)))
                },
            },
            ResolvePhase::Announcing(via) => match reply {
                Reply::Done => {
                    self.phase = ResolvePhase::Probing(via.duplicate());
                    Step::Do(Effect::Exists(via))
                },
                _ => unexpected(),
            },
            ResolvePhase::Probing(via) => match reply {
                Reply::Flag(true) => {
                    self.phase = ResolvePhase::Canon(via.duplicate());
                    Step::Do(Effect::Canonicalize(via))
                },
                Reply::Flag(false) => {
                    self.phase = ResolvePhase::Canon(self.repo_dir.duplicate());
                    Step::Do(Effect::Canonicalize(self.repo_dir.duplicate()))
                },
                _ => unexpected(),
            },
            ResolvePhase::Canon(p) => match reply {
                Reply::Path(q) => Step::Finish(Ok(Outcome::Path(q))),
                Reply::Failed(m) => Step::Finish(Err(DotsyncError::Canonicalize { path: p, reason: m })),
                _ => unexpected(),
            },
            ResolvePhase::Over => unexpected(),
        }
    }
}

} // verus!
