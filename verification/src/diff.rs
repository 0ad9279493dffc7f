//! `diff`: shows what `push` would commit.
use crate::config::{Config, ConfigView, EntryView};
use crate::effect::{ask, done_ok, done_with, Arg, ArgView, Command, CommandView, Effect, EffectView, Notice, NoticeView, Outcome, OutcomeView, Program, Reply, ReplyView, Step, StepView};
use crate::env::{found_dir, Dirs, DirsView};
use crate::error::{DotsyncError, ErrorView};
use crate::path::{components, has_prefix, joined, LocalPath, PathView};
use crate::push::git_in;
use crate::resolve::{resolve_next, resolve_start, ResolveRun, ResolveView};
use vstd::prelude::*;

verus! {

pub enum DiffPhase {
    Resolving(ResolveRun),
    /// Waiting for the canonical form of entry `k`'s source.
    Source { k: usize },
    /// Waiting to learn whether entry `k`'s copy `dest` exists.
    Probing { k: usize, src: LocalPath, dest: LocalPath },
    /// Waiting for the notice that entry `k` is not in the repository yet.
    Noting { k: usize },
    /// Waiting for `diff -ru` on entry `k`.
    Diffing { k: usize },
    /// Waiting for entry `k`'s differences to be shown.
    Showing { k: usize },
    /// Waiting for `git diff HEAD`.
    Head,
    /// Waiting for the repository's differences to be shown.
    HeadShown,
    Closing,
    Over,
}

pub enum DiffPhaseView {
    Resolving(ResolveView),
    Source { k: int },
    Probing { k: int, src: PathView, dest: PathView },
    Noting { k: int },
    Diffing { k: int },
    Showing { k: int },
    Head,
    HeadShown,
    Closing,
    Over,
}

impl View for DiffPhase {
    type V = DiffPhaseView;

    open spec fn view(&self) -> DiffPhaseView {
        match self {
            DiffPhase::Resolving(r) => DiffPhaseView::Resolving(r@),
            DiffPhase::Source { k } => DiffPhaseView::Source { k: *k as int },
            DiffPhase::Probing { k, src, dest } => DiffPhaseView::Probing {
                k: *k as int,
                src: src@,
                dest: dest@,
            },
            DiffPhase::Noting { k } => DiffPhaseView::Noting { k: *k as int },
            DiffPhase::Diffing { k } => DiffPhaseView::Diffing { k: *k as int },
            DiffPhase::Showing { k } => DiffPhaseView::Showing { k: *k as int },
            DiffPhase::Head => DiffPhaseView::Head,
            DiffPhase::HeadShown => DiffPhaseView::HeadShown,
            DiffPhase::Closing => DiffPhaseView::Closing,
            DiffPhase::Over => DiffPhaseView::Over,
        }
    }
}

/// A run of `Config::diff`; `any_diff` records whether a difference was shown.
pub struct DiffRun {
    pub config: Config,
    pub repo: LocalPath,
    pub any_diff: bool,
    pub phase: DiffPhase,
}

pub struct DiffView {
    pub config: ConfigView,
    pub repo: PathView,
    pub any_diff: bool,
    pub phase: DiffPhaseView,
}

impl View for DiffRun {
    type V = DiffView;

    open spec fn view(&self) -> DiffView {
        DiffView { config: self.config@, repo: self.repo@, any_diff: self.any_diff, phase: self.phase@ }
    }
}

pub open spec fn diff_start(config: ConfigView, config_dir: Option<PathView>) -> DiffView {
    DiffView {
        config,
        repo: Seq::empty(),
        any_diff: false,
        phase: DiffPhaseView::Resolving(resolve_start(config.repo_dir, config_dir)),
    }
}

pub open spec fn head_command(repo: PathView) -> CommandView {
    git_in(repo, seq!["diff"@, "HEAD"@], true)
}

/// `diff -ru <src> <dest>`, output collected.
pub open spec fn tree_diff_command(src: PathView, dest: PathView) -> CommandView {
    CommandView {
        program: Program::Diff,
        args: seq![ArgView::Text("-ru"@), ArgView::Path(src), ArgView::Path(dest)],
        dir: None,
        capture: true,
    }
}

pub open spec fn diff_in(s: DiffView, phase: DiffPhaseView) -> DiffView {
    DiffView { phase, ..s }
}

pub open spec fn diff_fail(s: DiffView, e: ErrorView) -> (DiffView, StepView) {
    (diff_in(s, DiffPhaseView::Over), done_with(e))
}

pub open spec fn diff_entry(s: DiffView, k: int) -> EntryView {
    s.config.entries[k]
}

/// Goes on from entry `k`; after the last entry, `git diff HEAD` shows the
/// uncommitted changes of entries that live inside the repository.
pub open spec fn diff_enter(s: DiffView, k: int) -> (DiffView, StepView) {
    if k < 0 || k >= s.config.entries.len() {
        (diff_in(s, DiffPhaseView::Head), ask(EffectView::Run(head_command(s.repo))))
    } else {
        (diff_in(s, DiffPhaseView::Source { k }), ask(EffectView::Canonicalize(diff_entry(s, k).source)))
    }
}

/// The end: with no difference seen, the user is told so.
pub open spec fn diff_finish(s: DiffView) -> (DiffView, StepView) {
    if !s.any_diff {
        (diff_in(s, DiffPhaseView::Closing), ask(EffectView::Say(NoticeView::NoDifferences)))
    } else {
        (diff_in(s, DiffPhaseView::Over), done_ok(OutcomeView::Nothing))
    }
}

/// One step of `Config::diff`.
pub open spec fn diff_next(s: DiffView, r: ReplyView) -> (DiffView, StepView) {
    let unexpected = diff_fail(s, ErrorView::UnexpectedReply);
    let base = diff_in(s, DiffPhaseView::Over);
    let n = s.config.entries.len();
    match s.phase {
        DiffPhaseView::Resolving(rv) => {
            let (rv2, st) = resolve_next(rv, r);
            match st {
                StepView::Do(e) => (diff_in(s, DiffPhaseView::Resolving(rv2)), ask(e)),
                StepView::Finish(Ok(OutcomeView::Path(repo))) => diff_enter(DiffView { repo, ..base }, 0),
                StepView::Finish(Ok(_)) => unexpected,
                StepView::Finish(Err(e)) => diff_fail(s, e),
            }
        },
        DiffPhaseView::Source { k } => if !(0 <= k < n) {
            unexpected
        } else {
            match r {
                ReplyView::Path(src) => if has_prefix(src, s.repo) {
                    diff_enter(base, k + 1)
                } else {
                    let dest = joined(s.repo, components(diff_entry(s, k).name));
                    (diff_in(s, DiffPhaseView::Probing { k, src, dest }), ask(EffectView::Exists(dest)))
                },
                ReplyView::Failed(m) => diff_fail(
                    s,
                    ErrorView::SourceMissing { source: diff_entry(s, k).source, reason: m },
                ),
                _ => unexpected,
            }
        },
        DiffPhaseView::Probing { k, src, dest } => if !(0 <= k < n) {
            unexpected
        } else {
            match r {
                ReplyView::Flag(false) => (
                    DiffView { any_diff: true, phase: DiffPhaseView::Noting { k }, ..s },
                    ask(EffectView::Say(NoticeView::NotInRepoYet(diff_entry(s, k).name))),
                ),
                ReplyView::Flag(true) => (
                    diff_in(s, DiffPhaseView::Diffing { k }),
                    ask(EffectView::Run(tree_diff_command(src, dest))),
                ),
                _ => unexpected,
            }
        },
        DiffPhaseView::Noting { k } => match r {
            ReplyView::Done => diff_enter(base, k + 1),
            _ => unexpected,
        },
        DiffPhaseView::Diffing { k } => if !(0 <= k < n) {
            unexpected
        } else {
            match r {
                ReplyView::Exit(x) => if x.code == Some(0i32) {
                    diff_enter(base, k + 1)
                } else if x.code == Some(1i32) {
                    (
                        DiffView { any_diff: true, phase: DiffPhaseView::Showing { k }, ..s },
                        ask(EffectView::Show(x.stdout)),
                    )
                } else {
                    diff_fail(s, ErrorView::DiffFailed { name: diff_entry(s, k).name })
                },
                ReplyView::Failed(m) => diff_fail(s, ErrorView::Io { reason: m }),
                _ => unexpected,
            }
        },
        DiffPhaseView::Showing { k } => match r {
            ReplyView::Done => diff_enter(base, k + 1),
            _ => unexpected,
        },
        DiffPhaseView::Head => match r {
            ReplyView::Exit(x) => if x.stdout.len() > 0 {
                (
                    DiffView { any_diff: true, phase: DiffPhaseView::HeadShown, ..s },
                    ask(EffectView::Show(x.stdout)),
                )
            } else {
                diff_finish(base)
            },
            ReplyView::Failed(m) => diff_fail(s, ErrorView::Io { reason: m }),
            _ => unexpected,
        },
        DiffPhaseView::HeadShown => match r {
            ReplyView::Done => diff_finish(base),
            _ => unexpected,
        },
        DiffPhaseView::Closing => match r {
            ReplyView::Done => (base, done_ok(OutcomeView::Nothing)),
            _ => unexpected,
        },
        DiffPhaseView::Over => unexpected,
    }
}

/// Once diff has seen a difference it stays seen, and "no differences" is said
/// only when none was seen.
/// The output of `git diff HEAD` is never dropped: the run waits for that command
/// only after asking for it in the repository, and when it exits with output,
/// the next step shows exactly that output and marks a difference as seen, so
/// "no differences" is not said afterwards (see `lemma_diff_reports_honestly`).
pub proof fn lemma_diff_shows_head_output(s: DiffView, r: ReplyView)
    ensures
        diff_next(s, r).0.phase is Head && !(s.phase is Head) ==> diff_next(s, r).1 == ask(
            EffectView::Run(head_command(diff_next(s, r).0.repo)),
        ),
        s.phase is Head && (r matches ReplyView::Exit(x) && x.stdout.len() > 0) ==> diff_next(s, r).1 == ask(
            EffectView::Show(r->Exit_0.stdout),
        ) && diff_next(s, r).0.any_diff,
{
}

pub proof fn lemma_diff_reports_honestly(s: DiffView, r: ReplyView)
    ensures
        s.any_diff ==> diff_next(s, r).0.any_diff,
        diff_next(s, r).1 == ask(EffectView::Say(NoticeView::NoDifferences)) ==> !diff_next(s, r).0.any_diff,
        diff_next(s, r).1 matches StepView::Do(EffectView::Show(_)) ==> diff_next(s, r).0.any_diff,
        diff_next(s, r).1 matches StepView::Do(EffectView::Say(NoticeView::NotInRepoYet(_)))
            ==> diff_next(s, r).0.any_diff,
{
}

impl DiffRun {
    pub fn new(config: Config, config_dir: Option<LocalPath>) -> (r: DiffRun)
        ensures
            r@ == diff_start(config@, crate::effect::opt_path(config_dir)),
    {
        let rv = ResolveRun::new(config.repo_dir(), config_dir);
        DiffRun { config, repo: LocalPath::empty(), any_diff: false, phase: DiffPhase::Resolving(rv) }
    }

    fn fail(&mut self, e: DotsyncError) -> (st: Step)
        ensures
            (final(self)@, st@) == diff_fail(old(self)@, e@),
    {
        self.phase = DiffPhase::Over;
        Step::Finish(Err(e))
    }

    fn enter(&mut self, k: usize) -> (st: Step)
        ensures
            (final(self)@, st@) == diff_enter(old(self)@, k as int),
    {
        if k >= self.config.entry_count() {
            let c = Command::git(Some(self.repo.duplicate()), true).word("diff").word("HEAD");
            assert(c@.args =~= head_command(self.repo@).args);
            self.phase = DiffPhase::Head;
            Step::Do(Effect::Run(c))
        } else {
            let source = self.config.entry(k).source();
            self.phase = DiffPhase::Source { k };
            Step::Do(Effect::Canonicalize(source))
        }
    }

    fn finish(&mut self) -> (st: Step)
        ensures
            (final(self)@, st@) == diff_finish(old(self)@),
    {
        if !self.any_diff {
            self.phase = DiffPhase::Closing;
            Step::Do(Effect::Say(Notice::NoDifferences))
        } else {
            self.phase = DiffPhase::Over;
            Step::Finish(Ok(Outcome::Nothing))
        }
    }

    pub fn resume(&mut self, reply: Reply) -> (st: Step)
        ensures
            (final(self)@, st@) == diff_next(old(self)@, reply@),
    {
        let mut phase = DiffPhase::Over;
        std::mem::swap(&mut phase, &mut self.phase);
        let n = self.config.entry_count();
        match phase {
            DiffPhase::Resolving(mut rv) => {
                let st = rv.resume(reply);
                match st {
                    Step::Do(e) => {
                        self.phase = DiffPhase::Resolving(rv);
                        Step::Do(e)
                    },
                    Step::Finish(Ok(Outcome::Path(repo))) => {
                        self.repo = repo;
                        self.enter(0)
                    },
                    Step::Finish(Ok(_)) => self.fail(DotsyncError::UnexpectedReply),
                    Step::Finish(Err(e)) => self.fail(e),
                }
            },
            DiffPhase::Source { k } => if k >= n {
                self.fail(DotsyncError::UnexpectedReply)
            } else {
                match reply {
                    Reply::Path(src) => {
                        if src.starts_with(&self.repo) {
                            self.enter(k + 1)
                        } else {
                            let name = self.config.entry(k).name();
                            let dest = self.repo.join(&LocalPath::parse(name.as_str()));
                            let probe = dest.duplicate();
                            self.phase = DiffPhase::Probing { k, src, dest };
                            Step::Do(Effect::Exists(probe))
                        }
                    },
                    Reply::Failed(m) => {
                        let source = self.config.entry(k).source();
                        self.fail(DotsyncError::SourceMissing { source, reason: m })
                    },
                    _ => self.fail(DotsyncError::UnexpectedReply),
                }
            },
            DiffPhase::Probing { k, src, dest } => if k >= n {
                self.fail(DotsyncError::UnexpectedReply)
            } else {
                match reply {
                    Reply::Flag(false) => {
                        let name = self.config.entry(k).name();
                        self.any_diff = true;
                        self.phase = DiffPhase::Noting { k };
                        Step::Do(Effect::Say(Notice::NotInRepoYet(name)))
                    },
                    Reply::Flag(true) => {
                        let c = Command {
                            program: Program::Diff,
                            args: Vec::new(),
                            dir: None,
                            capture: true,
                        }.word("-ru").arg(Arg::Path(src)).arg(Arg::Path(dest));
                        assert(c@.args =~= tree_diff_command(src@, dest@).args);
                        self.phase = DiffPhase::Diffing { k };
                        Step::Do(Effect::Run(c))
                    },
                    _ => self.fail(DotsyncError::UnexpectedReply),
                }
            },
            DiffPhase::Noting { k } => match reply {
                Reply::Done => {
                    if k >= n {
                        self.enter(k)
                    } else {
                        self.enter(k + 1)
                    }
                },
                _ => self.fail(DotsyncError::UnexpectedReply),
            },
            DiffPhase::Diffing { k } => if k >= n {
                self.fail(DotsyncError::UnexpectedReply)
            } else {
                match reply {
                    Reply::Exit(x) => {
                        if x.code == Some(0i32) {
                            self.enter(k + 1)
                        } else if x.code == Some(1i32) {
                            self.any_diff = true;
                            self.phase = DiffPhase::Showing { k };
                            Step::Do(Effect::Show(x.stdout))
                        } else {
                            let name = self.config.entry(k).name();
                            self.fail(DotsyncError::DiffFailed { name })
                        }
                    },
                    Reply::Failed(m) => self.fail(DotsyncError::Io { reason: m }),
                    _ => self.fail(DotsyncError::UnexpectedReply),
                }
            },
            DiffPhase::Showing { k } => match reply {
                Reply::Done => {
                    if k >= n {
                        self.enter(k)
                    } else {
                        self.enter(k + 1)
                    }
                },
                _ => self.fail(DotsyncError::UnexpectedReply),
            },
            DiffPhase::Head => match reply {
                Reply::Exit(x) => {
                    if x.stdout.len() > 0 {
                        self.any_diff = true;
                        self.phase = DiffPhase::HeadShown;
                        Step::Do(Effect::Show(x.stdout))
                    } else {
                        self.finish()
                    }
                },
                Reply::Failed(m) => self.fail(DotsyncError::Io { reason: m }),
                _ => self.fail(DotsyncError::UnexpectedReply),
            },
            DiffPhase::HeadShown => match reply {
                Reply::Done => self.finish(),
                _ => self.fail(DotsyncError::UnexpectedReply),
            },
            DiffPhase::Closing => match reply {
                Reply::Done => Step::Finish(Ok(Outcome::Nothing)),
                _ => self.fail(DotsyncError::UnexpectedReply),
            },
            DiffPhase::Over => self.fail(DotsyncError::UnexpectedReply),
        }
    }
}

impl Config {
    /// `diff`: shows, for each tracked entry outside the repository, how its live
    /// copy differs from the repository's copy, then the repository's uncommitted
    /// changes. The user's config directory is looked up at the start.
    pub fn diff(&self) -> (r: DiffRun)
        ensures
            exists|cd: Option<PathView>| found_dir(cd) && r@ == diff_start(self@, cd),
    {
        let dirs = Dirs::lookup();
        let cd = dirs.config;
        DiffRun::new(self.duplicate(), cd)
    }
}

/// `diff`: loads the stored config and shows what push would commit.
pub fn diff() -> (s: crate::session::Session)
    ensures
        s@ == crate::session::session_loading(crate::session::Next::Diff, s@->Loading_dirs),
        found_dir(s@->Loading_dirs.config),
        found_dir(s@->Loading_dirs.home),
{
    crate::session::Session::after_load(crate::session::Next::Diff, Dirs::lookup())
}

} // verus!
