//! A whole command as the program runs it: the commands that start from the
//! stored config load it first.
use crate::add::{add_next, AddRun, AddView};
use crate::clone_repo::{clone_next, CloneRun, CloneView};
use crate::config::{config_file_in, Config, ConfigView};
use crate::diff::{diff_next, diff_start, DiffRun, DiffView};
use crate::effect::{ask, done_ok, done_with, Effect, EffectView, Notice, NoticeView, Outcome, OutcomeView, Reply, ReplyView, Step, StepView};
use crate::env::{found_dir, Dirs, DirsView};
use crate::error::{DotsyncError, ErrorView};
use crate::init::{init_next, InitRun, InitView};
use crate::pull::{pull_next, pull_start, PullRun, PullView};
use crate::push::{push_next, push_start, PushRun, PushView};
use crate::resolve::{resolve_next, resolve_start, ResolveRun, ResolveView};
use crate::store::{load_next, load_start, LoadRun, LoadView};
use crate::sync::{sync_next, sync_start, SyncRun, SyncView};
use vstd::prelude::*;

verus! {

/// What runs once the stored config is loaded.
#[derive(PartialEq, Eq, Structural, Clone, Copy, Debug)]
pub enum Next {
    Push,
    Pull,
    Sync,
    Diff,
    /// Show where the repository directory resolves to.
    Repo,
    /// Show the stored config, or why it cannot be loaded.
    Show,
}

pub enum Session {
    Loading { load: LoadRun, dirs: Dirs, next: Next },
    Push(PushRun),
    Pull(PullRun),
    Sync(SyncRun),
    Diff(DiffRun),
    Repo(ResolveRun),
    Add(AddRun),
    Clone(CloneRun),
    Init(InitRun),
    /// Waiting for the last message to be shown.
    Closing,
    Over,
}

pub enum SessionView {
    Loading { load: LoadView, dirs: DirsView, next: Next },
    Push(PushView),
    Pull(PullView),
    Sync(SyncView),
    Diff(DiffView),
    Repo(ResolveView),
    Add(AddView),
    Clone(CloneView),
    Init(InitView),
    Closing,
    Over,
}

impl View for Session {
    type V = SessionView;

    open spec fn view(&self) -> SessionView {
        match self {
            Session::Loading { load, dirs, next } => SessionView::Loading {
                load: load@,
                dirs: dirs@,
                next: *next,
            },
            Session::Push(r) => SessionView::Push(r@),
            Session::Pull(r) => SessionView::Pull(r@),
            Session::Sync(r) => SessionView::Sync(r@),
            Session::Diff(r) => SessionView::Diff(r@),
            Session::Repo(r) => SessionView::Repo(r@),
            Session::Add(r) => SessionView::Add(r@),
            Session::Clone(r) => SessionView::Clone(r@),
            Session::Init(r) => SessionView::Init(r@),
            Session::Closing => SessionView::Closing,
            Session::Over => SessionView::Over,
        }
    }
}

pub open spec fn session_loading(next: Next, dirs: DirsView) -> SessionView {
    SessionView::Loading { load: load_start(dirs.config), dirs, next }
}

/// A machine's step seen from the session: a finished machine ends the session.
pub open spec fn wrap(v: SessionView, st: StepView) -> (SessionView, StepView) {
    match st {
        StepView::Do(e) => (v, ask(e)),
        StepView::Finish(res) => (SessionView::Over, StepView::Finish(res)),
    }
}

/// Starts what follows the load of `c`.
pub open spec fn session_begin(next: Next, c: ConfigView, dirs: DirsView) -> (SessionView, StepView) {
    match next {
        Next::Push => {
            let (m, st) = push_next(push_start(c, dirs), ReplyView::Done);
            wrap(SessionView::Push(m), st)
        },
        Next::Pull => {
            let (m, st) = pull_next(pull_start(c, dirs), ReplyView::Done);
            wrap(SessionView::Pull(m), st)
        },
        Next::Sync => {
            let (m, st) = sync_next(sync_start(c, dirs), ReplyView::Done);
            wrap(SessionView::Sync(m), st)
        },
        Next::Diff => {
            let (m, st) = diff_next(diff_start(c, dirs.config), ReplyView::Done);
            wrap(SessionView::Diff(m), st)
        },
        Next::Repo => {
            let (m, st) = resolve_next(resolve_start(c.repo_dir, dirs.config), ReplyView::Done);
            session_repo(m, st)
        },
        Next::Show => (SessionView::Closing, ask(EffectView::Say(NoticeView::ConfigShown(c)))),
    }
}

/// The resolved repository directory is shown.
pub open spec fn session_repo(m: ResolveView, st: StepView) -> (SessionView, StepView) {
    match st {
        StepView::Do(e) => (SessionView::Repo(m), ask(e)),
        StepView::Finish(Ok(OutcomeView::Path(p))) => (
            SessionView::Closing,
            ask(EffectView::Say(NoticeView::ResolvedRepo(p))),
        ),
        StepView::Finish(Ok(_)) => (SessionView::Over, done_with(ErrorView::UnexpectedReply)),
        StepView::Finish(Err(e)) => (SessionView::Over, done_with(e)),
    }
}

/// One step of a session.
pub open spec fn session_next(s: SessionView, r: ReplyView) -> (SessionView, StepView) {
    match s {
        SessionView::Loading { load, dirs, next } => {
            let (l2, st) = load_next(load, r);
            match st {
                StepView::Do(e) => (SessionView::Loading { load: l2, dirs, next }, ask(e)),
                StepView::Finish(Ok(OutcomeView::Loaded(c))) => session_begin(next, c, dirs),
                StepView::Finish(Ok(_)) => (SessionView::Over, done_with(ErrorView::UnexpectedReply)),
                StepView::Finish(Err(e)) => if next == Next::Show {
                    (SessionView::Closing, ask(EffectView::Say(NoticeView::ConfigUnavailable(e))))
                } else {
                    (SessionView::Over, done_with(e))
                },
            }
        },
        SessionView::Push(m) => {
            let (m2, st) = push_next(m, r);
            wrap(SessionView::Push(m2), st)
        },
        SessionView::Pull(m) => {
            let (m2, st) = pull_next(m, r);
            wrap(SessionView::Pull(m2), st)
        },
        SessionView::Sync(m) => {
            let (m2, st) = sync_next(m, r);
            wrap(SessionView::Sync(m2), st)
        },
        SessionView::Diff(m) => {
            let (m2, st) = diff_next(m, r);
            wrap(SessionView::Diff(m2), st)
        },
        SessionView::Repo(m) => {
            let (m2, st) = resolve_next(m, r);
            session_repo(m2, st)
        },
        SessionView::Add(m) => {
            let (m2, st) = add_next(m, r);
            wrap(SessionView::Add(m2), st)
        },
        SessionView::Clone(m) => {
            let (m2, st) = clone_next(m, r);
            wrap(SessionView::Clone(m2), st)
        },
        SessionView::Init(m) => {
            let (m2, st) = init_next(m, r);
            wrap(SessionView::Init(m2), st)
        },
        SessionView::Closing => match r {
            ReplyView::Done => (SessionView::Over, done_ok(OutcomeView::Nothing)),
            _ => (SessionView::Over, done_with(ErrorView::UnexpectedReply)),
        },
        SessionView::Over => (SessionView::Over, done_with(ErrorView::UnexpectedReply)),
    }
}

/// Push, pull, sync and diff load the stored config first. While loading, the only
/// effect asked for is reading the config file; a failed load ends the command
/// with that error, before any other effect; a loaded config `c` starts exactly
/// the run that `c.push()` (or `pull`, `sync`, `diff`) starts, at its first step.
pub proof fn lemma_session_loads_then_runs(load: LoadView, dirs: DirsView, next: Next, r: ReplyView)
    requires
        next == Next::Push || next == Next::Pull || next == Next::Sync || next == Next::Diff,
    ensures
        load_next(load, r).1 matches StepView::Do(e) ==> load.config_dir is Some && e == (EffectView::ReadConfig {
            path: config_file_in(load.config_dir->0),
            announce: true,
        }) && session_next(SessionView::Loading { load, dirs, next }, r) == (
        SessionView::Loading { load: load_next(load, r).0, dirs, next },
        ask(e),
        ),
        load_next(load, r).1 matches StepView::Finish(Err(e)) ==> session_next(
            SessionView::Loading { load, dirs, next },
            r,
        ) == (SessionView::Over, done_with(e)),
        load_next(load, r).1 matches StepView::Finish(Ok(OutcomeView::Loaded(c))) ==> session_next(
            SessionView::Loading { load, dirs, next },
            r,
        ) == match next {
            Next::Push => wrap(
                SessionView::Push(push_next(push_start(c, dirs), ReplyView::Done).0),
                push_next(push_start(c, dirs), ReplyView::Done).1,
            ),
            Next::Pull => wrap(
                SessionView::Pull(pull_next(pull_start(c, dirs), ReplyView::Done).0),
                pull_next(pull_start(c, dirs), ReplyView::Done).1,
            ),
            Next::Sync => wrap(
                SessionView::Sync(sync_next(sync_start(c, dirs), ReplyView::Done).0),
                sync_next(sync_start(c, dirs), ReplyView::Done).1,
            ),
            _ => wrap(
                SessionView::Diff(diff_next(diff_start(c, dirs.config), ReplyView::Done).0),
                diff_next(diff_start(c, dirs.config), ReplyView::Done).1,
            ),
        },
{
}

impl Session {
    /// A session that loads the stored config, then runs `next`.
    pub fn after_load(next: Next, dirs: Dirs) -> (s: Session)
        ensures
            s@ == session_loading(next, dirs@),
    {
        let cd = match &dirs.config {
            Some(p) => Some(p.duplicate()),
            None => None,
        };
        Session::Loading { load: LoadRun::new(cd), dirs, next }
    }

    fn wrap_step(&mut self, st: Step) -> (out: Step)
        ensures
            (final(self)@, out@) == wrap(old(self)@, st@),
    {
        match st {
            Step::Do(e) => Step::Do(e),
            Step::Finish(res) => {
                *self = Session::Over;
                Step::Finish(res)
            },
        }
    }

    fn repo_step(&mut self, m: ResolveRun, st: Step) -> (out: Step)
        ensures
            (final(self)@, out@) == session_repo(m@, st@),
    {
        match st {
            Step::Do(e) => {
                *self = Session::Repo(m);
                Step::Do(e)
            },
            Step::Finish(Ok(Outcome::Path(p))) => {
                *self = Session::Closing;
                Step::Do(Effect::Say(Notice::ResolvedRepo(p)))
            },
            Step::Finish(Ok(_)) => {
                *self = Session::Over;
                Step::Finish(Err(DotsyncError::UnexpectedReply))
            },
            Step::Finish(Err(e)) => {
                *self = Session::Over;
                Step::Finish(Err(e))
            },
        }
    }

    fn begin(&mut self, next: Next, c: Config, dirs: Dirs) -> (out: Step)
        ensures
            (final(self)@, out@) == session_begin(next, c@, dirs@),
    {
        match next {
            Next::Push => {
                let mut m = PushRun::new(c, dirs);
                let st = m.resume(Reply::Done);
                *self = Session::Push(m);
                self.wrap_step(st)
            },
            Next::Pull => {
                let mut m = PullRun::new(&c, dirs);
                let st = m.resume(Reply::Done);
                *self = Session::Pull(m);
                self.wrap_step(st)
            },
            Next::Sync => {
                let mut m = SyncRun::new(c, dirs);
                let st = m.resume(Reply::Done);
                *self = Session::Sync(m);
                self.wrap_step(st)
            },
            Next::Diff => {
                let mut m = DiffRun::new(c, dirs.config);
                let st = m.resume(Reply::Done);
                *self = Session::Diff(m);
                self.wrap_step(st)
            },
            Next::Repo => {
                let mut m = ResolveRun::new(c.repo_dir(), dirs.config);
                let st = m.resume(Reply::Done);
                self.repo_step(m, st)
            },
            Next::Show => {
                *self = Session::Closing;
                Step::Do(Effect::Say(Notice::ConfigShown(c)))
            },
        }
    }

    pub fn resume(&mut self, reply: Reply) -> (st: Step)
        ensures
            (final(self)@, st@) == session_next(old(self)@, reply@),
    {
        let mut me = Session::Over;
        std::mem::swap(&mut me, self);
        match me {
            Session::Loading { mut load, dirs, next } => {
                let st = load.resume(reply);
                match st {
                    Step::Do(e) => {
                        *self = Session::Loading { load, dirs, next };
                        Step::Do(e)
                    },
                    Step::Finish(Ok(Outcome::Loaded(c))) => self.begin(next, c, dirs),
                    Step::Finish(Ok(_)) => Step::Finish(Err(DotsyncError::UnexpectedReply)),
                    Step::Finish(Err(e)) => {
                        if next == Next::Show {
                            *self = Session::Closing;
                            Step::Do(Effect::Say(Notice::ConfigUnavailable(e)))
                        } else {
                            Step::Finish(Err(e))
                        }
                    },
                }
            },
            Session::Push(mut m) => {
                let st = m.resume(reply);
                *self = Session::Push(m);
                self.wrap_step(st)
            },
            Session::Pull(mut m) => {
                let st = m.resume(reply);
                *self = Session::Pull(m);
                self.wrap_step(st)
            },
            Session::Sync(mut m) => {
                let st = m.resume(reply);
                *self = Session::Sync(m);
                self.wrap_step(st)
            },
            Session::Diff(mut m) => {
                let st = m.resume(reply);
                *self = Session::Diff(m);
                self.wrap_step(st)
            },
            Session::Repo(mut m) => {
                let st = m.resume(reply);
                self.repo_step(m, st)
            },
            Session::Add(mut m) => {
                let st = m.resume(reply);
                *self = Session::Add(m);
                self.wrap_step(st)
            },
            Session::Clone(mut m) => {
                let st = m.resume(reply);
                *self = Session::Clone(m);
                self.wrap_step(st)
            },
            Session::Init(mut m) => {
                let st = m.resume(reply);
                *self = Session::Init(m);
                self.wrap_step(st)
            },
            Session::Closing => match reply {
                Reply::Done => Step::Finish(Ok(Outcome::Nothing)),
                _ => Step::Finish(Err(DotsyncError::UnexpectedReply)),
            },
            Session::Over => Step::Finish(Err(DotsyncError::UnexpectedReply)),
        }
    }
}

/// The `repo` command: loads the config and shows where its repository resolves.
pub fn repo() -> (s: Session)
    ensures
        s@ == session_loading(Next::Repo, s@->Loading_dirs),
        found_dir(s@->Loading_dirs.config),
        found_dir(s@->Loading_dirs.home),
{
    Session::after_load(Next::Repo, Dirs::lookup())
}

/// The `config` command: loads the config and shows it, or why it cannot be loaded.
pub fn config() -> (s: Session)
    ensures
        s@ == session_loading(Next::Show, s@->Loading_dirs),
        found_dir(s@->Loading_dirs.config),
        found_dir(s@->Loading_dirs.home),
{
    Session::after_load(Next::Show, Dirs::lookup())
}

} // verus!
