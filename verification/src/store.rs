//! Reading and writing the local config file `<config dir>/dotsync/config.toml`.
use crate::config::{config_file_in, Config, ConfigView};
use crate::effect::{ask, done_ok, done_with, opt_path, Effect, EffectView, Outcome, OutcomeView, Reply, ReplyView, Step, StepView};
use crate::error::{DotsyncError, ErrorView};
use crate::path::{parent_of, LocalPath, PathView};
use crate::resolve::{resolve_start, unexpected, ResolveRun};
use crate::env::{found_dir, Dirs};
use vstd::prelude::*;

verus! {

pub enum LoadPhase {
    Start,
    Reading(LocalPath),
    Over,
}

pub enum LoadPhaseView {
    Start,
    Reading(PathView),
    Over,
}

impl View for LoadPhase {
    type V = LoadPhaseView;

    open spec fn view(&self) -> LoadPhaseView {
        match self {
            LoadPhase::Start => LoadPhaseView::Start,
            LoadPhase::Reading(p) => LoadPhaseView::Reading(p@),
            LoadPhase::Over => LoadPhaseView::Over,
        }
    }
}

/// A run of `Config::load`.
pub struct LoadRun {
    pub config_dir: Option<LocalPath>,
    pub phase: LoadPhase,
}

pub struct LoadView {
    pub config_dir: Option<PathView>,
    pub phase: LoadPhaseView,
}

impl View for LoadRun {
    type V = LoadView;

    open spec fn view(&self) -> LoadView {
        LoadView { config_dir: opt_path(self.config_dir), phase: self.phase@ }
    }
}

pub open spec fn load_start(config_dir: Option<PathView>) -> LoadView {
    LoadView { config_dir, phase: LoadPhaseView::Start }
}

/// One step of `Config::load`: the config file is read and parsed.
pub open spec fn load_next(s: LoadView, r: ReplyView) -> (LoadView, StepView) {
    let over = LoadView { phase: LoadPhaseView::Over, ..s };
    match s.phase {
        LoadPhaseView::Start => match s.config_dir {
            None => (over, done_with(ErrorView::NoConfigDir)),
            Some(cd) => (
                LoadView { phase: LoadPhaseView::Reading(config_file_in(cd)), ..s },
                ask(EffectView::ReadConfig { path: config_file_in(cd), announce: true }),
            ),
        },
        LoadPhaseView::Reading(p) => match r {
            ReplyView::Loaded(c) => (over, done_ok(OutcomeView::Loaded(c))),
            ReplyView::Failed(m) => (over, done_with(ErrorView::ConfigUnreadable { path: p, reason: m })),
            _ => (over, done_with(ErrorView::UnexpectedReply)),
        },
        LoadPhaseView::Over => (over, done_with(ErrorView::UnexpectedReply)),
    }
}

impl LoadRun {
    pub fn new(config_dir: Option<LocalPath>) -> (r: LoadRun)
        ensures
            r@ == load_start(opt_path(config_dir)),
    {
        LoadRun { config_dir, phase: LoadPhase::Start }
    }

    pub fn resume(&mut self, reply: Reply) -> (st: Step)
        ensures
            (final(self)@, st@) == load_next(old(self)@, reply@),
    {
        let mut phase = LoadPhase::Over;
        std::mem::swap(&mut phase, &mut self.phase);
        match phase {
            LoadPhase::Start => match &self.config_dir {
                None => Step::Finish(Err(DotsyncError::NoConfigDir)),
                Some(cd) => {
                    let p = Config::path_in(cd);
                    self.phase = LoadPhase::Reading(p.duplicate());
                    Step::Do(Effect::ReadConfig { path: p, announce: true })
                },
            },
            LoadPhase::Reading(p) => match reply {
                Reply::Loaded(c) => Step::Finish(Ok(Outcome::Loaded(c))),
                Reply::Failed(m) => Step::Finish(
                    Err(DotsyncError::ConfigUnreadable { path: p, reason: m }),
                ),
                _ => unexpected(),
            },
            LoadPhase::Over => unexpected(),
        }
    }
}

pub enum SavePhase {
    Start,
    /// Waiting for the parent directory `dir` of the config file `file`.
    MakingDir { file: LocalPath, dir: LocalPath },
    Writing(LocalPath),
    Over,
}

pub enum SavePhaseView {
    Start,
    MakingDir { file: PathView, dir: PathView },
    Writing(PathView),
    Over,
}

impl View for SavePhase {
    type V = SavePhaseView;

    open spec fn view(&self) -> SavePhaseView {
        match self {
            SavePhase::Start => SavePhaseView::Start,
            SavePhase::MakingDir { file, dir } => SavePhaseView::MakingDir {
                file: file@,
                dir: dir@,
            },
            SavePhase::Writing(p) => SavePhaseView::Writing(p@),
            SavePhase::Over => SavePhaseView::Over,
        }
    }
}

/// A run of `Config::save`.
pub struct SaveRun {
    pub config: Config,
    pub config_dir: Option<LocalPath>,
    pub phase: SavePhase,
}

pub struct SaveView {
    pub config: ConfigView,
    pub config_dir: Option<PathView>,
    pub phase: SavePhaseView,
}

impl View for SaveRun {
    type V = SaveView;

    open spec fn view(&self) -> SaveView {
        SaveView { config: self.config@, config_dir: opt_path(self.config_dir), phase: self.phase@ }
    }
}

pub open spec fn save_start(config: ConfigView, config_dir: Option<PathView>) -> SaveView {
    SaveView { config, config_dir, phase: SavePhaseView::Start }
}

pub open spec fn save_write(s: SaveView, file: PathView) -> (SaveView, StepView) {
    (
        SaveView { phase: SavePhaseView::Writing(file), ..s },
        ask(EffectView::WriteConfig { path: file, config: s.config, announce: true }),
    )
}

/// One step of `Config::save`: the config file's directory is created, then the
/// config is written there.
pub open spec fn save_next(s: SaveView, r: ReplyView) -> (SaveView, StepView) {
    let over = SaveView { phase: SavePhaseView::Over, ..s };
    match s.phase {
        SavePhaseView::Start => match s.config_dir {
            None => (over, done_with(ErrorView::NoConfigDir)),
            Some(cd) => {
                let file = config_file_in(cd);
                match parent_of(file) {
                    Some(dir) => (
                        SaveView { phase: SavePhaseView::MakingDir { file, dir }, ..s },
                        ask(EffectView::MakeDirs(dir)),
                    ),
                    None => save_write(s, file),
                }
            },
        },
        SavePhaseView::MakingDir { file, dir } => match r {
            ReplyView::Done => save_write(s, file),
            ReplyView::Failed(m) => (over, done_with(ErrorView::MakeDirsFailed { path: dir, reason: m })),
            _ => (over, done_with(ErrorView::UnexpectedReply)),
        },
        SavePhaseView::Writing(file) => match r {
            ReplyView::Done => (over, done_ok(OutcomeView::Nothing)),
            ReplyView::Failed(m) => (over, done_with(ErrorView::WriteFailed { path: file, reason: m })),
            _ => (over, done_with(ErrorView::UnexpectedReply)),
        },
        SavePhaseView::Over => (over, done_with(ErrorView::UnexpectedReply)),
    }
}

impl SaveRun {
    pub fn new(config: Config, config_dir: Option<LocalPath>) -> (r: SaveRun)
        ensures
            r@ == save_start(config@, opt_path(config_dir)),
    {
        SaveRun { config, config_dir, phase: SavePhase::Start }
    }

    fn write(&mut self, file: LocalPath) -> (st: Step)
        ensures
            (final(self)@, st@) == save_write(old(self)@, file@),
    {
        let config = self.config.duplicate();
        self.phase = SavePhase::Writing(file.duplicate());
        Step::Do(Effect::WriteConfig { path: file, config, announce: true })
    }

    pub fn resume(&mut self, reply: Reply) -> (st: Step)
        ensures
            (final(self)@, st@) == save_next(old(self)@, reply@),
    {
        let mut phase = SavePhase::Over;
        std::mem::swap(&mut phase, &mut self.phase);
        match phase {
            SavePhase::Start => match &self.config_dir {
                None => Step::Finish(Err(DotsyncError::NoConfigDir)),
                Some(cd) => {
                    let file = Config::path_in(cd);
                    match file.parent() {
                        Some(dir) => {
                            let d = dir.duplicate();
                            self.phase = SavePhase::MakingDir { file, dir };
                            Step::Do(Effect::MakeDirs(d))
                        },
                        None => self.write(file),
                    }
                },
            },
            SavePhase::MakingDir { file, dir } => match reply {
                Reply::Done => self.write(file),
                Reply::Failed(m) => Step::Finish(
                    Err(DotsyncError::MakeDirsFailed { path: dir, reason: m }),
                ),
                _ => unexpected(),
            },
            SavePhase::Writing(file) => match reply {
                Reply::Done => Step::Finish(Ok(Outcome::Nothing)),
                Reply::Failed(m) => Step::Finish(Err(DotsyncError::WriteFailed { path: file, reason: m })),
                _ => unexpected(),
            },
            SavePhase::Over => unexpected(),
        }
    }
}

pub enum UpdatePhase {
    Loading(LoadRun),
    Saving(SaveRun),
    Over,
}

pub enum UpdatePhaseView {
    Loading(LoadView),
    Saving(SaveView),
    Over,
}

impl View for UpdatePhase {
    type V = UpdatePhaseView;

    open spec fn view(&self) -> UpdatePhaseView {
        match self {
            UpdatePhase::Loading(l) => UpdatePhaseView::Loading(l@),
            UpdatePhase::Saving(s) => UpdatePhaseView::Saving(s@),
            UpdatePhase::Over => UpdatePhaseView::Over,
        }
    }
}

/// A run of `update_config`: the stored config must load, and then `target`
/// replaces its repository directory, remote and entries and is saved.
pub struct UpdateRun {
    pub target: Config,
    pub config_dir: Option<LocalPath>,
    pub phase: UpdatePhase,
}

pub struct UpdateView {
    pub target: ConfigView,
    pub config_dir: Option<PathView>,
    pub phase: UpdatePhaseView,
}

impl View for UpdateRun {
    type V = UpdateView;

    open spec fn view(&self) -> UpdateView {
        UpdateView { target: self.target@, config_dir: opt_path(self.config_dir), phase: self.phase@ }
    }
}

pub open spec fn update_start(target: ConfigView, config_dir: Option<PathView>) -> UpdateView {
    UpdateView { target, config_dir, phase: UpdatePhaseView::Loading(load_start(config_dir)) }
}

/// The stored config with the fields of `target` put in: the repository
/// directory, the remote and the entries.
pub open spec fn updated(prev: ConfigView, target: ConfigView) -> ConfigView {
    ConfigView { repo_dir: target.repo_dir, remote: target.remote, entries: target.entries, ..prev }
}

/// `update_config` replaces every field of the stored config: what is saved is
/// the target itself.
pub proof fn lemma_update_replaces_all(prev: ConfigView, target: ConfigView)
    ensures
        updated(prev, target) == target,
{
}

/// One step of `update_config`.
pub open spec fn update_next(s: UpdateView, r: ReplyView) -> (UpdateView, StepView) {
    let over = UpdateView { phase: UpdatePhaseView::Over, ..s };
    match s.phase {
        UpdatePhaseView::Loading(l) => {
            let (l2, st) = load_next(l, r);
            match st {
                StepView::Do(e) => (UpdateView { phase: UpdatePhaseView::Loading(l2), ..s }, ask(e)),
                StepView::Finish(Ok(OutcomeView::Loaded(prev))) => {
                    let sv = save_start(updated(prev, s.target), s.config_dir);
                    let (sv2, st2) = save_next(sv, ReplyView::Done);
                    (UpdateView { phase: UpdatePhaseView::Saving(sv2), ..s }, st2)
                },
                StepView::Finish(Err(e)) => (over, done_with(e)),
                StepView::Finish(Ok(_)) => (over, done_with(ErrorView::UnexpectedReply)),
            }
        },
        UpdatePhaseView::Saving(sv) => {
            let (sv2, st) = save_next(sv, r);
            match st {
                StepView::Do(e) => (UpdateView { phase: UpdatePhaseView::Saving(sv2), ..s }, ask(e)),
                StepView::Finish(res) => (over, StepView::Finish(res)),
            }
        },
        UpdatePhaseView::Over => (over, done_with(ErrorView::UnexpectedReply)),
    }
}

impl UpdateRun {
    pub fn new(target: Config, config_dir: Option<LocalPath>) -> (r: UpdateRun)
        ensures
            r@ == update_start(target@, opt_path(config_dir)),
    {
        let cd = match &config_dir {
            Some(p) => Some(p.duplicate()),
            None => None,
        };
        UpdateRun { target, config_dir, phase: UpdatePhase::Loading(LoadRun::new(cd)) }
    }

    pub fn resume(&mut self, reply: Reply) -> (st: Step)
        ensures
            (final(self)@, st@) == update_next(old(self)@, reply@),
    {
        let mut phase = UpdatePhase::Over;
        std::mem::swap(&mut phase, &mut self.phase);
        match phase {
            UpdatePhase::Loading(mut l) => {
                let st = l.resume(reply);
                match st {
                    Step::Do(e) => {
                        self.phase = UpdatePhase::Loading(l);
                        Step::Do(e)
                    },
                    Step::Finish(Ok(Outcome::Loaded(prev))) => {
                        let next = prev.relocated(self.target.repo_dir(), self.target.remote());
                        let next = Config::new(next.repo_dir(), next.remote(), self.target.entries());
                        let cd = match &self.config_dir {
                            Some(p) => Some(p.duplicate()),
                            None => None,
                        };
                        let mut sv = SaveRun::new(next, cd);
                        let st2 = sv.resume(Reply::Done);
                        self.phase = UpdatePhase::Saving(sv);
                        st2
                    },
                    Step::Finish(Err(e)) => Step::Finish(Err(e)),
                    Step::Finish(Ok(_)) => unexpected(),
                }
            },
            UpdatePhase::Saving(mut sv) => {
                let st = sv.resume(reply);
                match st {
                    Step::Do(e) => {
                        self.phase = UpdatePhase::Saving(sv);
                        Step::Do(e)
                    },
                    Step::Finish(res) => Step::Finish(res),
                }
            },
            UpdatePhase::Over => unexpected(),
        }
    }
}

pub enum ProbePhase {
    Start,
    Probing,
    Over,
}

/// A run of `Config::exists`.
pub struct ExistsRun {
    pub config_dir: Option<LocalPath>,
    pub phase: ProbePhase,
}

pub enum ProbePhaseView {
    Start,
    Probing,
    Over,
}

pub struct ExistsView {
    pub config_dir: Option<PathView>,
    pub phase: ProbePhaseView,
}

impl View for ExistsRun {
    type V = ExistsView;

    open spec fn view(&self) -> ExistsView {
        ExistsView {
            config_dir: opt_path(self.config_dir),
            phase: match self.phase {
                ProbePhase::Start => ProbePhaseView::Start,
                ProbePhase::Probing => ProbePhaseView::Probing,
                ProbePhase::Over => ProbePhaseView::Over,
            },
        }
    }
}

/// One step of `Config::exists`: whether the config file is there.
pub open spec fn exists_next(s: ExistsView, r: ReplyView) -> (ExistsView, StepView) {
    let over = ExistsView { phase: ProbePhaseView::Over, ..s };
    match s.phase {
        ProbePhaseView::Start => match s.config_dir {
            None => (over, done_with(ErrorView::NoConfigDir)),
            Some(cd) => (
                ExistsView { phase: ProbePhaseView::Probing, ..s },
                ask(EffectView::Exists(config_file_in(cd))),
            ),
        },
        ProbePhaseView::Probing => match r {
            ReplyView::Flag(b) => (over, done_ok(OutcomeView::Flag(b))),
            _ => (over, done_with(ErrorView::UnexpectedReply)),
        },
        ProbePhaseView::Over => (over, done_with(ErrorView::UnexpectedReply)),
    }
}

impl ExistsRun {
    pub fn resume(&mut self, reply: Reply) -> (st: Step)
        ensures
            (final(self)@, st@) == exists_next(old(self)@, reply@),
    {
        match self.phase {
            ProbePhase::Start => match &self.config_dir {
                None => {
                    self.phase = ProbePhase::Over;
                    Step::Finish(Err(DotsyncError::NoConfigDir))
                },
                Some(cd) => {
                    let p = Config::path_in(cd);
                    self.phase = ProbePhase::Probing;
                    Step::Do(Effect::Exists(p))
                },
            },
            ProbePhase::Probing => {
                self.phase = ProbePhase::Over;
                match reply {
                    Reply::Flag(b) => Step::Finish(Ok(Outcome::Flag(b))),
                    _ => unexpected(),
                }
            },
            ProbePhase::Over => unexpected(),
        }
    }
}

impl Config {
    /// The local config file, `<config dir>/dotsync/config.toml`, when the user's
    /// config directory is known.
    pub fn path() -> (r: Result<LocalPath, DotsyncError>)
        ensures
            match r {
                Ok(p) => exists|cd: PathView| found_dir(Some(cd)) && p@ == config_file_in(cd),
                Err(e) => e@ == ErrorView::NoConfigDir,
            },
    {
        match Dirs::lookup().config {
            Some(cd) => Ok(Config::path_in(&cd)),
            None => Err(DotsyncError::NoConfigDir),
        }
    }

    /// The default repository directory, `<config dir>/dotsync`, when the user's
    /// config directory is known.
    pub fn default_config_directory() -> (r: Option<LocalPath>)
        ensures
            match r {
                Some(p) => exists|cd: PathView| found_dir(Some(cd)) && p@ == crate::config::default_repo_in(cd),
                None => true,
            },
    {
        match Dirs::lookup().config {
            Some(cd) => Some(Config::default_repo_dir_in(&cd)),
            None => None,
        }
    }

    /// Whether the local config file exists.
    pub fn config_exists() -> (r: ExistsRun)
        ensures
            found_dir(r@.config_dir),
            r@.phase == ProbePhaseView::Start,
    {
        ExistsRun { config_dir: Dirs::lookup().config, phase: ProbePhase::Start }
    }

    /// Reads and parses the local config file.
    pub fn load() -> (r: LoadRun)
        ensures
            found_dir(r@.config_dir),
            r@ == load_start(r@.config_dir),
    {
        LoadRun::new(Dirs::lookup().config)
    }

    /// Writes this config to the local config file.
    pub fn save(&self) -> (r: SaveRun)
        ensures
            found_dir(r@.config_dir),
            r@ == save_start(self@, r@.config_dir),
    {
        SaveRun::new(self.duplicate(), Dirs::lookup().config)
    }

    /// Loads the stored config and saves it with the repository directory,
    /// remote and entries of `config`.
    pub fn update_config(config: Config) -> (r: UpdateRun)
        ensures
            found_dir(r@.config_dir),
            r@ == update_start(config@, r@.config_dir),
    {
        UpdateRun::new(config, Dirs::lookup().config)
    }

    /// Finds this config's repository directory on disk.
    pub fn resolve_repo_dir(&self) -> (r: ResolveRun)
        ensures
            exists|cd: Option<PathView>| found_dir(cd) && r@ == resolve_start(self@.repo_dir, cd),
    {
        ResolveRun::new(self.repo_dir(), Dirs::lookup().config)
    }

    /// Restores the files listed by the manifest of the repository at `repo_dir`.
    pub fn restore_from_manifest(&self, repo_dir: &LocalPath) -> (r: crate::restore::RestoreRun)
        ensures
            r@ == crate::restore::restore_start(repo_dir@, r@.dirs),
            found_dir(r@.dirs.config),
            found_dir(r@.dirs.home),
    {
        crate::restore::RestoreRun::new(repo_dir.duplicate(), Dirs::lookup())
    }
}

} // verus!
