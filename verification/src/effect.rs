//! The protocol between a running command and the program that performs its
//! effects: the command asks for one `Effect` at a time and is handed back the
//! `Reply` that answers it.
use crate::config::{Config, ConfigView};
use crate::error::{DotsyncError, ErrorView};
use crate::path::{texts, LocalPath, PathView};
use vstd::prelude::*;

verus! {

/// The program a command runs.
#[derive(PartialEq, Eq, Structural, Clone, Copy, Debug)]
pub enum Program {
    Git,
    Diff,
}

/// One argument of a command: plain text, or a path given as text.
#[derive(Debug)]
pub enum Arg {
    Text(String),
    Path(LocalPath),
}

pub enum ArgView {
    Text(Seq<char>),
    Path(PathView),
}

impl View for Arg {
    type V = ArgView;

    open spec fn view(&self) -> ArgView {
        match self {
            Arg::Text(t) => ArgView::Text(t@),
            Arg::Path(p) => ArgView::Path(p@),
        }
    }
}

pub open spec fn arg_views(v: Seq<Arg>) -> Seq<ArgView> {
    v.map_values(|a: Arg| a@)
}

/// A process to run: which program, its arguments, the directory it runs in,
/// and whether its standard output is collected (`output`) or passed through
/// (`status`).
#[derive(Debug)]
pub struct Command {
    pub program: Program,
    pub args: Vec<Arg>,
    pub dir: Option<LocalPath>,
    pub capture: bool,
}

pub struct CommandView {
    pub program: Program,
    pub args: Seq<ArgView>,
    pub dir: Option<PathView>,
    pub capture: bool,
}

pub open spec fn opt_path(p: Option<LocalPath>) -> Option<PathView> {
    match p {
        Some(q) => Some(q@),
        None => None,
    }
}

impl View for Command {
    type V = CommandView;

    open spec fn view(&self) -> CommandView {
        CommandView {
            program: self.program,
            args: arg_views(self.args@),
            dir: opt_path(self.dir),
            capture: self.capture,
        }
    }
}

/// How a process ended.
#[derive(Debug)]
pub struct ExitReport {
    pub success: bool,
    pub code: Option<i32>,
    pub stdout: Vec<u8>,
}

pub struct ExitView {
    pub success: bool,
    pub code: Option<i32>,
    pub stdout: Seq<u8>,
}

impl ExitReport {
    pub fn duplicate(&self) -> (r: ExitReport)
        ensures
            r@ == self@,
    {
        ExitReport { success: self.success, code: self.code, stdout: self.stdout.clone() }
    }
}

impl View for ExitReport {
    type V = ExitView;

    open spec fn view(&self) -> ExitView {
        ExitView { success: self.success, code: self.code, stdout: self.stdout@ }
    }
}

/// A message for the user.
#[derive(Debug)]
pub enum Notice {
    NothingToCommit,
    Synced(Vec<String>),
    Restored(Vec<String>),
    ClonedAndRestored(Vec<String>),
    NotInRepoYet(String),
    NoDifferences,
    ConfigAlreadyExists,
    InitArgsEmpty,
    RemoteGiven,
    AlreadyGitRepo,
    NotGitRepo,
    RepoDirMissing(LocalPath),
    UsingDirectory(LocalPath),
    RemoteOriginOk,
    FixingRemote,
    UrlUnreachable,
    InitDone,
    ResolvedRepo(LocalPath),
    /// The repository directory looked for inside the config directory, before
    /// it is made canonical.
    RepoCandidate(LocalPath),
    /// What `git remote get-url origin` reported.
    GetUrlOutput(ExitReport),
    ConfigShown(Config),
    ConfigUnavailable(DotsyncError),
}

pub enum NoticeView {
    NothingToCommit,
    Synced(Seq<Seq<char>>),
    Restored(Seq<Seq<char>>),
    ClonedAndRestored(Seq<Seq<char>>),
    NotInRepoYet(Seq<char>),
    NoDifferences,
    ConfigAlreadyExists,
    InitArgsEmpty,
    RemoteGiven,
    AlreadyGitRepo,
    NotGitRepo,
    RepoDirMissing(PathView),
    UsingDirectory(PathView),
    RemoteOriginOk,
    FixingRemote,
    UrlUnreachable,
    InitDone,
    ResolvedRepo(PathView),
    RepoCandidate(PathView),
    GetUrlOutput(ExitView),
    ConfigShown(ConfigView),
    ConfigUnavailable(ErrorView),
}

impl View for Notice {
    type V = NoticeView;

    open spec fn view(&self) -> NoticeView {
        match self {
            Notice::NothingToCommit => NoticeView::NothingToCommit,
            Notice::Synced(v) => NoticeView::Synced(texts(v@)),
            Notice::Restored(v) => NoticeView::Restored(texts(v@)),
            Notice::ClonedAndRestored(v) => NoticeView::ClonedAndRestored(texts(v@)),
            Notice::NotInRepoYet(n) => NoticeView::NotInRepoYet(n@),
            Notice::NoDifferences => NoticeView::NoDifferences,
            Notice::ConfigAlreadyExists => NoticeView::ConfigAlreadyExists,
            Notice::InitArgsEmpty => NoticeView::InitArgsEmpty,
            Notice::RemoteGiven => NoticeView::RemoteGiven,
            Notice::AlreadyGitRepo => NoticeView::AlreadyGitRepo,
            Notice::NotGitRepo => NoticeView::NotGitRepo,
            Notice::RepoDirMissing(p) => NoticeView::RepoDirMissing(p@),
            Notice::UsingDirectory(p) => NoticeView::UsingDirectory(p@),
            Notice::RemoteOriginOk => NoticeView::RemoteOriginOk,
            Notice::FixingRemote => NoticeView::FixingRemote,
            Notice::UrlUnreachable => NoticeView::UrlUnreachable,
            Notice::InitDone => NoticeView::InitDone,
            Notice::ResolvedRepo(p) => NoticeView::ResolvedRepo(p@),
            Notice::RepoCandidate(p) => NoticeView::RepoCandidate(p@),
            Notice::GetUrlOutput(x) => NoticeView::GetUrlOutput(x@),
            Notice::ConfigShown(c) => NoticeView::ConfigShown(c@),
            Notice::ConfigUnavailable(e) => NoticeView::ConfigUnavailable(e@),
        }
    }
}

/// What a command asks to be done.
#[derive(Debug)]
pub enum Effect {
    /// `Path::exists`: answered by `Flag`; an error counts as absent.
    Exists(LocalPath),
    /// `fs::exists`: answered by `Flag`, or `Failed`.
    TryExists(LocalPath),
    /// `Path::is_dir`: answered by `Flag`.
    IsDir(LocalPath),
    /// Whether the directory lists at least one item: `Flag`, or `Failed`.
    HasEntries(LocalPath),
    /// `Path::canonicalize`: answered by `Path`, or `Failed`.
    Canonicalize(LocalPath),
    /// `fs::remove_dir_all`: `Done` or `Failed`.
    RemoveTree(LocalPath),
    /// `fs::remove_file`: `Done` or `Failed`.
    RemoveFile(LocalPath),
    /// `fs::create_dir_all`: `Done` or `Failed`.
    MakeDirs(LocalPath),
    /// The names of the items of a directory, in the order `fs::read_dir`
    /// yields them: `Names`, or `Failed`.
    ListDir(LocalPath),
    /// `fs::copy`: `Done` or `Failed`.
    CopyFile { from: LocalPath, to: LocalPath },
    /// Read and parse a TOML config file (telling the user its path when
    /// `announce`): `Loaded`, or `Failed`.
    ReadConfig { path: LocalPath, announce: bool },
    /// Serialise a config as TOML and write it (telling the user when `announce`):
    /// `Done`, or `Failed`.
    WriteConfig { path: LocalPath, config: Config, announce: bool },
    /// Run a process: `Exit`, or `Failed` when it could not be started.
    Run(Command),
    /// Tell the user something: `Done`.
    Say(Notice),
    /// Print a process's output as text: `Done`.
    Show(Vec<u8>),
    /// Ask the user for a git URL: `Text`, or `Failed`.
    AskUrl,
    /// The current time in seconds since the Unix epoch: `Number`.
    Clock,
}

pub enum EffectView {
    Exists(PathView),
    TryExists(PathView),
    IsDir(PathView),
    HasEntries(PathView),
    Canonicalize(PathView),
    RemoveTree(PathView),
    RemoveFile(PathView),
    MakeDirs(PathView),
    ListDir(PathView),
    CopyFile { from: PathView, to: PathView },
    ReadConfig { path: PathView, announce: bool },
    WriteConfig { path: PathView, config: ConfigView, announce: bool },
    Run(CommandView),
    Say(NoticeView),
    Show(Seq<u8>),
    AskUrl,
    Clock,
}

impl View for Effect {
    type V = EffectView;

    open spec fn view(&self) -> EffectView {
        match self {
            Effect::Exists(p) => EffectView::Exists(p@),
            Effect::TryExists(p) => EffectView::TryExists(p@),
            Effect::IsDir(p) => EffectView::IsDir(p@),
            Effect::HasEntries(p) => EffectView::HasEntries(p@),
            Effect::Canonicalize(p) => EffectView::Canonicalize(p@),
            Effect::RemoveTree(p) => EffectView::RemoveTree(p@),
            Effect::RemoveFile(p) => EffectView::RemoveFile(p@),
            Effect::MakeDirs(p) => EffectView::MakeDirs(p@),
            Effect::ListDir(p) => EffectView::ListDir(p@),
            Effect::CopyFile { from, to } => EffectView::CopyFile { from: from@, to: to@ },
            Effect::ReadConfig { path, announce } => EffectView::ReadConfig { path: path@, announce: *announce },
            Effect::WriteConfig { path, config, announce } => EffectView::WriteConfig {
                path: path@,
                config: config@,
                announce: *announce,
            },
            Effect::Run(c) => EffectView::Run(c@),
            Effect::Say(n) => EffectView::Say(n@),
            Effect::Show(b) => EffectView::Show(b@),
            Effect::AskUrl => EffectView::AskUrl,
            Effect::Clock => EffectView::Clock,
        }
    }
}

/// What came of an effect.
#[derive(Debug)]
pub enum Reply {
    Done,
    Flag(bool),
    Path(LocalPath),
    Names(Vec<String>),
    Loaded(Config),
    Exit(ExitReport),
    Text(String),
    Number(u64),
    Failed(String),
}

pub enum ReplyView {
    Done,
    Flag(bool),
    Path(PathView),
    Names(Seq<Seq<char>>),
    Loaded(ConfigView),
    Exit(ExitView),
    Text(Seq<char>),
    Number(u64),
    Failed(Seq<char>),
}

impl View for Reply {
    type V = ReplyView;

    open spec fn view(&self) -> ReplyView {
        match self {
            Reply::Done => ReplyView::Done,
            Reply::Flag(b) => ReplyView::Flag(*b),
            Reply::Path(p) => ReplyView::Path(p@),
            Reply::Names(v) => ReplyView::Names(texts(v@)),
            Reply::Loaded(c) => ReplyView::Loaded(c@),
            Reply::Exit(x) => ReplyView::Exit(x@),
            Reply::Text(t) => ReplyView::Text(t@),
            Reply::Number(n) => ReplyView::Number(*n),
            Reply::Failed(m) => ReplyView::Failed(m@),
        }
    }
}

/// What a finished run hands back.
#[derive(Debug)]
pub enum Outcome {
    Nothing,
    Path(LocalPath),
    Names(Vec<String>),
    Loaded(Config),
    Flag(bool),
}

pub enum OutcomeView {
    Nothing,
    Path(PathView),
    Names(Seq<Seq<char>>),
    Loaded(ConfigView),
    Flag(bool),
}

impl View for Outcome {
    type V = OutcomeView;

    open spec fn view(&self) -> OutcomeView {
        match self {
            Outcome::Nothing => OutcomeView::Nothing,
            Outcome::Path(p) => OutcomeView::Path(p@),
            Outcome::Names(v) => OutcomeView::Names(texts(v@)),
            Outcome::Loaded(c) => OutcomeView::Loaded(c@),
            Outcome::Flag(b) => OutcomeView::Flag(*b),
        }
    }
}

/// The next thing a run needs: an effect performed, or nothing more.
#[derive(Debug)]
pub enum Step {
    Do(Effect),
    Finish(Result<Outcome, DotsyncError>),
}

pub enum StepView {
    Do(EffectView),
    Finish(Result<OutcomeView, ErrorView>),
}

impl View for Step {
    type V = StepView;

    open spec fn view(&self) -> StepView {
        match self {
            Step::Do(e) => StepView::Do(e@),
            Step::Finish(Ok(o)) => StepView::Finish(Ok(o@)),
            Step::Finish(Err(e)) => StepView::Finish(Err(e@)),
        }
    }
}

pub open spec fn done_with(e: ErrorView) -> StepView {
    StepView::Finish(Err(e))
}

pub open spec fn done_ok(o: OutcomeView) -> StepView {
    StepView::Finish(Ok(o))
}

pub open spec fn ask(e: EffectView) -> StepView {
    StepView::Do(e)
}

proof fn lemma_arg_views_push(a: Seq<Arg>, x: Arg)
    ensures
        arg_views(a.push(x)) == arg_views(a).push(x@),
{
    assert(arg_views(a.push(x)) =~= arg_views(a).push(x@));
}

impl Command {
    /// git, with no arguments yet, run in `dir`.
    pub fn git(dir: Option<LocalPath>, capture: bool) -> (c: Command)
        ensures
            c@ == (CommandView {
                program: Program::Git,
                args: Seq::empty(),
                dir: opt_path(dir),
                capture,
            }),
    {
        let c = Command { program: Program::Git, args: Vec::new(), dir, capture };
        assert(c@.args =~= Seq::<ArgView>::empty());
        c
    }

    /// The command with one more argument.
    pub fn arg(self, a: Arg) -> (c: Command)
        ensures
            c@ == (CommandView { args: self@.args.push(a@), ..self@ }),
    {
        let mut c = self;
        proof {
            lemma_arg_views_push(c.args@, a);
        }
        c.args.push(a);
        c
    }

    /// The command with one more argument given as text.
    pub fn word(self, w: &str) -> (c: Command)
        ensures
            c@ == (CommandView { args: self@.args.push(ArgView::Text(w@)), ..self@ }),
    {
        self.arg(Arg::Text(w.to_owned()))
    }
}

} // verus!
