//! `push`: copies every tracked entry into the repository, writes the manifest,
//! and commits and pushes when git reports changes.
use crate::config::{manifest_file_in, manifest_of, Config, ConfigView, EntryView};
use crate::copy::{copy_effect_within, copy_next, copy_start, copy_within, lemma_copy_start_within, lemma_copy_stays_within, CopyRun, CopyView};
use crate::effect::{ask, done_ok, done_with, opt_path, Arg, ArgView, Command, CommandView, Effect, EffectView, Notice, NoticeView, Outcome, OutcomeView, Program, Reply, ReplyView, Step, StepView};
use crate::env::{found_dir, Dirs, DirsView};
use crate::error::{DotsyncError, ErrorView, GitStep};
use crate::path::{components, cur_part, root_part, has_prefix, is_absolute, joined, lemma_within_parent, lemma_within_trans, no_parent, parent_part, texts, within, LocalPath, PathView};
use crate::resolve::{resolve_next, resolve_start, unexpected, ResolveRun, ResolveView};
use crate::restore::copy_names;
use crate::store::LoadRun;
use crate::text::{commit_message, commit_message_text};
use vstd::prelude::*;

verus! {

pub enum PushPhase {
    /// Finding the repository directory.
    Resolving(ResolveRun),
    /// Waiting for the canonical form of entry `k`'s source.
    Source { k: usize },
    /// Waiting to learn whether `dest` (entry `k`'s copy) is a directory.
    Clearing { k: usize, src: LocalPath, dest: LocalPath },
    /// Waiting to learn whether `dest` exists.
    Probing { k: usize, src: LocalPath, dest: LocalPath },
    /// Waiting for the old `dest` to be removed.
    Removing { k: usize, src: LocalPath, dest: LocalPath },
    /// Copying entry `k` into the repository.
    Copying { k: usize, src: LocalPath, dest: LocalPath, copy: CopyRun },
    /// Waiting for the manifest to be written.
    Manifest,
    /// Waiting for `git status --porcelain`.
    Status,
    /// Waiting for `git add -A`.
    Adding,
    /// Waiting for the time.
    Timing,
    /// Waiting for `git commit`.
    Committing,
    /// Waiting for `git push`.
    Pushing,
    /// Waiting for the last message to be shown.
    Closing,
    Over,
}

pub enum PushPhaseView {
    Resolving(ResolveView),
    Source { k: int },
    Clearing { k: int, src: PathView, dest: PathView },
    Probing { k: int, src: PathView, dest: PathView },
    Removing { k: int, src: PathView, dest: PathView },
    Copying { k: int, src: PathView, dest: PathView, copy: CopyView },
    Manifest,
    Status,
    Adding,
    Timing,
    Committing,
    Pushing,
    Closing,
    Over,
}

impl View for PushPhase {
    type V = PushPhaseView;

    open spec fn view(&self) -> PushPhaseView {
        match self {
            PushPhase::Resolving(r) => PushPhaseView::Resolving(r@),
            PushPhase::Source { k } => PushPhaseView::Source { k: *k as int },
            PushPhase::Clearing { k, src, dest } => PushPhaseView::Clearing {
                k: *k as int,
                src: src@,
                dest: dest@,
            },
            PushPhase::Probing { k, src, dest } => PushPhaseView::Probing {
                k: *k as int,
                src: src@,
                dest: dest@,
            },
            PushPhase::Removing { k, src, dest } => PushPhaseView::Removing {
                k: *k as int,
                src: src@,
                dest: dest@,
            },
            PushPhase::Copying { k, src, dest, copy } => PushPhaseView::Copying {
                k: *k as int,
                src: src@,
                dest: dest@,
                copy: copy@,
            },
            PushPhase::Manifest => PushPhaseView::Manifest,
            PushPhase::Status => PushPhaseView::Status,
            PushPhase::Adding => PushPhaseView::Adding,
            PushPhase::Timing => PushPhaseView::Timing,
            PushPhase::Committing => PushPhaseView::Committing,
            PushPhase::Pushing => PushPhaseView::Pushing,
            PushPhase::Closing => PushPhaseView::Closing,
            PushPhase::Over => PushPhaseView::Over,
        }
    }
}

/// A run of `Config::push` for `config`; `repo` is the repository directory once
/// found, `synced` the names handled so far.
pub struct PushRun {
    pub config: Config,
    pub dirs: Dirs,
    pub repo: LocalPath,
    pub synced: Vec<String>,
    pub phase: PushPhase,
}

pub struct PushView {
    pub config: ConfigView,
    pub dirs: DirsView,
    pub repo: PathView,
    pub synced: Seq<Seq<char>>,
    pub phase: PushPhaseView,
}

impl View for PushRun {
    type V = PushView;

    open spec fn view(&self) -> PushView {
        PushView {
            config: self.config@,
            dirs: self.dirs@,
            repo: self.repo@,
            synced: texts(self.synced@),
            phase: self.phase@,
        }
    }
}

pub open spec fn push_start(config: ConfigView, dirs: DirsView) -> PushView {
    PushView {
        config,
        dirs,
        repo: Seq::empty(),
        synced: Seq::empty(),
        phase: PushPhaseView::Resolving(resolve_start(config.repo_dir, dirs.config)),
    }
}

pub open spec fn push_in(s: PushView, phase: PushPhaseView) -> PushView {
    PushView { phase, ..s }
}

pub open spec fn push_fail(s: PushView, e: ErrorView) -> (PushView, StepView) {
    (push_in(s, PushPhaseView::Over), done_with(e))
}

/// `git <words>` run in the repository; `capture` collects its output.
pub open spec fn git_in(repo: PathView, words: Seq<Seq<char>>, capture: bool) -> CommandView {
    CommandView {
        program: Program::Git,
        args: words.map_values(|w: Seq<char>| ArgView::Text(w)),
        dir: Some(repo),
        capture,
    }
}

pub open spec fn status_command(repo: PathView) -> CommandView {
    git_in(repo, seq!["status"@, "--porcelain"@], true)
}

pub open spec fn add_command(repo: PathView) -> CommandView {
    git_in(repo, seq!["add"@, "-A"@], false)
}

pub open spec fn commit_command(repo: PathView, ts: u64) -> CommandView {
    git_in(repo, seq!["commit"@, "-m"@, commit_message(ts)], false)
}

pub open spec fn push_command(repo: PathView) -> CommandView {
    git_in(repo, seq!["push"@], false)
}

/// Where entry `e`'s copy goes in the repository.
pub open spec fn copy_target(repo: PathView, e: EntryView) -> PathView {
    joined(repo, components(e.name))
}

pub open spec fn entry_at(s: PushView, k: int) -> EntryView {
    s.config.entries[k]
}

/// Goes on from entry `k`; after the last entry the manifest is written.
pub open spec fn push_enter(s: PushView, k: int) -> (PushView, StepView) {
    if k < 0 || k >= s.config.entries.len() {
        match s.dirs.home {
            None => push_fail(s, ErrorView::NoHomeDir),
            Some(h) => (
                push_in(s, PushPhaseView::Manifest),
                ask(
                    EffectView::WriteConfig {
                        path: manifest_file_in(s.repo),
                        config: manifest_of(s.config, h),
                        announce: false,
                    },
                ),
            ),
        }
    } else {
        (push_in(s, PushPhaseView::Source { k }), ask(EffectView::Canonicalize(entry_at(s, k).source)))
    }
}

/// Entry `k` is in place: its name counts as synced.
pub open spec fn push_synced(s: PushView, k: int) -> (PushView, StepView) {
    push_enter(PushView { synced: s.synced.push(entry_at(s, k).name), ..s }, k + 1)
}

/// Starts copying `src` to `dest` for entry `k`.
pub open spec fn push_copy(s: PushView, k: int, src: PathView, dest: PathView) -> (PushView, StepView) {
    let (c2, st) = copy_next(copy_start(src, dest), ReplyView::Done);
    push_copying(s, k, src, dest, c2, st)
}

/// Continues after a step of entry `k`'s copy.
pub open spec fn push_copying(
    s: PushView,
    k: int,
    src: PathView,
    dest: PathView,
    c: CopyView,
    st: StepView,
) -> (PushView, StepView) {
    match st {
        StepView::Do(e) => (push_in(s, PushPhaseView::Copying { k, src, dest, copy: c }), ask(e)),
        StepView::Finish(Ok(_)) => push_synced(s, k),
        StepView::Finish(Err(ErrorView::Io { reason })) => push_fail(
            s,
            ErrorView::CopyFailed { from: src, to: dest, reason },
        ),
        StepView::Finish(Err(e)) => push_fail(s, e),
    }
}

/// After `git commit`: push when there is a remote, then report the synced names.
pub open spec fn push_after_commit(s: PushView) -> (PushView, StepView) {
    if s.config.remote.len() > 0 {
        (push_in(s, PushPhaseView::Pushing), ask(EffectView::Run(push_command(s.repo))))
    } else {
        push_report(s)
    }
}

pub open spec fn push_report(s: PushView) -> (PushView, StepView) {
    (push_in(s, PushPhaseView::Closing), ask(EffectView::Say(NoticeView::Synced(s.synced))))
}

/// One step of `Config::push`.
pub open spec fn push_next(s: PushView, r: ReplyView) -> (PushView, StepView) {
    let unexpected = push_fail(s, ErrorView::UnexpectedReply);
    let base = push_in(s, PushPhaseView::Over);
    let n = s.config.entries.len();
    match s.phase {
        PushPhaseView::Resolving(rv) => {
            let (rv2, st) = resolve_next(rv, r);
            match st {
                StepView::Do(e) => (push_in(s, PushPhaseView::Resolving(rv2)), ask(e)),
                StepView::Finish(Ok(OutcomeView::Path(repo))) => push_enter(
                    PushView { repo, ..base },
                    0,
                ),
                StepView::Finish(Ok(_)) => unexpected,
                StepView::Finish(Err(e)) => push_fail(s, e),
            }
        },
        PushPhaseView::Source { k } => if !(0 <= k < n) {
            unexpected
        } else {
            match r {
                ReplyView::Path(src) => if has_prefix(src, s.repo) {
                    push_synced(base, k)
                } else {
                    let dest = copy_target(s.repo, entry_at(s, k));
                    if !strictly_within(dest, s.repo) {
                        push_fail(s, ErrorView::NameEscapesRepo { name: entry_at(s, k).name })
                    } else {
                        (
                            push_in(s, PushPhaseView::Clearing { k, src, dest }),
                            ask(EffectView::IsDir(dest)),
                        )
                    }
                },
                ReplyView::Failed(m) => push_fail(
                    s,
                    ErrorView::SourceMissing { source: entry_at(s, k).source, reason: m },
                ),
                _ => unexpected,
            }
        },
        PushPhaseView::Clearing { k, src, dest } => match r {
            ReplyView::Flag(true) => (
                push_in(s, PushPhaseView::Removing { k, src, dest }),
                ask(EffectView::RemoveTree(dest)),
            ),
            ReplyView::Flag(false) => (
                push_in(s, PushPhaseView::Probing { k, src, dest }),
                ask(EffectView::Exists(dest)),
            ),
            _ => unexpected,
        },
        PushPhaseView::Probing { k, src, dest } => if !(0 <= k < n) {
            unexpected
        } else {
            match r {
                ReplyView::Flag(true) => (
                    push_in(s, PushPhaseView::Removing { k, src, dest }),
                    ask(EffectView::RemoveFile(dest)),
                ),
                ReplyView::Flag(false) => push_copy(base, k, src, dest),
                _ => unexpected,
            }
        },
        PushPhaseView::Removing { k, src, dest } => if !(0 <= k < n) {
            unexpected
        } else {
            match r {
                ReplyView::Done => push_copy(base, k, src, dest),
                ReplyView::Failed(m) => push_fail(s, ErrorView::RemoveFailed { path: dest, reason: m }),
                _ => unexpected,
            }
        },
        PushPhaseView::Copying { k, src, dest, copy } => if !(0 <= k < n) {
            unexpected
        } else {
            let (c2, st) = copy_next(copy, r);
            push_copying(base, k, src, dest, c2, st)
        },
        PushPhaseView::Manifest => match r {
            ReplyView::Done => (
                push_in(s, PushPhaseView::Status),
                ask(EffectView::Run(status_command(s.repo))),
            ),
            ReplyView::Failed(m) => push_fail(
                s,
                ErrorView::WriteFailed { path: manifest_file_in(s.repo), reason: m },
            ),
            _ => unexpected,
        },
        PushPhaseView::Status => match r {
            ReplyView::Exit(x) => if x.stdout.len() == 0 {
                (push_in(s, PushPhaseView::Closing), ask(EffectView::Say(NoticeView::NothingToCommit)))
            } else {
                (push_in(s, PushPhaseView::Adding), ask(EffectView::Run(add_command(s.repo))))
            },
            ReplyView::Failed(m) => push_fail(s, ErrorView::Io { reason: m }),
            _ => unexpected,
        },
        PushPhaseView::Adding => match r {
            ReplyView::Exit(x) => if x.success {
                (push_in(s, PushPhaseView::Timing), ask(EffectView::Clock))
            } else {
                push_fail(s, ErrorView::GitFailed { step: GitStep::Add })
            },
            ReplyView::Failed(m) => push_fail(s, ErrorView::Io { reason: m }),
            _ => unexpected,
        },
        PushPhaseView::Timing => match r {
            ReplyView::Number(ts) => (
                push_in(s, PushPhaseView::Committing),
                ask(EffectView::Run(commit_command(s.repo, ts))),
            ),
            _ => unexpected,
        },
        PushPhaseView::Committing => match r {
            ReplyView::Exit(x) => if x.success {
                push_after_commit(s)
            } else {
                push_fail(s, ErrorView::GitFailed { step: GitStep::Commit })
            },
            ReplyView::Failed(m) => push_fail(s, ErrorView::Io { reason: m }),
            _ => unexpected,
        },
        PushPhaseView::Pushing => match r {
            ReplyView::Exit(x) => if x.success {
                push_report(s)
            } else {
                push_fail(s, ErrorView::GitFailed { step: GitStep::Push })
            },
            ReplyView::Failed(m) => push_fail(s, ErrorView::Io { reason: m }),
            _ => unexpected,
        },
        PushPhaseView::Closing => match r {
            ReplyView::Done => (push_in(s, PushPhaseView::Over), done_ok(OutcomeView::Nothing)),
            _ => unexpected,
        },
        PushPhaseView::Over => unexpected,
    }
}

/// `p` lies inside `base` and is not `base` itself.
pub open spec fn strictly_within(p: PathView, base: PathView) -> bool {
    within(p, base) && p.len() > base.len()
}

/// Every path that push may remove or copy over lies inside the repository, and
/// a copy under way reads inside its source and writes inside its target.
pub open spec fn push_targets_in_repo(s: PushView) -> bool {
    match s.phase {
        PushPhaseView::Clearing { dest, .. } => strictly_within(dest, s.repo),
        PushPhaseView::Probing { dest, .. } => strictly_within(dest, s.repo),
        PushPhaseView::Removing { dest, .. } => strictly_within(dest, s.repo),
        PushPhaseView::Copying { src, dest, copy, .. } => strictly_within(dest, s.repo) && copy_within(
            copy,
            src,
            dest,
        ),
        _ => true,
    }
}

/// Push removes and writes nothing outside the repository directory: an entry
/// whose copy would not lie strictly inside it (a name with a ".." component, an
/// absolute name, an empty name) is refused before anything is touched for it,
/// so every state keeps its targets inside the repository, and every removal,
/// directory creation and file copy asked for lies there.
pub proof fn lemma_push_removes_only_inside_repo(s: PushView, r: ReplyView)
    requires
        push_targets_in_repo(s),
    ensures
        push_targets_in_repo(push_next(s, r).0),
        push_next(s, r).1 matches StepView::Do(EffectView::RemoveTree(p)) ==> within(
            p,
            push_next(s, r).0.repo,
        ),
        push_next(s, r).1 matches StepView::Do(EffectView::RemoveFile(p)) ==> within(
            p,
            push_next(s, r).0.repo,
        ),
        push_next(s, r).1 matches StepView::Do(EffectView::MakeDirs(p)) ==> within(
            p,
            push_next(s, r).0.repo,
        ),
        push_next(s, r).1 matches StepView::Do(EffectView::CopyFile { to, .. }) ==> within(
            to,
            push_next(s, r).0.repo,
        ),
{
    match s.phase {
        PushPhaseView::Probing { k, src, dest } => {
            lemma_copy_start_within(src, dest);
            lemma_copy_stays_within(copy_start(src, dest), ReplyView::Done, src, dest);
            lemma_copy_effects_in_repo(push_next(s, r).1, src, dest, s.repo);
        },
        PushPhaseView::Removing { k, src, dest } => {
            lemma_copy_start_within(src, dest);
            lemma_copy_stays_within(copy_start(src, dest), ReplyView::Done, src, dest);
            lemma_copy_effects_in_repo(push_next(s, r).1, src, dest, s.repo);
        },
        PushPhaseView::Copying { k, src, dest, copy } => {
            lemma_copy_stays_within(copy, r, src, dest);
            lemma_copy_effects_in_repo(push_next(s, r).1, src, dest, s.repo);
        },
        _ => {},
    }
}

/// Where an effect writes (a directory it creates, a file it copies to) lies
/// inside `repo`.
pub open spec fn writes_in(e: EffectView, repo: PathView) -> bool {
    match e {
        EffectView::MakeDirs(p) => within(p, repo),
        EffectView::CopyFile { to, .. } => within(to, repo),
        _ => true,
    }
}

/// A copy's writes to a target strictly inside the repository lie inside it.
proof fn lemma_copy_effects_in_repo(st: StepView, src: PathView, dest: PathView, repo: PathView)
    requires
        strictly_within(dest, repo),
    ensures
        match st {
            StepView::Do(e) => copy_effect_within(e, src, dest) ==> writes_in(e, repo),
            _ => true,
        },
{
    if let StepView::Do(e) = st {
        if copy_effect_within(e, src, dest) {
            match e {
                EffectView::MakeDirs(p) => {
                    if within(p, dest) {
                        lemma_within_trans(p, dest, repo);
                    } else {
                        lemma_within_parent(dest, repo);
                    }
                },
                EffectView::CopyFile { to, .. } => {
                    lemma_within_trans(to, dest, repo);
                },
                _ => {},
            }
        }
    }
}

/// A name with a ".." component never lies inside a repository whose own path has
/// none (a canonical path has none): its copy would lead out of the repository.
pub proof fn lemma_parent_name_escapes(repo: PathView, name: Seq<char>, k: int)
    requires
        no_parent(repo),
        0 <= k < components(name).len(),
        components(name)[k] == parent_part(),
    ensures
        !within(joined(repo, components(name)), repo),
{
    let c = components(name);
    let j = joined(repo, c);
    if within(j, repo) {
        let at: int = if is_absolute(c) {
            k
        } else if repo.len() > 0 && c.len() > 0 && c[0] == cur_part() {
            repo.len() + k - 1
        } else {
            repo.len() + k
        };
        assert(cur_part().len() != parent_part().len());
        assert(root_part().len() != parent_part().len());
        assert(j[at] == parent_part());
        if at < repo.len() {
            assert(j.take(repo.len() as int)[at] == repo[at]);
        } else {
            assert(j.skip(repo.len() as int)[at - repo.len()] == j[at]);
        }
    }
}

/// An entry whose copy would not lie inside the repository, such as one named
/// "../x", is refused with `NameEscapesRepo` before anything is removed or copied.
pub proof fn lemma_push_refuses_escaping_names(s: PushView, k: int, src: PathView)
    requires
        s.phase == (PushPhaseView::Source { k }),
        0 <= k < s.config.entries.len(),
        !has_prefix(src, s.repo),
        !strictly_within(copy_target(s.repo, s.config.entries[k]), s.repo),
    ensures
        push_next(s, ReplyView::Path(src)) == push_fail(
            s,
            ErrorView::NameEscapesRepo { name: s.config.entries[k].name },
        ),
{
}

/// A push starts in a state whose targets lie inside the repository.
pub proof fn lemma_push_start_targets(config: ConfigView, dirs: DirsView)
    ensures
        push_targets_in_repo(push_start(config, dirs)),
{
}

/// Push runs `git push` only when the config names a remote.
pub proof fn lemma_push_needs_remote(s: PushView, r: ReplyView)
    ensures
        push_next(s, r).0.phase is Pushing && !(s.phase is Pushing) ==> s.config.remote.len() > 0,
{
}

/// Push stages and commits only after `git status --porcelain` reported changes.
pub proof fn lemma_push_commits_only_changes(s: PushView, r: ReplyView)
    ensures
        push_next(s, r).0.phase is Adding ==> s.phase is Status && (r matches ReplyView::Exit(x)
            && x.stdout.len() > 0),
{
}

/// An entry whose source already lies inside the repository is counted as synced
/// and push goes straight on to the next entry: nothing is removed or copied for it.
pub proof fn lemma_push_skips_entries_in_repo(s: PushView, k: int, src: PathView)
    requires
        s.phase == (PushPhaseView::Source { k }),
        0 <= k < s.config.entries.len(),
        has_prefix(src, s.repo),
    ensures
        push_next(s, ReplyView::Path(src)) == push_enter(
            PushView {
                synced: s.synced.push(s.config.entries[k].name),
                phase: PushPhaseView::Over,
                ..s
            },
            k + 1,
        ),
{
}

/// A `git add`, `git commit` or `git push` that reports failure ends the push with
/// an error naming that step.
pub proof fn lemma_push_stops_on_git_failure(s: PushView, x: crate::effect::ExitView)
    requires
        !x.success,
    ensures
        s.phase is Adding ==> push_next(s, ReplyView::Exit(x)) == push_fail(s, ErrorView::GitFailed { step: GitStep::Add }),
        s.phase is Committing ==> push_next(s, ReplyView::Exit(x)) == push_fail(s, ErrorView::GitFailed { step: GitStep::Commit }),
        s.phase is Pushing ==> push_next(s, ReplyView::Exit(x)) == push_fail(s, ErrorView::GitFailed { step: GitStep::Push }),
{
}

proof fn lemma_texts_push(a: Seq<String>, x: String)
    ensures
        texts(a.push(x)) == texts(a).push(x@),
{
    assert(texts(a.push(x)) =~= texts(a).push(x@));
}

fn git_in_repo(repo: &LocalPath, capture: bool) -> (c: Command)
    ensures
        c@ == (CommandView { program: Program::Git, args: Seq::empty(), dir: Some(repo@), capture }),
{
    Command::git(Some(repo.duplicate()), capture)
}

fn status_cmd(repo: &LocalPath) -> (c: Command)
    ensures
        c@ == status_command(repo@),
{
    let c = git_in_repo(repo, true).word("status").word("--porcelain");
    assert(c@.args =~= status_command(repo@).args);
    c
}

fn add_cmd(repo: &LocalPath) -> (c: Command)
    ensures
        c@ == add_command(repo@),
{
    let c = git_in_repo(repo, false).word("add").word("-A");
    assert(c@.args =~= add_command(repo@).args);
    c
}

fn commit_cmd(repo: &LocalPath, ts: u64) -> (c: Command)
    ensures
        c@ == commit_command(repo@, ts),
{
    let c = git_in_repo(repo, false).word("commit").word("-m").arg(Arg::Text(commit_message_text(ts)));
    assert(c@.args =~= commit_command(repo@, ts).args);
    c
}

fn push_cmd(repo: &LocalPath) -> (c: Command)
    ensures
        c@ == push_command(repo@),
{
    let c = git_in_repo(repo, false).word("push");
    assert(c@.args =~= push_command(repo@).args);
    c
}

impl PushRun {
    pub fn new(config: Config, dirs: Dirs) -> (r: PushRun)
        ensures
            r@ == push_start(config@, dirs@),
    {
        let cd = match &dirs.config {
            Some(p) => Some(p.duplicate()),
            None => None,
        };
        let resolve = ResolveRun::new(config.repo_dir(), cd);
        let r = PushRun { config, dirs, repo: LocalPath::empty(), synced: Vec::new(), phase: PushPhase::Resolving(resolve) };
        assert(r@.synced =~= Seq::<Seq<char>>::empty());
        r
    }

    fn fail(&mut self, e: DotsyncError) -> (st: Step)
        ensures
            (final(self)@, st@) == push_fail(old(self)@, e@),
    {
        self.phase = PushPhase::Over;
        Step::Finish(Err(e))
    }

    fn enter(&mut self, k: usize) -> (st: Step)
        requires
            k <= old(self)@.config.entries.len(),
        ensures
            (final(self)@, st@) == push_enter(old(self)@, k as int),
    {
        if k >= self.config.entry_count() {
            match &self.dirs.home {
                None => self.fail(DotsyncError::NoHomeDir),
                Some(h) => {
                    let m = self.config.manifest_for(h);
                    let path = Config::manifest_path(&self.repo);
                    self.phase = PushPhase::Manifest;
                    Step::Do(Effect::WriteConfig { path, config: m, announce: false })
                },
            }
        } else {
            let source = self.config.entry(k).source();
            self.phase = PushPhase::Source { k };
            Step::Do(Effect::Canonicalize(source))
        }
    }

    fn synced(&mut self, k: usize) -> (st: Step)
        requires
            k < old(self)@.config.entries.len(),
        ensures
            (final(self)@, st@) == push_synced(old(self)@, k as int),
    {
        let name = self.config.entry(k).name();
        proof {
            lemma_texts_push(self.synced@, name);
        }
        self.synced.push(name);
        let n = self.config.entry_count();
        assert(k < n);
        self.enter(k + 1)
    }

    fn copy(&mut self, k: usize, src: LocalPath, dest: LocalPath) -> (st: Step)
        requires
            k < old(self)@.config.entries.len(),
        ensures
            (final(self)@, st@) == push_copy(old(self)@, k as int, src@, dest@),
    {
        let mut c = CopyRun::new(src.duplicate(), dest.duplicate());
        let st = c.resume(Reply::Done);
        self.copying(k, src, dest, c, st)
    }

    fn copying(&mut self, k: usize, src: LocalPath, dest: LocalPath, c: CopyRun, st: Step) -> (out: Step)
        requires
            k < old(self)@.config.entries.len(),
        ensures
            (final(self)@, out@) == push_copying(old(self)@, k as int, src@, dest@, c@, st@),
    {
        match st {
            Step::Do(e) => {
                self.phase = PushPhase::Copying { k, src, dest, copy: c };
                Step::Do(e)
            },
            Step::Finish(Ok(_)) => self.synced(k),
            Step::Finish(Err(DotsyncError::Io { reason })) => self.fail(
                DotsyncError::CopyFailed { from: src, to: dest, reason },
            ),
            Step::Finish(Err(e)) => self.fail(e),
        }
    }

    fn report(&mut self) -> (st: Step)
        ensures
            (final(self)@, st@) == push_report(old(self)@),
    {
        let names = copy_names(&self.synced);
        self.phase = PushPhase::Closing;
        Step::Do(Effect::Say(Notice::Synced(names)))
    }

    pub fn resume(&mut self, reply: Reply) -> (st: Step)
        ensures
            (final(self)@, st@) == push_next(old(self)@, reply@),
    {
        let mut phase = PushPhase::Over;
        std::mem::swap(&mut phase, &mut self.phase);
        let n = self.config.entry_count();
        match phase {
            PushPhase::Resolving(mut rv) => {
                let st = rv.resume(reply);
                match st {
                    Step::Do(e) => {
                        self.phase = PushPhase::Resolving(rv);
                        Step::Do(e)
                    },
                    Step::Finish(Ok(Outcome::Path(repo))) => {
                        self.repo = repo;
                        self.enter(0)
                    },
                    Step::Finish(Ok(_)) => self.fail(DotsyncError::UnexpectedReply),
                    Step::Finish(Err(e)) => self.fail(e),
                }
            },
            PushPhase::Source { k } => if k >= n {
                self.fail(DotsyncError::UnexpectedReply)
            } else {
                match reply {
                    Reply::Path(src) => {
                        if src.starts_with(&self.repo) {
                            self.synced(k)
                        } else {
                            let name = self.config.entry(k).name();
                            let dest = self.repo.join(&LocalPath::parse(name.as_str()));
                            if !(dest.lies_within(&self.repo) && dest.parts().len() > self.repo.parts().len()) {
                                self.fail(DotsyncError::NameEscapesRepo { name })
                            } else {
                                let probe = dest.duplicate();
                                self.phase = PushPhase::Clearing { k, src, dest };
                                Step::Do(Effect::IsDir(probe))
                            }
                        }
                    },
                    Reply::Failed(m) => {
                        let source = self.config.entry(k).source();
                        self.fail(DotsyncError::SourceMissing { source, reason: m })
                    },
                    _ => self.fail(DotsyncError::UnexpectedReply),
                }
            },
            PushPhase::Clearing { k, src, dest } => match reply {
                Reply::Flag(true) => {
                    let target = dest.duplicate();
                    self.phase = PushPhase::Removing { k, src, dest };
                    Step::Do(Effect::RemoveTree(target))
                },
                Reply::Flag(false) => {
                    let target = dest.duplicate();
                    self.phase = PushPhase::Probing { k, src, dest };
                    Step::Do(Effect::Exists(target))
                },
                _ => self.fail(DotsyncError::UnexpectedReply),
            },
            PushPhase::Probing { k, src, dest } => if k >= n {
                self.fail(DotsyncError::UnexpectedReply)
            } else {
                match reply {
                    Reply::Flag(true) => {
                        let target = dest.duplicate();
                        self.phase = PushPhase::Removing { k, src, dest };
                        Step::Do(Effect::RemoveFile(target))
                    },
                    Reply::Flag(false) => self.copy(k, src, dest),
                    _ => self.fail(DotsyncError::UnexpectedReply),
                }
            },
            PushPhase::Removing { k, src, dest } => if k >= n {
                self.fail(DotsyncError::UnexpectedReply)
            } else {
                match reply {
                    Reply::Done => self.copy(k, src, dest),
                    Reply::Failed(m) => self.fail(DotsyncError::RemoveFailed { path: dest, reason: m }),
                    _ => self.fail(DotsyncError::UnexpectedReply),
                }
            },
            PushPhase::Copying { k, src, dest, mut copy } => if k >= n {
                self.fail(DotsyncError::UnexpectedReply)
            } else {
                let st = copy.resume(reply);
                self.copying(k, src, dest, copy, st)
            },
            PushPhase::Manifest => match reply {
                Reply::Done => {
                    self.phase = PushPhase::Status;
                    Step::Do(Effect::Run(status_cmd(&self.repo)))
                },
                Reply::Failed(m) => {
                    let path = Config::manifest_path(&self.repo);
                    self.fail(DotsyncError::WriteFailed { path, reason: m })
                },
                _ => self.fail(DotsyncError::UnexpectedReply),
            },
            PushPhase::Status => match reply {
                Reply::Exit(x) => {
                    if x.stdout.len() == 0 {
                        self.phase = PushPhase::Closing;
                        Step::Do(Effect::Say(Notice::NothingToCommit))
                    } else {
                        self.phase = PushPhase::Adding;
                        Step::Do(Effect::Run(add_cmd(&self.repo)))
                    }
                },
                Reply::Failed(m) => self.fail(DotsyncError::Io { reason: m }),
                _ => self.fail(DotsyncError::UnexpectedReply),
            },
            PushPhase::Adding => match reply {
                Reply::Exit(x) => {
                    if x.success {
                        self.phase = PushPhase::Timing;
                        Step::Do(Effect::Clock)
                    } else {
                        self.fail(DotsyncError::GitFailed { step: GitStep::Add })
                    }
                },
                Reply::Failed(m) => self.fail(DotsyncError::Io { reason: m }),
                _ => self.fail(DotsyncError::UnexpectedReply),
            },
            PushPhase::Timing => match reply {
                Reply::Number(ts) => {
                    self.phase = PushPhase::Committing;
                    Step::Do(Effect::Run(commit_cmd(&self.repo, ts)))
                },
                _ => self.fail(DotsyncError::UnexpectedReply),
            },
            PushPhase::Committing => match reply {
                Reply::Exit(x) => {
                    if !x.success {
                        self.fail(DotsyncError::GitFailed { step: GitStep::Commit })
                    } else if !self.config.remote().as_str().is_empty() {
                        self.phase = PushPhase::Pushing;
                        Step::Do(Effect::Run(push_cmd(&self.repo)))
                    } else {
                        self.report()
                    }
                },
                Reply::Failed(m) => self.fail(DotsyncError::Io { reason: m }),
                _ => self.fail(DotsyncError::UnexpectedReply),
            },
            PushPhase::Pushing => match reply {
                Reply::Exit(x) => {
                    if x.success {
                        self.report()
                    } else {
                        self.fail(DotsyncError::GitFailed { step: GitStep::Push })
                    }
                },
                Reply::Failed(m) => self.fail(DotsyncError::Io { reason: m }),
                _ => self.fail(DotsyncError::UnexpectedReply),
            },
            PushPhase::Closing => match reply {
                Reply::Done => Step::Finish(Ok(Outcome::Nothing)),
                _ => self.fail(DotsyncError::UnexpectedReply),
            },
            PushPhase::Over => self.fail(DotsyncError::UnexpectedReply),
        }
    }
}

impl Config {
    /// `push`: copies the tracked entries into the repository, writes the manifest,
    /// commits and pushes. The user's directories are looked up once, at the start.
    pub fn push(&self) -> (r: PushRun)
        ensures
            r@ == push_start(self@, r@.dirs),
            found_dir(r@.dirs.config),
            found_dir(r@.dirs.home),
    {
        PushRun::new(self.duplicate(), Dirs::lookup())
    }
}

/// `push`: loads the stored config and pushes.
pub fn push() -> (s: crate::session::Session)
    ensures
        s@ == crate::session::session_loading(crate::session::Next::Push, s@->Loading_dirs),
        found_dir(s@->Loading_dirs.config),
        found_dir(s@->Loading_dirs.home),
{
    crate::session::Session::after_load(crate::session::Next::Push, Dirs::lookup())
}

} // verus!
