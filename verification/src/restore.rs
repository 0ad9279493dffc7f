//! Restoring the tracked files of a repository to their places on this machine,
//! as its manifest lists them, and saving that manifest as the local config.
use crate::config::{manifest_file_in, restored_of, Config, ConfigView, EntryView};
use crate::copy::{copy_next, copy_start, CopyRun, CopyView};
use crate::effect::{ask, done_ok, done_with, Effect, EffectView, Outcome, OutcomeView, Reply, ReplyView, Step, StepView};
use crate::env::{Dirs, DirsView};
use crate::error::{DotsyncError, ErrorView};
use crate::path::{components, has_prefix, joined, parent_of, texts, LocalPath, PathView};
use crate::resolve::unexpected;
use crate::store::{save_next, save_start, SaveRun, SaveView};
use vstd::prelude::*;

verus! {

pub enum RestorePhase {
    Start,
    /// Waiting to learn whether the manifest exists.
    Probing,
    /// Waiting for the manifest's contents.
    Reading,
    /// Waiting for the canonical form of entry `k`'s copy in the repository.
    Origin { k: usize, origin: LocalPath },
    /// Waiting to learn whether entry `k`'s live path is a directory.
    Clearing { k: usize, found: LocalPath },
    /// Waiting to learn whether entry `k`'s live path exists.
    Probing2 { k: usize, found: LocalPath },
    /// Waiting for entry `k`'s live path to be removed.
    Removing { k: usize, found: LocalPath },
    /// Waiting for the parent directory of entry `k`'s live path.
    Parenting { k: usize, found: LocalPath },
    /// Copying entry `k` out of the repository.
    Copying { k: usize, copy: CopyRun },
    /// Saving the manifest as the local config.
    Saving(SaveRun),
    Over,
}

pub enum RestorePhaseView {
    Start,
    Probing,
    Reading,
    Origin { k: int, origin: PathView },
    Clearing { k: int, found: PathView },
    Probing2 { k: int, found: PathView },
    Removing { k: int, found: PathView },
    Parenting { k: int, found: PathView },
    Copying { k: int, copy: CopyView },
    Saving(SaveView),
    Over,
}

impl View for RestorePhase {
    type V = RestorePhaseView;

    open spec fn view(&self) -> RestorePhaseView {
        match self {
            RestorePhase::Start => RestorePhaseView::Start,
            RestorePhase::Probing => RestorePhaseView::Probing,
            RestorePhase::Reading => RestorePhaseView::Reading,
            RestorePhase::Origin { k, origin } => RestorePhaseView::Origin {
                k: *k as int,
                origin: origin@,
            },
            RestorePhase::Clearing { k, found } => RestorePhaseView::Clearing {
                k: *k as int,
                found: found@,
            },
            RestorePhase::Probing2 { k, found } => RestorePhaseView::Probing2 {
                k: *k as int,
                found: found@,
            },
            RestorePhase::Removing { k, found } => RestorePhaseView::Removing {
                k: *k as int,
                found: found@,
            },
            RestorePhase::Parenting { k, found } => RestorePhaseView::Parenting {
                k: *k as int,
                found: found@,
            },
            RestorePhase::Copying { k, copy } => RestorePhaseView::Copying {
                k: *k as int,
                copy: copy@,
            },
            RestorePhase::Saving(sv) => RestorePhaseView::Saving(sv@),
            RestorePhase::Over => RestorePhaseView::Over,
        }
    }
}

/// A run of `restore_from_manifest` for the repository at `repo_dir`.
/// `manifest` holds the manifest once read, its sources placed under the home
/// directory; `restored` the names restored so far.
pub struct RestoreRun {
    pub repo_dir: LocalPath,
    pub dirs: Dirs,
    pub manifest: Config,
    pub restored: Vec<String>,
    pub phase: RestorePhase,
}

pub struct RestoreView {
    pub repo_dir: PathView,
    pub dirs: DirsView,
    pub manifest: ConfigView,
    pub restored: Seq<Seq<char>>,
    pub phase: RestorePhaseView,
}

impl View for RestoreRun {
    type V = RestoreView;

    open spec fn view(&self) -> RestoreView {
        RestoreView {
            repo_dir: self.repo_dir@,
            dirs: self.dirs@,
            manifest: self.manifest@,
            restored: texts(self.restored@),
            phase: self.phase@,
        }
    }
}

pub open spec fn empty_config() -> ConfigView {
    ConfigView { repo_dir: Seq::empty(), remote: Seq::empty(), entries: Seq::empty() }
}

pub open spec fn restore_start(repo_dir: PathView, dirs: DirsView) -> RestoreView {
    RestoreView {
        repo_dir,
        dirs,
        manifest: empty_config(),
        restored: Seq::empty(),
        phase: RestorePhaseView::Start,
    }
}

pub open spec fn restore_in(s: RestoreView, phase: RestorePhaseView) -> RestoreView {
    RestoreView { phase, ..s }
}

pub open spec fn restore_fail(s: RestoreView, e: ErrorView) -> (RestoreView, StepView) {
    (restore_in(s, RestorePhaseView::Over), done_with(e))
}

/// The entry `k` of the manifest.
pub open spec fn entry_at(s: RestoreView, k: int) -> EntryView {
    s.manifest.entries[k]
}

/// Goes on from entry `k`: entries whose live path already lies inside the
/// repository count as restored (git has updated them); the next other entry's
/// copy in the repository is looked up; after the last entry the manifest is saved.
pub open spec fn restore_enter(s: RestoreView, k: int) -> (RestoreView, StepView)
    decreases s.manifest.entries.len() - k,
{
    if k < 0 || k >= s.manifest.entries.len() {
        let sv = save_start(s.manifest, s.dirs.config);
        let (sv2, st) = save_next(sv, ReplyView::Done);
        (restore_in(s, RestorePhaseView::Saving(sv2)), st)
    } else {
        let e = entry_at(s, k);
        if has_prefix(e.source, s.repo_dir) {
            restore_enter(RestoreView { restored: s.restored.push(e.name), ..s }, k + 1)
        } else {
            let origin = joined(s.repo_dir, components(e.name));
            (
                restore_in(s, RestorePhaseView::Origin { k, origin }),
                ask(EffectView::Canonicalize(origin)),
            )
        }
    }
}

/// After entry `k`'s old live copy is gone: its parent directory is created,
/// then the copy starts.
pub open spec fn restore_after_clear(s: RestoreView, k: int, found: PathView) -> (RestoreView, StepView) {
    match parent_of(entry_at(s, k).source) {
        Some(p) => (restore_in(s, RestorePhaseView::Parenting { k, found }), ask(EffectView::MakeDirs(p))),
        None => restore_copy(s, k, found),
    }
}

/// Starts copying the repository's copy `found` of entry `k` to its live path.
pub open spec fn restore_copy(s: RestoreView, k: int, found: PathView) -> (RestoreView, StepView) {
    let (c2, st) = copy_next(copy_start(found, entry_at(s, k).source), ReplyView::Done);
    restore_copying(s, k, c2, st)
}

/// Continues after a step of the copy of entry `k`.
pub open spec fn restore_copying(s: RestoreView, k: int, c: CopyView, st: StepView) -> (RestoreView, StepView) {
    match st {
        StepView::Do(e) => (restore_in(s, RestorePhaseView::Copying { k, copy: c }), ask(e)),
        StepView::Finish(Ok(_)) => restore_enter(
            RestoreView { restored: s.restored.push(entry_at(s, k).name), ..s },
            k + 1,
        ),
        StepView::Finish(Err(ErrorView::Io { reason })) => restore_fail(
            s,
            ErrorView::RestoreFailed { name: entry_at(s, k).name, reason },
        ),
        StepView::Finish(Err(e)) => restore_fail(s, e),
    }
}

/// One step of `restore_from_manifest`.
pub open spec fn restore_next(s: RestoreView, r: ReplyView) -> (RestoreView, StepView) {
    let unexpected = restore_fail(s, ErrorView::UnexpectedReply);
    let base = restore_in(s, RestorePhaseView::Over);
    let manifest_path = manifest_file_in(s.repo_dir);
    match s.phase {
        RestorePhaseView::Start => (
            restore_in(s, RestorePhaseView::Probing),
            ask(EffectView::Exists(manifest_path)),
        ),
        RestorePhaseView::Probing => match r {
            ReplyView::Flag(true) => (
                restore_in(s, RestorePhaseView::Reading),
                ask(EffectView::ReadConfig { path: manifest_path, announce: false }),
            ),
            ReplyView::Flag(false) => restore_fail(s, ErrorView::ManifestMissing { path: manifest_path }),
            _ => unexpected,
        },
        RestorePhaseView::Reading => match r {
            ReplyView::Loaded(m) => match s.dirs.home {
                None => restore_fail(s, ErrorView::NoHomeDir),
                Some(h) => restore_enter(
                    RestoreView { manifest: restored_of(m, h, s.repo_dir), ..base },
                    0,
                ),
            },
            ReplyView::Failed(msg) => restore_fail(
                s,
                ErrorView::ManifestUnreadable { path: manifest_path, reason: msg },
            ),
            _ => unexpected,
        },
        RestorePhaseView::Origin { k, origin } => if !(0 <= k < s.manifest.entries.len()) {
            unexpected
        } else {
            match r {
            ReplyView::Path(found) => if !has_prefix(found, s.repo_dir) {
                restore_fail(s, ErrorView::PathEscapesRepo { name: entry_at(s, k).name })
            } else {
                (
                    restore_in(s, RestorePhaseView::Clearing { k, found }),
                    ask(EffectView::IsDir(entry_at(s, k).source)),
                )
            },
            ReplyView::Failed(msg) => restore_fail(
                s,
                ErrorView::NotInRepo { name: entry_at(s, k).name, origin, reason: msg },
            ),
                _ => unexpected,
            }
        },
        RestorePhaseView::Clearing { k, found } => if !(0 <= k < s.manifest.entries.len()) {
            unexpected
        } else {
            match r {
            ReplyView::Flag(true) => (
                restore_in(s, RestorePhaseView::Removing { k, found }),
                ask(EffectView::RemoveTree(entry_at(s, k).source)),
            ),
            ReplyView::Flag(false) => (
                restore_in(s, RestorePhaseView::Probing2 { k, found }),
                ask(EffectView::Exists(entry_at(s, k).source)),
            ),
                _ => unexpected,
            }
        },
        RestorePhaseView::Probing2 { k, found } => if !(0 <= k < s.manifest.entries.len()) {
            unexpected
        } else {
            match r {
            ReplyView::Flag(true) => (
                restore_in(s, RestorePhaseView::Removing { k, found }),
                ask(EffectView::RemoveFile(entry_at(s, k).source)),
            ),
            ReplyView::Flag(false) => restore_after_clear(base, k, found),
                _ => unexpected,
            }
        },
        RestorePhaseView::Removing { k, found } => if !(0 <= k < s.manifest.entries.len()) {
            unexpected
        } else {
            match r {
            ReplyView::Done => restore_after_clear(base, k, found),
            ReplyView::Failed(msg) => restore_fail(
                s,
                ErrorView::RemoveFailed { path: entry_at(s, k).source, reason: msg },
            ),
                _ => unexpected,
            }
        },
        RestorePhaseView::Parenting { k, found } => if !(0 <= k < s.manifest.entries.len()) {
            unexpected
        } else {
            match r {
            ReplyView::Done => restore_copy(base, k, found),
            ReplyView::Failed(msg) => restore_fail(s, ErrorView::Io { reason: msg }),
                _ => unexpected,
            }
        },
        RestorePhaseView::Copying { k, copy } => if !(0 <= k < s.manifest.entries.len()) {
            unexpected
        } else {
            let (c2, st) = copy_next(copy, r);
            restore_copying(base, k, c2, st)
        },
        RestorePhaseView::Saving(sv) => {
            let (sv2, st) = save_next(sv, r);
            match st {
                StepView::Do(e) => (restore_in(s, RestorePhaseView::Saving(sv2)), ask(e)),
                StepView::Finish(Ok(_)) => (
                    restore_in(s, RestorePhaseView::Over),
                    done_ok(OutcomeView::Names(s.restored)),
                ),
                StepView::Finish(Err(e)) => restore_fail(s, e),
            }
        },
        RestorePhaseView::Over => unexpected,
    }
}

/// Every copy restore makes comes from inside the repository.
pub open spec fn restore_sources_in_repo(s: RestoreView) -> bool {
    match s.phase {
        RestorePhaseView::Clearing { found, .. } => has_prefix(found, s.repo_dir),
        RestorePhaseView::Probing2 { found, .. } => has_prefix(found, s.repo_dir),
        RestorePhaseView::Removing { found, .. } => has_prefix(found, s.repo_dir),
        RestorePhaseView::Parenting { found, .. } => has_prefix(found, s.repo_dir),
        _ => true,
    }
}

proof fn lemma_restore_enter_phase(s: RestoreView, k: int)
    ensures
        restore_enter(s, k).0.phase is Saving || restore_enter(s, k).0.phase is Origin,
        restore_enter(s, k).0.repo_dir == s.repo_dir,
    decreases s.manifest.entries.len() - k,
{
    if 0 <= k < s.manifest.entries.len() && has_prefix(entry_at(s, k).source, s.repo_dir) {
        lemma_restore_enter_phase(
            RestoreView { restored: s.restored.push(entry_at(s, k).name), ..s },
            k + 1,
        );
    }
}

/// The names restored so far are those of the first `n` entries of the manifest,
/// in order.
pub open spec fn restored_first(s: RestoreView, n: int) -> bool {
    &&& 0 <= n <= s.manifest.entries.len()
    &&& s.restored.len() == n
    &&& forall|i: int| 0 <= i < n ==> #[trigger] s.restored[i] == s.manifest.entries[i].name
}

/// Entry `k` is being handled: it exists, its live path lies outside the
/// repository, and exactly the entries before it are restored.
pub open spec fn handling(s: RestoreView, k: int) -> bool {
    &&& k < s.manifest.entries.len()
    &&& !has_prefix(s.manifest.entries[k].source, s.repo_dir)
    &&& restored_first(s, k)
}

/// Where a restore run stands: nothing is restored before the manifest is read;
/// while entry `k` is handled the entries before it are restored; once saving,
/// all are.
pub open spec fn restore_inv(s: RestoreView) -> bool {
    match s.phase {
        RestorePhaseView::Start => s.restored.len() == 0,
        RestorePhaseView::Probing => s.restored.len() == 0,
        RestorePhaseView::Reading => s.restored.len() == 0,
        RestorePhaseView::Origin { k, .. } => handling(s, k),
        RestorePhaseView::Clearing { k, .. } => handling(s, k),
        RestorePhaseView::Probing2 { k, .. } => handling(s, k),
        RestorePhaseView::Removing { k, .. } => handling(s, k),
        RestorePhaseView::Parenting { k, .. } => handling(s, k),
        RestorePhaseView::Copying { k, .. } => handling(s, k),
        RestorePhaseView::Saving(_) => restored_first(s, s.manifest.entries.len() as int),
        RestorePhaseView::Over => true,
    }
}

proof fn lemma_restore_enter_counts(s: RestoreView, k: int)
    requires
        restored_first(s, k),
    ensures
        restore_inv(restore_enter(s, k).0),
        restore_enter(s, k).0.manifest == s.manifest,
        restore_enter(s, k).0.repo_dir == s.repo_dir,
        restore_enter(s, k).0.restored.len() >= k,
        forall|i: int| 0 <= i < k ==> #[trigger] restore_enter(s, k).0.restored[i] == s.restored[i],
        forall|i: int|
            k <= i < restore_enter(s, k).0.restored.len() ==> has_prefix(
                #[trigger] s.manifest.entries[i].source,
                s.repo_dir,
            ),
    decreases s.manifest.entries.len() - k,
{
    if k < s.manifest.entries.len() && has_prefix(entry_at(s, k).source, s.repo_dir) {
        let t = RestoreView { restored: s.restored.push(entry_at(s, k).name), ..s };
        assert forall|i: int| 0 <= i < k + 1 implies #[trigger] t.restored[i] == t.manifest.entries[i].name by {
            if i < k {
                assert(t.restored[i] == s.restored[i]);
            }
        }
        lemma_restore_enter_counts(t, k + 1);
        assert forall|i: int| 0 <= i < k implies #[trigger] restore_enter(s, k).0.restored[i] == s.restored[i] by {
            assert(restore_enter(t, k + 1).0.restored[i] == t.restored[i]);
        }
    }
}

/// A step that starts a copy never finishes it at once.
proof fn lemma_copy_start_asks(from: PathView, to: PathView)
    ensures
        copy_next(copy_start(from, to), ReplyView::Done).1 is Do,
{
}

/// Pull and clone count an entry whose live path lies outside the repository as
/// restored only when the copy of its repository copy onto its live path has
/// finished: a step that adds such an entry to the restored names is the last
/// step of that entry's copy. Entries whose live path lies inside the repository
/// count as restored without a copy (git has updated them). The restored names
/// are always those of the first entries of the manifest, in order.
pub proof fn lemma_restore_counts_only_copied(s: RestoreView, r: ReplyView)
    requires
        restore_inv(s),
    ensures
        restore_inv(restore_next(s, r).0),
        restore_next(s, r).0.restored.len() >= s.restored.len(),
        forall|i: int|
            s.restored.len() <= i < restore_next(s, r).0.restored.len() && !has_prefix(
                #[trigger] restore_next(s, r).0.manifest.entries[i].source,
                restore_next(s, r).0.repo_dir,
            ) ==> (s.phase matches RestorePhaseView::Copying { k, copy } && k == i && copy_next(
                copy,
                r,
            ).1 matches StepView::Finish(Ok(_))),
{
    let base = restore_in(s, RestorePhaseView::Over);
    match s.phase {
        RestorePhaseView::Reading => {
            if let ReplyView::Loaded(m) = r {
                if let Some(h) = s.dirs.home {
                    lemma_restore_enter_counts(RestoreView { manifest: restored_of(m, h, s.repo_dir), ..base }, 0);
                }
            }
        },
        RestorePhaseView::Copying { k, copy } => {
            let (c2, st) = copy_next(copy, r);
            if 0 <= k < s.manifest.entries.len() {
                if st is Finish && st->Finish_0 is Ok {
                    let t = RestoreView { restored: base.restored.push(entry_at(base, k).name), ..base };
                    assert forall|i: int| 0 <= i < k + 1 implies #[trigger] t.restored[i] == t.manifest.entries[i].name by {
                        if i < k {
                            assert(t.restored[i] == s.restored[i]);
                        }
                    }
                    lemma_restore_enter_counts(t, k + 1);
                }
            }
        },
        RestorePhaseView::Probing2 { k, found } => {
            lemma_copy_start_asks(found, entry_at(base, k).source);
        },
        RestorePhaseView::Removing { k, found } => {
            lemma_copy_start_asks(found, entry_at(base, k).source);
        },
        RestorePhaseView::Parenting { k, found } => {
            lemma_copy_start_asks(found, entry_at(base, k).source);
        },
        _ => {},
    }
}

/// Restore copies onto an entry's live path only once that path is clear: the
/// step that starts making its parent directory or copying is taken only after the
/// live path was reported absent, or after it was removed.
pub proof fn lemma_restore_copies_onto_cleared_path(s: RestoreView, r: ReplyView)
    ensures
        (restore_next(s, r).0.phase is Parenting || restore_next(s, r).0.phase is Copying) && !(s.phase is Parenting)
            && !(s.phase is Copying) ==> (s.phase is Probing2 && r == ReplyView::Flag(false))
            || (s.phase is Removing && r == ReplyView::Done),
{
    if let RestorePhaseView::Reading = s.phase {
        if let ReplyView::Loaded(m) = r {
            if let Some(h) = s.dirs.home {
                lemma_restore_enter_phase(
                    RestoreView { manifest: restored_of(m, h, s.repo_dir), ..restore_in(s, RestorePhaseView::Over) },
                    0,
                );
            }
        }
    }
}

/// Restore copies into an entry's live place only what it found inside the
/// repository: a copy whose canonical path leads out of the repository is refused
/// before the live path is touched.
pub proof fn lemma_restore_copies_only_from_repo(s: RestoreView, r: ReplyView)
    requires
        restore_sources_in_repo(s),
    ensures
        restore_sources_in_repo(restore_next(s, r).0),
{
    let base = restore_in(s, RestorePhaseView::Over);
    match s.phase {
        RestorePhaseView::Reading => {
            if let ReplyView::Loaded(m) = r {
                if let Some(h) = s.dirs.home {
                    lemma_restore_enter_phase(RestoreView { manifest: restored_of(m, h, s.repo_dir), ..base }, 0);
                }
            }
        },
        RestorePhaseView::Copying { k, copy } => {
            let (c2, st) = copy_next(copy, r);
            if 0 <= k < s.manifest.entries.len() {
                if st is Finish && st->Finish_0 is Ok {
                    lemma_restore_enter_phase(
                        RestoreView { restored: base.restored.push(entry_at(base, k).name), ..base },
                        k + 1,
                    );
                }
            }
        },
        RestorePhaseView::Probing2 { k, found } => {
            if 0 <= k < s.manifest.entries.len() {
                let (c2, st) = copy_next(copy_start(found, entry_at(base, k).source), ReplyView::Done);
                if st is Finish && st->Finish_0 is Ok {
                    lemma_restore_enter_phase(
                        RestoreView { restored: base.restored.push(entry_at(base, k).name), ..base },
                        k + 1,
                    );
                }
            }
        },
        RestorePhaseView::Removing { k, found } => {
            if 0 <= k < s.manifest.entries.len() {
                let (c2, st) = copy_next(copy_start(found, entry_at(base, k).source), ReplyView::Done);
                if st is Finish && st->Finish_0 is Ok {
                    lemma_restore_enter_phase(
                        RestoreView { restored: base.restored.push(entry_at(base, k).name), ..base },
                        k + 1,
                    );
                }
            }
        },
        RestorePhaseView::Parenting { k, found } => {
            if 0 <= k < s.manifest.entries.len() {
                let (c2, st) = copy_next(copy_start(found, entry_at(base, k).source), ReplyView::Done);
                if st is Finish && st->Finish_0 is Ok {
                    lemma_restore_enter_phase(
                        RestoreView { restored: base.restored.push(entry_at(base, k).name), ..base },
                        k + 1,
                    );
                }
            }
        },
        _ => {},
    }
}

proof fn lemma_texts_push(a: Seq<String>, x: String)
    ensures
        texts(a.push(x)) == texts(a).push(x@),
{
    assert(texts(a.push(x)) =~= texts(a).push(x@));
}

pub fn copy_names(v: &Vec<String>) -> (r: Vec<String>)
    ensures
        texts(r@) == texts(v@),
{
    let mut r: Vec<String> = Vec::new();
    let mut i: usize = 0;
    while i < v.len()
        invariant
            0 <= i <= v.len(),
            texts(r@) == texts(v@).take(i as int),
        decreases v.len() - i,
    {
        let x = v[i].clone();
        proof {
            lemma_texts_push(r@, x);
        }
        r.push(x);
        i = i + 1;
        assert(texts(r@) =~= texts(v@).take(i as int));
    }
    assert(texts(v@).take(v.len() as int) =~= texts(v@));
    r
}

impl RestoreRun {
    pub fn new(repo_dir: LocalPath, dirs: Dirs) -> (r: RestoreRun)
        ensures
            r@ == restore_start(repo_dir@, dirs@),
    {
        let r = RestoreRun {
            repo_dir,
            dirs,
            manifest: Config::new(LocalPath::empty(), String::new(), Vec::new()),
            restored: Vec::new(),
            phase: RestorePhase::Start,
        };
        assert(r@.manifest.entries =~= Seq::<EntryView>::empty());
        assert(r@.restored =~= Seq::<Seq<char>>::empty());
        r
    }

    fn fail(&mut self, e: DotsyncError) -> (st: Step)
        ensures
            (final(self)@, st@) == restore_fail(old(self)@, e@),
    {
        self.phase = RestorePhase::Over;
        Step::Finish(Err(e))
    }

    fn enter(&mut self, k: usize) -> (st: Step)
        requires
            k <= old(self)@.manifest.entries.len(),
        ensures
            (final(self)@, st@) == restore_enter(old(self)@, k as int),
        decreases old(self)@.manifest.entries.len() - k,
    {
        if k >= self.manifest.entry_count() {
            let cd = match &self.dirs.config {
                Some(p) => Some(p.duplicate()),
                None => None,
            };
            let mut sv = SaveRun::new(self.manifest.duplicate(), cd);
            let st = sv.resume(Reply::Done);
            self.phase = RestorePhase::Saving(sv);
            return st;
        }
        let e = self.manifest.entry(k);
        let source = e.source();
        if source.starts_with(&self.repo_dir) {
            let name = e.name();
            proof {
                lemma_texts_push(self.restored@, name);
            }
            self.restored.push(name);
            return self.enter(k + 1);
        }
        let origin = self.repo_dir.join(&LocalPath::parse(e.name().as_str()));
        self.phase = RestorePhase::Origin { k, origin: origin.duplicate() };
        Step::Do(Effect::Canonicalize(origin))
    }

    fn after_clear(&mut self, k: usize, found: LocalPath) -> (st: Step)
        requires
            k < old(self)@.manifest.entries.len(),
        ensures
            (final(self)@, st@) == restore_after_clear(old(self)@, k as int, found@),
    {
        let source = self.manifest.entry(k).source();
        match source.parent() {
            Some(p) => {
                self.phase = RestorePhase::Parenting { k, found };
                Step::Do(Effect::MakeDirs(p))
            },
            None => self.copy(k, found),
        }
    }

    fn copy(&mut self, k: usize, found: LocalPath) -> (st: Step)
        requires
            k < old(self)@.manifest.entries.len(),
        ensures
            (final(self)@, st@) == restore_copy(old(self)@, k as int, found@),
    {
        let source = self.manifest.entry(k).source();
        let mut c = CopyRun::new(found, source);
        let st = c.resume(Reply::Done);
        self.copying(k, c, st)
    }

    fn copying(&mut self, k: usize, c: CopyRun, st: Step) -> (out: Step)
        requires
            k < old(self)@.manifest.entries.len(),
        ensures
            (final(self)@, out@) == restore_copying(old(self)@, k as int, c@, st@),
    {
        match st {
            Step::Do(e) => {
                self.phase = RestorePhase::Copying { k, copy: c };
                Step::Do(e)
            },
            Step::Finish(Ok(_)) => {
                let name = self.manifest.entry(k).name();
                proof {
                    lemma_texts_push(self.restored@, name);
                }
                self.restored.push(name);
                let n = self.manifest.entry_count();
                assert(k < n);
                self.enter(k + 1)
            },
            Step::Finish(Err(DotsyncError::Io { reason })) => {
                let name = self.manifest.entry(k).name();
                self.fail(DotsyncError::RestoreFailed { name, reason })
            },
            Step::Finish(Err(e)) => self.fail(e),
        }
    }

    pub fn resume(&mut self, reply: Reply) -> (st: Step)
        ensures
            (final(self)@, st@) == restore_next(old(self)@, reply@),
    {
        let mut phase = RestorePhase::Over;
        std::mem::swap(&mut phase, &mut self.phase);
        let manifest_path = Config::manifest_path(&self.repo_dir);
        match phase {
            RestorePhase::Start => {
                self.phase = RestorePhase::Probing;
                Step::Do(Effect::Exists(manifest_path))
            },
            RestorePhase::Probing => match reply {
                Reply::Flag(true) => {
                    self.phase = RestorePhase::Reading;
                    Step::Do(Effect::ReadConfig { path: manifest_path, announce: false })
                },
                Reply::Flag(false) => self.fail(DotsyncError::ManifestMissing { path: manifest_path }),
                _ => self.fail(DotsyncError::UnexpectedReply),
            },
            RestorePhase::Reading => match reply {
                Reply::Loaded(m) => match &self.dirs.home {
                    None => self.fail(DotsyncError::NoHomeDir),
                    Some(h) => {
                        self.manifest = m.restored_for(h, &self.repo_dir);
                        self.enter(0)
                    },
                },
                Reply::Failed(msg) => self.fail(
                    DotsyncError::ManifestUnreadable { path: manifest_path, reason: msg },
                ),
                _ => self.fail(DotsyncError::UnexpectedReply),
            },
            RestorePhase::Origin { k, origin } => if k >= self.manifest.entry_count() {
                self.fail(DotsyncError::UnexpectedReply)
            } else {
                match reply {
                Reply::Path(found) => {
                    if !found.starts_with(&self.repo_dir) {
                        let name = self.manifest.entry(k).name();
                        self.fail(DotsyncError::PathEscapesRepo { name })
                    } else {
                        let source = self.manifest.entry(k).source();
                        self.phase = RestorePhase::Clearing { k, found };
                        Step::Do(Effect::IsDir(source))
                    }
                },
                Reply::Failed(msg) => {
                    let name = self.manifest.entry(k).name();
                    self.fail(DotsyncError::NotInRepo { name, origin, reason: msg })
                },
                    _ => self.fail(DotsyncError::UnexpectedReply),
                }
            },
            RestorePhase::Clearing { k, found } => if k >= self.manifest.entry_count() {
                self.fail(DotsyncError::UnexpectedReply)
            } else {
                match reply {
                Reply::Flag(true) => {
                    let source = self.manifest.entry(k).source();
                    self.phase = RestorePhase::Removing { k, found };
                    Step::Do(Effect::RemoveTree(source))
                },
                Reply::Flag(false) => {
                    let source = self.manifest.entry(k).source();
                    self.phase = RestorePhase::Probing2 { k, found };
                    Step::Do(Effect::Exists(source))
                },
                    _ => self.fail(DotsyncError::UnexpectedReply),
                }
            },
            RestorePhase::Probing2 { k, found } => if k >= self.manifest.entry_count() {
                self.fail(DotsyncError::UnexpectedReply)
            } else {
                match reply {
                Reply::Flag(true) => {
                    let source = self.manifest.entry(k).source();
                    self.phase = RestorePhase::Removing { k, found };
                    Step::Do(Effect::RemoveFile(source))
                },
                Reply::Flag(false) => self.after_clear(k, found),
                    _ => self.fail(DotsyncError::UnexpectedReply),
                }
            },
            RestorePhase::Removing { k, found } => if k >= self.manifest.entry_count() {
                self.fail(DotsyncError::UnexpectedReply)
            } else {
                match reply {
                Reply::Done => self.after_clear(k, found),
                Reply::Failed(msg) => {
                    let source = self.manifest.entry(k).source();
                    self.fail(DotsyncError::RemoveFailed { path: source, reason: msg })
                },
                    _ => self.fail(DotsyncError::UnexpectedReply),
                }
            },
            RestorePhase::Parenting { k, found } => if k >= self.manifest.entry_count() {
                self.fail(DotsyncError::UnexpectedReply)
            } else {
                match reply {
                Reply::Done => self.copy(k, found),
                Reply::Failed(msg) => self.fail(DotsyncError::Io { reason: msg }),
                    _ => self.fail(DotsyncError::UnexpectedReply),
                }
            },
            RestorePhase::Copying { k, mut copy } => if k >= self.manifest.entry_count() {
                self.fail(DotsyncError::UnexpectedReply)
            } else {
                let st = copy.resume(reply);
                self.copying(k, copy, st)
            },
            RestorePhase::Saving(mut sv) => {
                let st = sv.resume(reply);
                match st {
                    Step::Do(e) => {
                        self.phase = RestorePhase::Saving(sv);
                        Step::Do(e)
                    },
                    Step::Finish(Ok(_)) => Step::Finish(
                        Ok(Outcome::Names(copy_names(&self.restored))),
                    ),
                    Step::Finish(Err(e)) => self.fail(e),
                }
            },
            RestorePhase::Over => self.fail(DotsyncError::UnexpectedReply),
        }
    }
}

} // verus!
