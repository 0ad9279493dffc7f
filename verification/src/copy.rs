//! Copying a file or a directory tree: a directory is created at the target and
//! each of its items is copied in turn, depth first; a file is copied after its
//! parent directory is created.
use crate::effect::{ask, done_ok, done_with, Effect, EffectView, Outcome, OutcomeView, Reply, ReplyView, Step, StepView};
use crate::error::{DotsyncError, ErrorView};
use crate::path::{components, is_plain_name, joined, lemma_within_child, lemma_within_parent, lemma_within_self, parent_of, plain_name, texts, within, LocalPath, PathView};
use crate::resolve::unexpected;
use vstd::prelude::*;

verus! {

/// One item to copy.
pub struct Job {
    pub from: LocalPath,
    pub to: LocalPath,
}

pub struct JobView {
    pub from: PathView,
    pub to: PathView,
}

impl View for Job {
    type V = JobView;

    open spec fn view(&self) -> JobView {
        JobView { from: self.from@, to: self.to@ }
    }
}

pub open spec fn job_views(v: Seq<Job>) -> Seq<JobView> {
    v.map_values(|j: Job| j@)
}

pub enum CopyPhase {
    /// Waiting to learn whether the source is a directory.
    Checking(Job),
    /// Waiting for the target directory to be created.
    MadeDir(Job),
    /// Waiting for the names of the source directory's items.
    Listing(Job),
    /// Waiting for the target's parent directory to be created.
    MadeParent(Job),
    /// Waiting for a file copy.
    Copying,
    Start,
    Over,
}

pub enum CopyPhaseView {
    Checking(JobView),
    MadeDir(JobView),
    Listing(JobView),
    MadeParent(JobView),
    Copying,
    Start,
    Over,
}

impl View for CopyPhase {
    type V = CopyPhaseView;

    open spec fn view(&self) -> CopyPhaseView {
        match self {
            CopyPhase::Checking(j) => CopyPhaseView::Checking(j@),
            CopyPhase::MadeDir(j) => CopyPhaseView::MadeDir(j@),
            CopyPhase::Listing(j) => CopyPhaseView::Listing(j@),
            CopyPhase::MadeParent(j) => CopyPhaseView::MadeParent(j@),
            CopyPhase::Copying => CopyPhaseView::Copying,
            CopyPhase::Start => CopyPhaseView::Start,
            CopyPhase::Over => CopyPhaseView::Over,
        }
    }
}

/// A run of `copy_recursive`. `pending` holds the items still to copy; the last
/// one is next.
pub struct CopyRun {
    pub pending: Vec<Job>,
    pub phase: CopyPhase,
}

pub struct CopyView {
    pub pending: Seq<JobView>,
    pub phase: CopyPhaseView,
}

impl View for CopyRun {
    type V = CopyView;

    open spec fn view(&self) -> CopyView {
        CopyView { pending: job_views(self.pending@), phase: self.phase@ }
    }
}

pub open spec fn copy_start(from: PathView, to: PathView) -> CopyView {
    CopyView { pending: seq![JobView { from, to }], phase: CopyPhaseView::Start }
}

/// The item `name` of the directory that `j` copies.
pub open spec fn child(j: JobView, name: Seq<char>) -> JobView {
    JobView { from: joined(j.from, components(name)), to: joined(j.to, components(name)) }
}

/// The items of a directory, last name first, so that the first name is copied
/// first.
pub open spec fn children_last_first(j: JobView, names: Seq<Seq<char>>) -> Seq<JobView> {
    Seq::new(names.len(), |i: int| child(j, names[names.len() - 1 - i]))
}

/// Every name is a single file name, as `fs::read_dir` gives them.
pub open spec fn all_plain(ns: Seq<Seq<char>>) -> bool {
    forall|i: int| 0 <= i < ns.len() ==> plain_name(#[trigger] ns[i])
}

/// Moves on to the next pending item, or ends.
pub open spec fn copy_advance(pending: Seq<JobView>) -> (CopyView, StepView) {
    if pending.len() == 0 {
        (CopyView { pending, phase: CopyPhaseView::Over }, done_ok(OutcomeView::Nothing))
    } else {
        (
            CopyView { pending: pending.drop_last(), phase: CopyPhaseView::Checking(pending.last()) },
            ask(EffectView::IsDir(pending.last().from)),
        )
    }
}

pub open spec fn copy_in(s: CopyView, phase: CopyPhaseView) -> CopyView {
    CopyView { phase, ..s }
}

pub open spec fn copy_failed(s: CopyView, m: Seq<char>) -> (CopyView, StepView) {
    (copy_in(s, CopyPhaseView::Over), done_with(ErrorView::Io { reason: m }))
}

/// One step of `copy_recursive`.
pub open spec fn copy_next(s: CopyView, r: ReplyView) -> (CopyView, StepView) {
    let unexpected = (copy_in(s, CopyPhaseView::Over), done_with(ErrorView::UnexpectedReply));
    match s.phase {
        CopyPhaseView::Start => copy_advance(s.pending),
        CopyPhaseView::Checking(j) => match r {
            ReplyView::Flag(true) => (copy_in(s, CopyPhaseView::MadeDir(j)), ask(EffectView::MakeDirs(j.to))),
            ReplyView::Flag(false) => match parent_of(j.to) {
                Some(p) => (copy_in(s, CopyPhaseView::MadeParent(j)), ask(EffectView::MakeDirs(p))),
                None => (
                    copy_in(s, CopyPhaseView::Copying),
                    ask(EffectView::CopyFile { from: j.from, to: j.to }),
                ),
            },
            _ => unexpected,
        },
        CopyPhaseView::MadeDir(j) => match r {
            ReplyView::Done => (copy_in(s, CopyPhaseView::Listing(j)), ask(EffectView::ListDir(j.from))),
            ReplyView::Failed(m) => copy_failed(s, m),
            _ => unexpected,
        },
        CopyPhaseView::Listing(j) => match r {
            ReplyView::Names(ns) => if all_plain(ns) {
                copy_advance(s.pending + children_last_first(j, ns))
            } else {
                unexpected
            },
            ReplyView::Failed(m) => copy_failed(s, m),
            _ => unexpected,
        },
        CopyPhaseView::MadeParent(j) => match r {
            ReplyView::Done => (
                copy_in(s, CopyPhaseView::Copying),
                ask(EffectView::CopyFile { from: j.from, to: j.to }),
            ),
            ReplyView::Failed(m) => copy_failed(s, m),
            _ => unexpected,
        },
        CopyPhaseView::Copying => match r {
            ReplyView::Done => copy_advance(s.pending),
            ReplyView::Failed(m) => copy_failed(s, m),
            _ => unexpected,
        },
        CopyPhaseView::Over => unexpected,
    }
}

/// The item `j` reads inside `src` and writes inside `dst`.
pub open spec fn job_within(j: JobView, src: PathView, dst: PathView) -> bool {
    within(j.from, src) && within(j.to, dst)
}

/// Every item of a copy of `src` to `dst`, pending or under way, reads inside
/// `src` and writes inside `dst`.
pub open spec fn copy_within(s: CopyView, src: PathView, dst: PathView) -> bool {
    &&& forall|i: int| 0 <= i < s.pending.len() ==> job_within(#[trigger] s.pending[i], src, dst)
    &&& match s.phase {
        CopyPhaseView::Checking(j) => job_within(j, src, dst),
        CopyPhaseView::MadeDir(j) => job_within(j, src, dst),
        CopyPhaseView::Listing(j) => job_within(j, src, dst),
        CopyPhaseView::MadeParent(j) => job_within(j, src, dst),
        _ => true,
    }
}

/// What a copy of `src` to `dst` may ask for: to look at or list paths inside
/// `src`, to create directories inside `dst` or the parent of `dst`, and to copy
/// a file from inside `src` to inside `dst`.
pub open spec fn copy_effect_within(e: EffectView, src: PathView, dst: PathView) -> bool {
    match e {
        EffectView::IsDir(p) => within(p, src),
        EffectView::ListDir(p) => within(p, src),
        EffectView::MakeDirs(p) => within(p, dst) || parent_of(dst) == Some(p),
        EffectView::CopyFile { from, to } => within(from, src) && within(to, dst),
        _ => false,
    }
}

/// A copy starts with one item: `src` to `dst`.
pub proof fn lemma_copy_start_within(src: PathView, dst: PathView)
    ensures
        copy_within(copy_start(src, dst), src, dst),
{
    lemma_within_self(src);
    lemma_within_self(dst);
}

/// A copy reads only inside its source and writes only inside its target (or
/// creates the target's parent): every step keeps every item inside, and every
/// effect asked for stays there.
pub proof fn lemma_copy_stays_within(s: CopyView, r: ReplyView, src: PathView, dst: PathView)
    requires
        copy_within(s, src, dst),
    ensures
        copy_within(copy_next(s, r).0, src, dst),
        copy_next(s, r).1 matches StepView::Do(e) ==> copy_effect_within(e, src, dst),
{
    if s.pending.len() > 0 {
        assert(job_within(s.pending[s.pending.len() - 1], src, dst));
        assert(copy_within(copy_advance(s.pending).0, src, dst)) by {
            let d = s.pending.drop_last();
            assert forall|i: int| 0 <= i < d.len() implies job_within(#[trigger] d[i], src, dst) by {
                assert(d[i] == s.pending[i]);
            }
        }
    }
    match s.phase {
        CopyPhaseView::Checking(j) => {
            if j.to.len() > dst.len() {
                lemma_within_parent(j.to, dst);
            } else {
                assert(j.to =~= dst);
            }
        },
        CopyPhaseView::Listing(j) => {
            if let ReplyView::Names(ns) = r {
                if all_plain(ns) {
                    let all = s.pending + children_last_first(j, ns);
                    assert forall|i: int| 0 <= i < all.len() implies job_within(#[trigger] all[i], src, dst) by {
                        if i < s.pending.len() {
                            assert(all[i] == s.pending[i]);
                        } else {
                            let n = ns[ns.len() - 1 - (i - s.pending.len())];
                            assert(plain_name(n));
                            assert(all[i] == child(j, n));
                            lemma_within_child(j.from, src, n);
                            lemma_within_child(j.to, dst, n);
                        }
                    }
                    if all.len() > 0 {
                        assert(job_within(all[all.len() - 1], src, dst));
                        let d = all.drop_last();
                        assert forall|i: int| 0 <= i < d.len() implies job_within(#[trigger] d[i], src, dst) by {
                            assert(d[i] == all[i]);
                        }
                    }
                }
            }
        },
        _ => {},
    }
}

proof fn lemma_job_views_push(a: Seq<Job>, x: Job)
    ensures
        job_views(a.push(x)) == job_views(a).push(x@),
{
    assert(job_views(a.push(x)) =~= job_views(a).push(x@));
}

fn all_plain_names(ns: &Vec<String>) -> (r: bool)
    ensures
        r == all_plain(texts(ns@)),
{
    let mut i: usize = 0;
    while i < ns.len()
        invariant
            0 <= i <= ns.len(),
            forall|j: int| 0 <= j < i ==> plain_name(#[trigger] texts(ns@)[j]),
        decreases ns.len() - i,
    {
        if !is_plain_name(ns[i].as_str()) {
            assert(texts(ns@)[i as int] == ns@[i as int]@);
            return false;
        }
        assert(texts(ns@)[i as int] == ns@[i as int]@);
        i = i + 1;
    }
    true
}

impl Job {
    fn duplicate(&self) -> (j: Job)
        ensures
            j@ == self@,
    {
        Job { from: self.from.duplicate(), to: self.to.duplicate() }
    }
}

impl CopyRun {
    pub fn new(from: LocalPath, to: LocalPath) -> (r: CopyRun)
        ensures
            r@ == copy_start(from@, to@),
    {
        let mut pending: Vec<Job> = Vec::new();
        let j = Job { from, to };
        proof {
            lemma_job_views_push(pending@, j);
        }
        pending.push(j);
        let r = CopyRun { pending, phase: CopyPhase::Start };
        assert(r@.pending =~= copy_start(from@, to@).pending);
        r
    }

    fn advance(&mut self) -> (st: Step)
        ensures
            (final(self)@, st@) == copy_advance(old(self)@.pending),
    {
        match self.pending.pop() {
            None => {
                self.phase = CopyPhase::Over;
                assert(self@.pending =~= old(self)@.pending);
                Step::Finish(Ok(Outcome::Nothing))
            },
            Some(j) => {
                assert(job_views(self.pending@) =~= old(self)@.pending.drop_last());
                let from = j.from.duplicate();
                self.phase = CopyPhase::Checking(j);
                Step::Do(Effect::IsDir(from))
            },
        }
    }

    pub fn resume(&mut self, reply: Reply) -> (st: Step)
        ensures
            (final(self)@, st@) == copy_next(old(self)@, reply@),
    {
        let mut phase = CopyPhase::Over;
        std::mem::swap(&mut phase, &mut self.phase);
        match phase {
            CopyPhase::Start => self.advance(),
            CopyPhase::Checking(j) => match reply {
                Reply::Flag(true) => {
                    let to = j.to.duplicate();
                    self.phase = CopyPhase::MadeDir(j);
                    Step::Do(Effect::MakeDirs(to))
                },
                Reply::Flag(false) => match j.to.parent() {
                    Some(p) => {
                        self.phase = CopyPhase::MadeParent(j);
                        Step::Do(Effect::MakeDirs(p))
                    },
                    None => {
                        self.phase = CopyPhase::Copying;
                        Step::Do(Effect::CopyFile { from: j.from, to: j.to })
                    },
                },
                _ => unexpected(),
            },
            CopyPhase::MadeDir(j) => match reply {
                Reply::Done => {
                    let from = j.from.duplicate();
                    self.phase = CopyPhase::Listing(j);
                    Step::Do(Effect::ListDir(from))
                },
                Reply::Failed(m) => Step::Finish(Err(DotsyncError::Io { reason: m })),
                _ => unexpected(),
            },
            CopyPhase::Listing(j) => match reply {
                Reply::Names(ns) => if !all_plain_names(&ns) {
                    unexpected()
                } else {
                    let ghost before = self@.pending;
                    let mut i: usize = ns.len();
                    while i > 0
                        invariant
                            0 <= i <= ns@.len(),
                            job_views(self.pending@) == before + children_last_first(j@, texts(ns@)).take(
                                ns@.len() - i,
                            ),
                        decreases i,
                    {
                        let part = LocalPath::parse(ns[i - 1].as_str());
                        let c = Job { from: j.from.join(&part), to: j.to.join(&part) };
                        proof {
                            lemma_job_views_push(self.pending@, c);
                        }
                        self.pending.push(c);
                        i = i - 1;
                        assert(job_views(self.pending@) =~= before + children_last_first(j@, texts(ns@)).take(
                            ns@.len() - i,
                        ));
                    }
                    assert(children_last_first(j@, texts(ns@)).take(ns@.len() as int) =~= children_last_first(
                        j@,
                        texts(ns@),
                    ));
                    self.advance()
                },
                Reply::Failed(m) => Step::Finish(Err(DotsyncError::Io { reason: m })),
                _ => unexpected(),
            },
            CopyPhase::MadeParent(j) => match reply {
                Reply::Done => {
                    self.phase = CopyPhase::Copying;
                    Step::Do(Effect::CopyFile { from: j.from, to: j.to })
                },
                Reply::Failed(m) => Step::Finish(Err(DotsyncError::Io { reason: m })),
                _ => unexpected(),
            },
            CopyPhase::Copying => match reply {
                Reply::Done => self.advance(),
                Reply::Failed(m) => Step::Finish(Err(DotsyncError::Io { reason: m })),
                _ => unexpected(),
            },
            CopyPhase::Over => unexpected(),
        }
    }
}

} // verus!
