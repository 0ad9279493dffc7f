//! `add`: registers a new tracked entry in the local config.
use crate::config::{has_name, lemma_add_keeps_names_unique, names_unique, with_entry, Config, ConfigView, Entry, EntryArgs, EntryView};
use crate::effect::{ask, done_with, opt_path, Effect, EffectView, Outcome, OutcomeView, Reply, ReplyView, Step, StepView};
use crate::env::{found_dir, Dirs};
use crate::error::{DotsyncError, ErrorView};
use crate::path::{is_absolute, LocalPath, PathView};
use crate::store::{load_next, load_start, save_next, save_start, LoadRun, LoadView, SaveRun, SaveView};
use vstd::prelude::*;

verus! {

pub enum AddPhase {
    Loading(LoadRun),
    /// Waiting to learn whether the source exists; `config` is the loaded config.
    Probing(Config),
    /// Waiting for the canonical, absolute form of a relative source.
    Absolutizing(Config),
    Saving(SaveRun),
    Over,
}

pub enum AddPhaseView {
    Loading(LoadView),
    Probing(ConfigView),
    Absolutizing(ConfigView),
    Saving(SaveView),
    Over,
}

impl View for AddPhase {
    type V = AddPhaseView;

    open spec fn view(&self) -> AddPhaseView {
        match self {
            AddPhase::Loading(l) => AddPhaseView::Loading(l@),
            AddPhase::Probing(c) => AddPhaseView::Probing(c@),
            AddPhase::Absolutizing(c) => AddPhaseView::Absolutizing(c@),
            AddPhase::Saving(s) => AddPhaseView::Saving(s@),
            AddPhase::Over => AddPhaseView::Over,
        }
    }
}

/// A run of `Config::add_new_entry` for an entry `name` at `source`.
pub struct AddRun {
    pub name: String,
    pub source: LocalPath,
    pub config_dir: Option<LocalPath>,
    pub phase: AddPhase,
}

pub struct AddView {
    pub name: Seq<char>,
    pub source: PathView,
    pub config_dir: Option<PathView>,
    pub phase: AddPhaseView,
}

impl View for AddRun {
    type V = AddView;

    open spec fn view(&self) -> AddView {
        AddView { name: self.name@, source: self.source@, config_dir: opt_path(self.config_dir), phase: self.phase@ }
    }
}

pub open spec fn add_start(name: Seq<char>, source: PathView, config_dir: Option<PathView>) -> AddView {
    AddView { name, source, config_dir, phase: AddPhaseView::Loading(load_start(config_dir)) }
}

pub open spec fn add_in(s: AddView, phase: AddPhaseView) -> AddView {
    AddView { phase, ..s }
}

pub open spec fn add_fail(s: AddView, e: ErrorView) -> (AddView, StepView) {
    (add_in(s, AddPhaseView::Over), done_with(e))
}

/// Appends the entry `name` at `source` to `c` and saves the result; a name that
/// `c` tracks already is refused.
pub open spec fn add_save(s: AddView, c: ConfigView, source: PathView) -> (AddView, StepView) {
    if has_name(c, s.name) {
        add_fail(s, ErrorView::EntryExists { name: s.name })
    } else {
        let sv = save_start(with_entry(c, EntryView { name: s.name, source }), s.config_dir);
        let (sv2, st) = save_next(sv, ReplyView::Done);
        add_saving(s, sv2, st)
    }
}

/// One step of `Config::add_new_entry`: the config must load and the source must
/// exist; a name that is tracked already is refused; otherwise the entry is
/// appended, with a relative source made absolute (canonical) first, and the
/// config saved.
pub open spec fn add_next(s: AddView, r: ReplyView) -> (AddView, StepView) {
    let unexpected = add_fail(s, ErrorView::UnexpectedReply);
    match s.phase {
        AddPhaseView::Loading(l) => {
            let (l2, st) = load_next(l, r);
            match st {
                StepView::Do(e) => (add_in(s, AddPhaseView::Loading(l2)), ask(e)),
                StepView::Finish(Ok(OutcomeView::Loaded(c))) => (
                    add_in(s, AddPhaseView::Probing(c)),
                    ask(EffectView::TryExists(s.source)),
                ),
                StepView::Finish(Ok(_)) => unexpected,
                StepView::Finish(Err(e)) => add_fail(s, e),
            }
        },
        AddPhaseView::Probing(c) => match r {
            ReplyView::Flag(false) => add_fail(s, ErrorView::SourceNotFound { source: s.source }),
            ReplyView::Flag(true) => if has_name(c, s.name) {
                add_fail(s, ErrorView::EntryExists { name: s.name })
            } else if is_absolute(s.source) {
                add_save(s, c, s.source)
            } else {
                (add_in(s, AddPhaseView::Absolutizing(c)), ask(EffectView::Canonicalize(s.source)))
            },
            ReplyView::Failed(m) => add_fail(s, ErrorView::Io { reason: m }),
            _ => unexpected,
        },
        AddPhaseView::Absolutizing(c) => match r {
            ReplyView::Path(p) => if is_absolute(p) {
                add_save(s, c, p)
            } else {
                unexpected
            },
            ReplyView::Failed(m) => add_fail(s, ErrorView::Canonicalize { path: s.source, reason: m }),
            _ => unexpected,
        },
        AddPhaseView::Saving(sv) => {
            let (sv2, st) = save_next(sv, r);
            add_saving(s, sv2, st)
        },
        AddPhaseView::Over => unexpected,
    }
}

pub open spec fn add_saving(s: AddView, sv: SaveView, st: StepView) -> (AddView, StepView) {
    match st {
        StepView::Do(e) => (add_in(s, AddPhaseView::Saving(sv)), ask(e)),
        StepView::Finish(res) => (add_in(s, AddPhaseView::Over), StepView::Finish(res)),
    }
}

/// The config `c` without its last entry.
pub open spec fn without_last(c: ConfigView) -> ConfigView {
    ConfigView { entries: c.entries.drop_last(), ..c }
}

/// A config as add writes it: one entry appended to the loaded config, under a
/// name that config did not track, with an absolute source.
pub open spec fn fresh_addition(w: ConfigView) -> bool {
    &&& w.entries.len() > 0
    &&& !has_name(without_last(w), w.entries.last().name)
    &&& is_absolute(w.entries.last().source)
}

/// What an add run is about to save, once it saves, is a fresh addition.
pub open spec fn add_inv(s: AddView) -> bool {
    s.phase matches AddPhaseView::Saving(sv) ==> fresh_addition(sv.config)
}

proof fn lemma_with_entry_is_fresh(c: ConfigView, e: EntryView)
    requires
        !has_name(c, e.name),
        is_absolute(e.source),
    ensures
        fresh_addition(with_entry(c, e)),
{
    assert(without_last(with_entry(c, e)).entries =~= c.entries);
}

/// The config add saves is the config it loaded with exactly one entry appended:
/// the given name with the given source when that source is absolute, or with the
/// canonical path the file system gave for a relative source. Once saving, every
/// config written is that config.
pub proof fn lemma_add_saves_the_given_entry(s: AddView, r: ReplyView)
    ensures
        s.phase is Probing && add_next(s, r).0.phase is Saving ==> add_next(s, r).0.phase->Saving_0.config
            == with_entry(s.phase->Probing_0, EntryView { name: s.name, source: s.source }) && is_absolute(s.source),
        s.phase is Absolutizing && add_next(s, r).0.phase is Saving ==> r is Path && is_absolute(r->Path_0)
            && add_next(s, r).0.phase->Saving_0.config == with_entry(
            s.phase->Absolutizing_0,
            EntryView { name: s.name, source: r->Path_0 },
        ),
        s.phase is Saving && add_next(s, r).0.phase is Saving ==> add_next(s, r).0.phase->Saving_0.config
            == s.phase->Saving_0.config,
        add_next(s, r).1 matches StepView::Do(EffectView::WriteConfig { config: w, .. }) ==> add_next(
            s,
            r,
        ).0.phase is Saving && w == add_next(s, r).0.phase->Saving_0.config,
{
}

/// An add run starts with nothing to save.
pub proof fn lemma_add_start_inv(name: Seq<char>, source: PathView, config_dir: Option<PathView>)
    ensures
        add_inv(add_start(name, source, config_dir)),
{
}

/// Every config that an add run writes is the config it loaded with one entry
/// appended, under a name the loaded config did not track and with an absolute
/// source: so entry names that were distinct stay distinct, on success and on
/// every failure alike (a failed run writes nothing else).
pub proof fn lemma_add_writes_fresh_entry(s: AddView, r: ReplyView)
    requires
        add_inv(s),
    ensures
        add_inv(add_next(s, r).0),
        add_next(s, r).1 matches StepView::Do(EffectView::WriteConfig { config: w, .. }) ==> fresh_addition(w) && (
        names_unique(without_last(w)) ==> names_unique(w)),
{
    match s.phase {
        AddPhaseView::Probing(c) => {
            if !has_name(c, s.name) && is_absolute(s.source) {
                lemma_with_entry_is_fresh(c, EntryView { name: s.name, source: s.source });
            }
        },
        AddPhaseView::Absolutizing(c) => {
            if let ReplyView::Path(p) = r {
                if !has_name(c, s.name) && is_absolute(p) {
                    lemma_with_entry_is_fresh(c, EntryView { name: s.name, source: p });
                }
            }
        },
        _ => {},
    }
    if let StepView::Do(EffectView::WriteConfig { config: w, .. }) = add_next(s, r).1 {
        if w.entries.len() > 0 {
            let last = w.entries.last();
            assert(with_entry(without_last(w), last).entries =~= w.entries);
            assert(with_entry(without_last(w), last) == w);
            if names_unique(without_last(w)) && fresh_addition(w) {
                lemma_add_keeps_names_unique(without_last(w), last);
            }
        }
    }
}

impl AddRun {
    pub fn new(args: EntryArgs, config_dir: Option<LocalPath>) -> (r: AddRun)
        ensures
            r@ == add_start(args.name@, args.source@, opt_path(config_dir)),
    {
        let cd = match &config_dir {
            Some(p) => Some(p.duplicate()),
            None => None,
        };
        AddRun { name: args.name, source: args.source, config_dir, phase: AddPhase::Loading(LoadRun::new(cd)) }
    }

    fn fail(&mut self, e: DotsyncError) -> (st: Step)
        ensures
            (final(self)@, st@) == add_fail(old(self)@, e@),
    {
        self.phase = AddPhase::Over;
        Step::Finish(Err(e))
    }

    fn saving(&mut self, sv: SaveRun, st: Step) -> (out: Step)
        ensures
            (final(self)@, out@) == add_saving(old(self)@, sv@, st@),
    {
        match st {
            Step::Do(e) => {
                self.phase = AddPhase::Saving(sv);
                Step::Do(e)
            },
            Step::Finish(res) => {
                self.phase = AddPhase::Over;
                Step::Finish(res)
            },
        }
    }

    fn save(&mut self, c: Config, source: LocalPath) -> (st: Step)
        ensures
            (final(self)@, st@) == add_save(old(self)@, c@, source@),
    {
        let mut c = c;
        let entry = Entry::new(self.name.clone(), source);
        match c.add_entry(entry) {
            Err(e) => self.fail(e),
            Ok(()) => {
                let cd = match &self.config_dir {
                    Some(p) => Some(p.duplicate()),
                    None => None,
                };
                let mut sv = SaveRun::new(c, cd);
                let st = sv.resume(Reply::Done);
                self.saving(sv, st)
            },
        }
    }

    pub fn resume(&mut self, reply: Reply) -> (st: Step)
        ensures
            (final(self)@, st@) == add_next(old(self)@, reply@),
    {
        let mut phase = AddPhase::Over;
        std::mem::swap(&mut phase, &mut self.phase);
        match phase {
            AddPhase::Loading(mut l) => {
                let st = l.resume(reply);
                match st {
                    Step::Do(e) => {
                        self.phase = AddPhase::Loading(l);
                        Step::Do(e)
                    },
                    Step::Finish(Ok(Outcome::Loaded(c))) => {
                        let probe = self.source.duplicate();
                        self.phase = AddPhase::Probing(c);
                        Step::Do(Effect::TryExists(probe))
                    },
                    Step::Finish(Ok(_)) => self.fail(DotsyncError::UnexpectedReply),
                    Step::Finish(Err(e)) => self.fail(e),
                }
            },
            AddPhase::Probing(mut c) => match reply {
                Reply::Flag(false) => {
                    let source = self.source.duplicate();
                    self.fail(DotsyncError::SourceNotFound { source })
                },
                Reply::Flag(true) => {
                    if c.has_entry_named(&self.name) {
                        let name = self.name.clone();
                        self.fail(DotsyncError::EntryExists { name })
                    } else if self.source.is_absolute() {
                        let source = self.source.duplicate();
                        self.save(c, source)
                    } else {
                        let probe = self.source.duplicate();
                        self.phase = AddPhase::Absolutizing(c);
                        Step::Do(Effect::Canonicalize(probe))
                    }
                },
                Reply::Failed(m) => self.fail(DotsyncError::Io { reason: m }),
                _ => self.fail(DotsyncError::UnexpectedReply),
            },
            AddPhase::Absolutizing(c) => match reply {
                Reply::Path(p) => {
                    if p.is_absolute() {
                        self.save(c, p)
                    } else {
                        self.fail(DotsyncError::UnexpectedReply)
                    }
                },
                Reply::Failed(m) => {
                    let path = self.source.duplicate();
                    self.fail(DotsyncError::Canonicalize { path, reason: m })
                },
                _ => self.fail(DotsyncError::UnexpectedReply),
            },
            AddPhase::Saving(mut sv) => {
                let st = sv.resume(reply);
                self.saving(sv, st)
            },
            AddPhase::Over => self.fail(DotsyncError::UnexpectedReply),
        }
    }
}

impl Config {
    /// `add`: registers `args.name` for the file or directory at `args.source`.
    /// The user's config directory is looked up at the start.
    pub fn add_new_entry(args: EntryArgs) -> (r: AddRun)
        ensures
            exists|cd: Option<PathView>| found_dir(cd) && r@ == add_start(args.name@, args.source@, cd),
    {
        let dirs = Dirs::lookup();
        AddRun::new(args, dirs.config)
    }
}

} // verus!
