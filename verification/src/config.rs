//! The tracked entries, the local config that lists them, and the manifest that
//! the repository carries: the same record with sources written relative to `~`.
use crate::error::DotsyncError;
use crate::path::{
    components, has_prefix, is_absolute, joined, stripped, well_formed, LocalPath, PathView,
};
use vstd::prelude::*;
use vstd::string::*;

verus! {

/// The abstract value of an entry.
pub struct EntryView {
    pub name: Seq<char>,
    pub source: PathView,
}

/// A tracked file or directory: its name inside the repository and where it
/// lives on this machine.
#[derive(Debug)]
pub struct Entry {
    name: String,
    source: LocalPath,
}

impl View for Entry {
    type V = EntryView;

    closed spec fn view(&self) -> EntryView {
        EntryView { name: self.name@, source: self.source@ }
    }
}

/// The abstract value of a config.
pub struct ConfigView {
    pub repo_dir: PathView,
    pub remote: Seq<char>,
    pub entries: Seq<EntryView>,
}

/// The dotsync config: where the repository lives, its git remote, and the
/// tracked entries.
#[derive(Debug)]
pub struct Config {
    repo_dir: LocalPath,
    remote: String,
    entries: Vec<Entry>,
}

pub open spec fn entry_views(v: Seq<Entry>) -> Seq<EntryView> {
    v.map_values(|e: Entry| e@)
}

impl View for Config {
    type V = ConfigView;

    closed spec fn view(&self) -> ConfigView {
        ConfigView { repo_dir: self.repo_dir@, remote: self.remote@, entries: entry_views(self.entries@) }
    }
}

/// The arguments of `init`.
#[derive(Debug)]
pub struct InitArgs {
    pub repo_dir: LocalPath,
    pub remote: Option<String>,
}

/// The arguments of `add`.
#[derive(Debug)]
pub struct EntryArgs {
    pub name: String,
    pub source: LocalPath,
}

/// The arguments of `clone`.
#[derive(Debug)]
pub struct CloneArgs {
    pub remote: String,
    pub repo_dir: Option<LocalPath>,
}

/// The single component "~" that stands for the home directory in a manifest.
pub open spec fn tilde() -> PathView {
    seq![seq!['~']]
}

/// A source as the manifest writes it: under `home` it becomes `~/...`.
pub open spec fn relative_to_home(source: PathView, home: PathView) -> PathView {
    match stripped(source, home) {
        Some(rest) => joined(tilde(), rest),
        None => source,
    }
}

/// A source as restore reads it from a manifest: `~/...` lands under `home`.
pub open spec fn expand_home(source: PathView, home: PathView) -> PathView {
    match stripped(source, tilde()) {
        Some(rest) => joined(home, rest),
        None => source,
    }
}

pub open spec fn manifest_entry(e: EntryView, home: PathView) -> EntryView {
    EntryView { name: e.name, source: relative_to_home(e.source, home) }
}

pub open spec fn restored_entry(e: EntryView, home: PathView) -> EntryView {
    EntryView { name: e.name, source: expand_home(e.source, home) }
}

/// The manifest written for `c`: the same record with `~`-relative sources.
pub open spec fn manifest_of(c: ConfigView, home: PathView) -> ConfigView {
    ConfigView {
        repo_dir: c.repo_dir,
        remote: c.remote,
        entries: c.entries.map_values(|e: EntryView| manifest_entry(e, home)),
    }
}

/// The config that restore builds from manifest `m`: sources under `home`,
/// and the repository where it was found.
pub open spec fn restored_of(m: ConfigView, home: PathView, repo_dir: PathView) -> ConfigView {
    ConfigView {
        repo_dir,
        remote: m.remote,
        entries: m.entries.map_values(|e: EntryView| restored_entry(e, home)),
    }
}

pub open spec fn has_name(c: ConfigView, name: Seq<char>) -> bool {
    exists|i: int| 0 <= i < c.entries.len() && #[trigger] c.entries[i].name == name
}

pub open spec fn names_unique(c: ConfigView) -> bool {
    forall|i: int, j: int|
        0 <= i < c.entries.len() && 0 <= j < c.entries.len() && i != j ==> #[trigger] c.entries[i].name
            != #[trigger] c.entries[j].name
}

/// Every path of the config is well formed.
pub open spec fn config_well_formed(c: ConfigView) -> bool {
    &&& well_formed(c.repo_dir)
    &&& forall|i: int| 0 <= i < c.entries.len() ==> well_formed(#[trigger] c.entries[i].source)
}

/// The config after `add` of a fresh entry.
pub open spec fn with_entry(c: ConfigView, e: EntryView) -> ConfigView {
    ConfigView { entries: c.entries.push(e), ..c }
}

/// Where the local config file lives, given the user's config directory.
pub open spec fn config_file_in(config_dir: PathView) -> PathView {
    joined(joined(config_dir, components("dotsync"@)), components("config.toml"@))
}

/// The default repository directory inside the user's config directory.
pub open spec fn default_repo_in(config_dir: PathView) -> PathView {
    joined(config_dir, components("dotsync"@))
}

/// Where a repository keeps its manifest.
pub open spec fn manifest_file_in(repo_dir: PathView) -> PathView {
    joined(repo_dir, components("dotsync.toml"@))
}

/// A manifest source read back on the machine that wrote it is the source
/// it was written from: `~` stands for the home it replaced. The source must not
/// be a relative path that itself starts with a component "~", and the home must
/// not be the empty path (`dirs::home_dir` gives an absolute one). Every
/// `LocalPath` is well formed (its type invariant).
pub proof fn lemma_home_round_trip(source: PathView, home: PathView)
    requires
        well_formed(source),
        home.len() > 0,
        has_prefix(source, home) || !has_prefix(source, tilde()),
    ensures
        expand_home(relative_to_home(source, home), home) == source,
{
    if has_prefix(source, home) {
        let rest = source.skip(home.len() as int);
        if rest.len() > 0 {
            assert(rest[0] == source[home.len() as int]);
        }
        let rel = joined(tilde(), rest);
        assert(rel =~= tilde() + rest);
        assert(rel.take(1) =~= tilde());
        assert(rel.skip(1) =~= rest);
        assert(home + rest =~= source);
    }
}

/// A manifest source read on a machine with another home lands under that home,
/// at the same place relative to it.
pub proof fn lemma_home_moves(source: PathView, home: PathView, other_home: PathView)
    requires
        well_formed(source),
        home.len() > 0,
        has_prefix(source, home),
    ensures
        expand_home(relative_to_home(source, home), other_home) == other_home + source.skip(
            home.len() as int,
        ),
{
    let rest = source.skip(home.len() as int);
    if rest.len() > 0 {
        assert(rest[0] == source[home.len() as int]);
    }
    let rel = joined(tilde(), rest);
    assert(rel =~= tilde() + rest);
    assert(rel.take(1) =~= tilde());
    assert(rel.skip(1) =~= rest);
}

/// Restoring the manifest written for a config, on the same machine, gives back
/// the config's entries and remote, with the repository where it was found.
/// Every `Config` value is well formed (`Config::manifest_for` states it), so the
/// law holds of every manifest written, for any non-empty home, except for a
/// relative source that starts with a component "~" outside the home.
pub proof fn lemma_manifest_round_trip(c: ConfigView, home: PathView, repo_dir: PathView)
    requires
        config_well_formed(c),
        home.len() > 0,
        forall|i: int|
            0 <= i < c.entries.len() ==> has_prefix(#[trigger] c.entries[i].source, home)
                || !has_prefix(c.entries[i].source, tilde()),
    ensures
        restored_of(manifest_of(c, home), home, repo_dir) == (ConfigView { repo_dir, ..c }),
{
    let r = restored_of(manifest_of(c, home), home, repo_dir);
    assert forall|i: int| 0 <= i < c.entries.len() implies r.entries[i] == c.entries[i] by {
        lemma_home_round_trip(c.entries[i].source, home);
    }
    assert(r.entries =~= c.entries);
}

/// Adding an entry under a fresh name keeps the names distinct.
pub proof fn lemma_add_keeps_names_unique(c: ConfigView, e: EntryView)
    requires
        names_unique(c),
        !has_name(c, e.name),
    ensures
        names_unique(with_entry(c, e)),
{
    let n = with_entry(c, e);
    assert forall|i: int, j: int|
        0 <= i < n.entries.len() && 0 <= j < n.entries.len() && i != j implies #[trigger] n.entries[i].name
        != #[trigger] n.entries[j].name by {
        if i == c.entries.len() {
            assert(n.entries[j] == c.entries[j]);
        } else if j == c.entries.len() {
            assert(n.entries[i] == c.entries[i]);
        } else {
            assert(n.entries[i] == c.entries[i]);
            assert(n.entries[j] == c.entries[j]);
        }
    }
}

proof fn lemma_entry_views_push(a: Seq<Entry>, x: Entry)
    ensures
        entry_views(a.push(x)) == entry_views(a).push(x@),
{
    assert(entry_views(a.push(x)) =~= entry_views(a).push(x@));
}

impl Entry {
    /// An entry named `name` whose live copy is at `source`.
    pub fn new(name: String, source: LocalPath) -> (e: Entry)
        ensures
            e@ == (EntryView { name: name@, source: source@ }),
    {
        Entry { name, source }
    }

    pub fn name(&self) -> (r: String)
        ensures
            r@ == self@.name,
    {
        self.name.clone()
    }

    pub fn source(&self) -> (r: LocalPath)
        ensures
            r@ == self@.source,
    {
        self.source.duplicate()
    }

    pub fn duplicate(&self) -> (e: Entry)
        ensures
            e@ == self@,
    {
        Entry { name: self.name.clone(), source: self.source.duplicate() }
    }

    /// The entry written into a manifest: its source relative to `~` when it lies
    /// under `home`.
    pub fn for_manifest(&self, home: &LocalPath) -> (e: Entry)
        ensures
            e@ == manifest_entry(self@, home@),
    {
        let source = match self.source.strip_prefix(home) {
            Some(rest) => LocalPath::parse("~").join(&rest),
            None => self.source.duplicate(),
        };
        proof {
            reveal_strlit("~");
            assert("~"@ =~= seq!['~']);
            assert(seq!['~'] != crate::path::cur_part()) by {
                assert(seq!['~'][0] != crate::path::cur_part()[0]);
            }
            crate::path::lemma_plain_name("~"@);
        }
        Entry { name: self.name.clone(), source }
    }

    /// The entry as restore reads it from a manifest: `~/...` under `home`.
    pub fn from_manifest(&self, home: &LocalPath) -> (e: Entry)
        ensures
            e@ == restored_entry(self@, home@),
    {
        proof {
            reveal_strlit("~");
            assert("~"@ =~= seq!['~']);
            assert(seq!['~'] != crate::path::cur_part()) by {
                assert(seq!['~'][0] != crate::path::cur_part()[0]);
            }
            crate::path::lemma_plain_name("~"@);
        }
        let source = match self.source.strip_prefix(&LocalPath::parse("~")) {
            Some(rest) => home.join(&rest),
            None => self.source.duplicate(),
        };
        Entry { name: self.name.clone(), source }
    }
}

fn copy_entries(v: &Vec<Entry>) -> (r: Vec<Entry>)
    ensures
        entry_views(r@) == entry_views(v@),
{
    let mut r: Vec<Entry> = Vec::new();
    let mut i: usize = 0;
    while i < v.len()
        invariant
            0 <= i <= v.len(),
            entry_views(r@) == entry_views(v@).take(i as int),
        decreases v.len() - i,
    {
        let e = v[i].duplicate();
        proof {
            lemma_entry_views_push(r@, e);
        }
        r.push(e);
        i = i + 1;
        assert(entry_views(r@) =~= entry_views(v@).take(i as int));
    }
    assert(entry_views(v@).take(v.len() as int) =~= entry_views(v@));
    r
}

impl Config {
    pub fn new(repo_dir: LocalPath, remote: String, entries: Vec<Entry>) -> (c: Config)
        ensures
            c@ == (ConfigView { repo_dir: repo_dir@, remote: remote@, entries: entry_views(entries@) }),
    {
        Config { repo_dir, remote, entries }
    }

    pub fn repo_dir(&self) -> (r: LocalPath)
        ensures
            r@ == self@.repo_dir,
    {
        self.repo_dir.duplicate()
    }

    pub fn remote(&self) -> (r: String)
        ensures
            r@ == self@.remote,
    {
        self.remote.clone()
    }

    pub fn entries(&self) -> (r: Vec<Entry>)
        ensures
            entry_views(r@) == self@.entries,
    {
        copy_entries(&self.entries)
    }

    pub fn entry_count(&self) -> (r: usize)
        ensures
            r == self@.entries.len(),
    {
        self.entries.len()
    }

    /// The entry at `i`.
    pub fn entry(&self, i: usize) -> (e: Entry)
        requires
            i < self@.entries.len(),
        ensures
            e@ == self@.entries[i as int],
    {
        self.entries[i].duplicate()
    }

    pub fn duplicate(&self) -> (c: Config)
        ensures
            c@ == self@,
    {
        Config {
            repo_dir: self.repo_dir.duplicate(),
            remote: self.remote.clone(),
            entries: copy_entries(&self.entries),
        }
    }

    /// Whether an entry is named `name`.
    pub fn has_entry_named(&self, name: &String) -> (r: bool)
        ensures
            r == has_name(self@, name@),
    {
        let mut i: usize = 0;
        while i < self.entries.len()
            invariant
                0 <= i <= self.entries.len(),
                forall|k: int| 0 <= k < i ==> self@.entries[k].name != name@,
            decreases self.entries.len() - i,
        {
            if self.entries[i].name == *name {
                assert(self@.entries[i as int].name == name@);
                return true;
            }
            i = i + 1;
        }
        false
    }

    /// Appends `entry` unless an entry with its name is tracked already, in which
    /// case the config stays as it was.
    pub fn add_entry(&mut self, entry: Entry) -> (r: Result<(), DotsyncError>)
        ensures
            match r {
                Ok(()) => !has_name(old(self)@, entry@.name) && final(self)@ == with_entry(
                    old(self)@,
                    entry@,
                ),
                Err(e) => has_name(old(self)@, entry@.name) && final(self)@ == old(self)@ && e@
                    == (crate::error::ErrorView::EntryExists { name: entry@.name }),
            },
    {
        if self.has_entry_named(&entry.name) {
            return Err(DotsyncError::EntryExists { name: entry.name });
        }
        proof {
            lemma_entry_views_push(self.entries@, entry);
        }
        self.entries.push(entry);
        Ok(())
    }

    /// The manifest for this config: the same record with every source under
    /// `home` written relative to `~`.
    pub fn manifest_for(&self, home: &LocalPath) -> (m: Config)
        ensures
            m@ == manifest_of(self@, home@),
            config_well_formed(self@),
    {
        proof {
            use_type_invariant(&self.repo_dir);
        }
        let mut entries: Vec<Entry> = Vec::new();
        let mut i: usize = 0;
        while i < self.entries.len()
            invariant
                0 <= i <= self.entries.len(),
                entry_views(entries@) == self@.entries.take(i as int).map_values(
                    |e: EntryView| manifest_entry(e, home@),
                ),
                forall|k: int| 0 <= k < i ==> well_formed(#[trigger] self@.entries[k].source),
            decreases self.entries.len() - i,
        {
            let cur = &self.entries[i];
            proof {
                use_type_invariant(&cur.source);
            }
            let e = cur.for_manifest(home);
            proof {
                lemma_entry_views_push(entries@, e);
            }
            entries.push(e);
            i = i + 1;
            assert(entry_views(entries@) =~= self@.entries.take(i as int).map_values(
                |e: EntryView| manifest_entry(e, home@),
            ));
        }
        assert(self@.entries.take(self.entries.len() as int) =~= self@.entries);
        let m = Config { repo_dir: self.repo_dir.duplicate(), remote: self.remote.clone(), entries };
        assert(m@.entries =~= manifest_of(self@, home@).entries);
        m
    }

    /// The config restore builds from this manifest: sources under `home`, and
    /// `repo_dir` as the repository.
    pub fn restored_for(&self, home: &LocalPath, repo_dir: &LocalPath) -> (c: Config)
        ensures
            c@ == restored_of(self@, home@, repo_dir@),
    {
        let mut entries: Vec<Entry> = Vec::new();
        let mut i: usize = 0;
        while i < self.entries.len()
            invariant
                0 <= i <= self.entries.len(),
                entry_views(entries@) == self@.entries.take(i as int).map_values(
                    |e: EntryView| restored_entry(e, home@),
                ),
            decreases self.entries.len() - i,
        {
            let e = self.entries[i].from_manifest(home);
            proof {
                lemma_entry_views_push(entries@, e);
            }
            entries.push(e);
            i = i + 1;
            assert(entry_views(entries@) =~= self@.entries.take(i as int).map_values(
                |e: EntryView| restored_entry(e, home@),
            ));
        }
        assert(self@.entries.take(self.entries.len() as int) =~= self@.entries);
        let c = Config { repo_dir: repo_dir.duplicate(), remote: self.remote.clone(), entries };
        assert(c@.entries =~= restored_of(self@, home@, repo_dir@).entries);
        c
    }

    /// This config with another repository directory and remote.
    pub fn relocated(&self, repo_dir: LocalPath, remote: String) -> (c: Config)
        ensures
            c@ == (ConfigView { repo_dir: repo_dir@, remote: remote@, ..self@ }),
    {
        Config { repo_dir, remote, entries: copy_entries(&self.entries) }
    }

    /// The local config file inside the user's config directory.
    pub fn path_in(config_dir: &LocalPath) -> (p: LocalPath)
        ensures
            p@ == config_file_in(config_dir@),
    {
        config_dir.join(&LocalPath::parse("dotsync")).join(&LocalPath::parse("config.toml"))
    }

    /// The default repository directory inside the user's config directory.
    pub fn default_repo_dir_in(config_dir: &LocalPath) -> (p: LocalPath)
        ensures
            p@ == default_repo_in(config_dir@),
    {
        config_dir.join(&LocalPath::parse("dotsync"))
    }

    /// Where the repository at `repo_dir` keeps its manifest.
    pub fn manifest_path(repo_dir: &LocalPath) -> (p: LocalPath)
        ensures
            p@ == manifest_file_in(repo_dir@),
    {
        repo_dir.join(&LocalPath::parse("dotsync.toml"))
    }

    /// `add_all_entries` has nothing to do yet.
    pub fn add_all_entries() -> (r: Result<(), DotsyncError>)
        ensures
            r is Ok,
    {
        Ok(())
    }
}

impl InitArgs {
    /// Neither a repository directory nor a remote was given.
    pub fn is_empty(&self) -> (r: bool)
        ensures
            r == (self.repo_dir@.len() == 0 && self.remote is None),
    {
        self.repo_dir.is_empty() && self.remote.is_none()
    }
}

} // verus!
