//! Paths as sequences of components, the way `std::path` sees them on Unix:
//! an absolute path starts with the root component "/", a relative path may
//! start with the current-directory component ".", and every other component
//! is a non-empty name without '/' other than ".".
use vstd::prelude::*;
use vstd::string::*;

verus! {

/// The components of a path.
pub type PathView = Seq<Seq<char>>;

pub open spec fn root_part() -> Seq<char> {
    seq!['/']
}

pub open spec fn cur_part() -> Seq<char> {
    seq!['.']
}

/// The component "..", which leads to the parent directory.
pub open spec fn parent_part() -> Seq<char> {
    seq!['.', '.']
}

/// The pieces of `t` between its '/' characters, empty pieces included.
pub open spec fn segments(t: Seq<char>) -> Seq<Seq<char>>
    decreases t.len(),
{
    if t.len() == 0 {
        seq![Seq::<char>::empty()]
    } else {
        let s = segments(t.drop_last());
        if t.last() == '/' {
            s.push(Seq::<char>::empty())
        } else {
            s.update(s.len() - 1, s.last().push(t.last()))
        }
    }
}

/// A piece between separators that becomes a component of its own.
pub open spec fn keep(s: Seq<char>) -> bool {
    s.len() > 0 && s != cur_part()
}

/// The pieces that `keep` accepts, in order.
pub open spec fn kept(segs: Seq<Seq<char>>) -> Seq<Seq<char>>
    decreases segs.len(),
{
    if segs.len() == 0 {
        Seq::<Seq<char>>::empty()
    } else {
        let rest = kept(segs.drop_last());
        if keep(segs.last()) {
            rest.push(segs.last())
        } else {
            rest
        }
    }
}

/// The root component of an absolute path, or the "." that starts a path
/// written as "." or "./...".
pub open spec fn lead(t: Seq<char>) -> PathView {
    if t.len() > 0 && t[0] == '/' {
        seq![root_part()]
    } else if t.len() > 0 && t[0] == '.' && (t.len() == 1 || t[1] == '/') {
        seq![cur_part()]
    } else {
        Seq::<Seq<char>>::empty()
    }
}

/// The components of the path written as `t`.
pub open spec fn components(t: Seq<char>) -> PathView {
    lead(t) + kept(segments(t))
}

pub open spec fn is_absolute(p: PathView) -> bool {
    p.len() > 0 && p[0] == root_part()
}

/// Root and "." appear at most as the first component.
pub open spec fn well_formed(p: PathView) -> bool {
    forall|i: int| 0 < i < p.len() ==> #[trigger] p[i] != root_part() && p[i] != cur_part()
}

/// `base` followed by `tail`; an absolute `tail` replaces `base`.
pub open spec fn joined(base: PathView, tail: PathView) -> PathView {
    if is_absolute(tail) {
        tail
    } else if base.len() > 0 && tail.len() > 0 && tail[0] == cur_part() {
        base + tail.drop_first()
    } else {
        base + tail
    }
}

/// `base` matches the first components of `p`.
pub open spec fn has_prefix(p: PathView, base: PathView) -> bool {
    base.len() <= p.len() && p.take(base.len() as int) == base
}

/// No component of `p` is "..".
pub open spec fn no_parent(p: PathView) -> bool {
    forall|k: int| 0 <= k < p.len() ==> #[trigger] p[k] != parent_part()
}

/// `p` lies inside `base`: the components of `base` come first, and none of the
/// components after them is "..", so `p` cannot lead back out of `base`.
pub open spec fn within(p: PathView, base: PathView) -> bool {
    has_prefix(p, base) && no_parent(p.skip(base.len() as int))
}

/// A single file name: not empty, without '/', and neither "." nor "..".
pub open spec fn plain_name(n: Seq<char>) -> bool {
    &&& n.len() > 0
    &&& n != cur_part()
    &&& n != parent_part()
    &&& forall|j: int| 0 <= j < n.len() ==> n[j] != '/'
}

/// What is left of `p` after the components of `base`.
pub open spec fn stripped(p: PathView, base: PathView) -> Option<PathView> {
    if has_prefix(p, base) {
        Some(p.skip(base.len() as int))
    } else {
        None
    }
}

/// `p` without its last component, unless `p` is empty or the root alone.
pub open spec fn parent_of(p: PathView) -> Option<PathView> {
    if p.len() > 0 && p.last() != root_part() {
        Some(p.drop_last())
    } else {
        None
    }
}

pub open spec fn texts(v: Seq<String>) -> Seq<Seq<char>> {
    v.map_values(|s: String| s@)
}

/// A path held as its components. Every value is well formed: the root and "."
/// stand only in front.
#[derive(Debug)]
pub struct LocalPath {
    parts: Vec<String>,
}

impl LocalPath {
    #[verifier::type_invariant]
    pub open spec fn path_inv(self) -> bool {
        well_formed(self@)
    }
}

impl View for LocalPath {
    type V = PathView;

    closed spec fn view(&self) -> PathView {
        texts(self.parts@)
    }
}

proof fn lemma_segments_nonempty(t: Seq<char>)
    ensures
        segments(t).len() >= 1,
    decreases t.len(),
{
    if t.len() > 0 {
        lemma_segments_nonempty(t.drop_last());
    }
}

proof fn lemma_segments_have_no_separator(t: Seq<char>)
    ensures
        forall|i: int, j: int|
            0 <= i < segments(t).len() && 0 <= j < segments(t)[i].len() ==> segments(t)[i][j]
                != '/',
    decreases t.len(),
{
    if t.len() > 0 {
        lemma_segments_have_no_separator(t.drop_last());
        lemma_segments_nonempty(t.drop_last());
        let s = segments(t.drop_last());
        if t.last() != '/' {
            assert forall|i: int, j: int|
                0 <= i < segments(t).len() && 0 <= j < segments(t)[i].len() implies segments(
                t,
            )[i][j] != '/' by {
                if i == s.len() - 1 {
                    if j < s.last().len() {
                        assert(segments(t)[i][j] == s[i][j]);
                    }
                } else {
                    assert(segments(t)[i] == s[i]);
                }
            }
        } else {
            assert forall|i: int, j: int|
                0 <= i < segments(t).len() && 0 <= j < segments(t)[i].len() implies segments(
                t,
            )[i][j] != '/' by {
                if i < s.len() {
                    assert(segments(t)[i] == s[i]);
                }
            }
        }
    }
}

proof fn lemma_kept_from(segs: Seq<Seq<char>>)
    ensures
        forall|i: int| 0 <= i < kept(segs).len() ==> keep(#[trigger] kept(segs)[i]),
        forall|i: int|
            0 <= i < kept(segs).len() ==> exists|k: int| 0 <= k < segs.len() && segs[k] == #[trigger] kept(segs)[i],
    decreases segs.len(),
{
    if segs.len() > 0 {
        lemma_kept_from(segs.drop_last());
        let rest = kept(segs.drop_last());
        assert forall|i: int|
            0 <= i < kept(segs).len() implies exists|k: int| 0 <= k < segs.len() && segs[k] == #[trigger] kept(segs)[i] by {
            if i < rest.len() {
                let k = choose|k: int| 0 <= k < segs.drop_last().len() && segs.drop_last()[k] == rest[i];
                assert(segs[k] == kept(segs)[i]);
            } else {
                assert(segs[segs.len() - 1] == kept(segs)[i]);
            }
        }
    }
}

proof fn lemma_segments_without_separator(t: Seq<char>)
    requires
        forall|j: int| 0 <= j < t.len() ==> t[j] != '/',
    ensures
        segments(t) == seq![t],
    decreases t.len(),
{
    if t.len() > 0 {
        lemma_segments_without_separator(t.drop_last());
        assert(t.drop_last().push(t.last()) =~= t);
        assert(segments(t) =~= seq![t]);
    } else {
        assert(t =~= Seq::<char>::empty());
    }
}

/// A name without '/' that is not "." is a path of one component.
pub proof fn lemma_plain_name(t: Seq<char>)
    requires
        t.len() > 0,
        t != cur_part(),
        forall|j: int| 0 <= j < t.len() ==> t[j] != '/',
    ensures
        components(t) == seq![t],
{
    lemma_segments_without_separator(t);
    assert(seq![t].drop_last() =~= Seq::<Seq<char>>::empty());
    assert(kept(seq![t].drop_last()) =~= Seq::<Seq<char>>::empty());
    assert(keep(seq![t].last()));
    assert(kept(seq![t]) =~= seq![t]);
    if t[0] == '.' && t.len() == 1 {
        assert(t =~= cur_part());
    }
    assert(lead(t) =~= Seq::<Seq<char>>::empty());
    assert(components(t) =~= seq![t]);
}

/// Every path written as text has its root and "." only in front.
pub proof fn lemma_components_well_formed(t: Seq<char>)
    ensures
        well_formed(components(t)),
{
    lemma_segments_have_no_separator(t);
    lemma_kept_from(segments(t));
    let p = components(t);
    let l = lead(t);
    let k = kept(segments(t));
    assert forall|i: int| 0 < i < p.len() implies #[trigger] p[i] != root_part() && p[i]
        != cur_part() by {
        let j = i - l.len();
        assert(p[i] == k[j]);
        assert(keep(k[j]));
        let m = choose|m: int| 0 <= m < segments(t).len() && segments(t)[m] == k[j];
        if k[j] == root_part() {
            assert(segments(t)[m][0] == '/');
        }
    }
}

/// Joining keeps paths well formed.
pub proof fn lemma_joined_well_formed(base: PathView, tail: PathView)
    requires
        well_formed(base),
        well_formed(tail),
    ensures
        well_formed(joined(base, tail)),
{
    let r = joined(base, tail);
    if !is_absolute(tail) {
        if base.len() > 0 && tail.len() > 0 && tail[0] == cur_part() {
            assert forall|i: int| 0 < i < r.len() implies #[trigger] r[i] != root_part() && r[i]
                != cur_part() by {
                if i >= base.len() {
                    assert(r[i] == tail[i - base.len() + 1]);
                }
            }
        } else {
            assert forall|i: int| 0 < i < r.len() implies #[trigger] r[i] != root_part() && r[i]
                != cur_part() by {
                if i >= base.len() {
                    assert(r[i] == tail[i - base.len()]);
                    if i == base.len() {
                        assert(tail[0] != root_part());
                    }
                }
            }
        }
    }
}

/// A path inside `base` with a plain name added stays inside `base`.
pub proof fn lemma_within_child(p: PathView, base: PathView, n: Seq<char>)
    requires
        within(p, base),
        plain_name(n),
    ensures
        components(n) == seq![n],
        joined(p, components(n)) == p.push(n),
        within(p.push(n), base),
{
    lemma_plain_name(n);
    assert(n[0] != '/');
    assert(seq![n][0] != root_part());
    assert(p + seq![n] =~= p.push(n));
    let q = p.push(n);
    assert(q.take(base.len() as int) =~= p.take(base.len() as int));
    assert forall|k: int| 0 <= k < q.skip(base.len() as int).len() implies #[trigger] q.skip(
        base.len() as int,
    )[k] != parent_part() by {
        if k + base.len() < p.len() {
            assert(q.skip(base.len() as int)[k] == p.skip(base.len() as int)[k]);
        }
    }
}

/// Inside a path that lies inside `b` is inside `b`.
pub proof fn lemma_within_trans(p: PathView, a: PathView, b: PathView)
    requires
        within(p, a),
        within(a, b),
    ensures
        within(p, b),
{
    assert(p.take(b.len() as int) =~= a.take(b.len() as int));
    assert forall|k: int| 0 <= k < p.skip(b.len() as int).len() implies #[trigger] p.skip(
        b.len() as int,
    )[k] != parent_part() by {
        if b.len() + k < a.len() {
            assert(p[b.len() + k] == a[b.len() + k]);
            assert(a.skip(b.len() as int)[k] == a[b.len() + k]);
        } else {
            assert(p.skip(a.len() as int)[b.len() + k - a.len()] == p[b.len() + k]);
        }
    }
}

/// A path lies inside itself.
pub proof fn lemma_within_self(p: PathView)
    ensures
        within(p, p),
{
    assert(p.take(p.len() as int) =~= p);
}

/// The parent of a path strictly inside `base` is inside `base` too.
pub proof fn lemma_within_parent(p: PathView, base: PathView)
    requires
        within(p, base),
        p.len() > base.len(),
    ensures
        within(p.drop_last(), base),
{
    let q = p.drop_last();
    assert(q.take(base.len() as int) =~= p.take(base.len() as int));
    assert forall|k: int| 0 <= k < q.skip(base.len() as int).len() implies #[trigger] q.skip(
        base.len() as int,
    )[k] != parent_part() by {
        assert(q.skip(base.len() as int)[k] == p.skip(base.len() as int)[k]);
    }
}

/// A joined relative tail keeps the base in front: joining never leaves the base
/// unless the tail is absolute.
pub proof fn lemma_join_stays_under(base: PathView, tail: PathView)
    ensures
        has_prefix(joined(base, tail), base) <==> (!is_absolute(tail) || has_prefix(tail, base)),
{
    let r = joined(base, tail);
    if !is_absolute(tail) {
        assert(r.take(base.len() as int) =~= base);
    }
}

/// Stripping a prefix and joining it back gives the path again.
pub proof fn lemma_strip_then_join(p: PathView, base: PathView)
    requires
        well_formed(p),
        has_prefix(p, base),
        base.len() > 0,
    ensures
        joined(base, stripped(p, base)->0) == p,
{
    let rest = p.skip(base.len() as int);
    if rest.len() > 0 {
        assert(rest[0] == p[base.len() as int]);
    }
    assert(base + rest =~= p);
}

proof fn lemma_texts_push(a: Seq<String>, x: String)
    ensures
        texts(a.push(x)) == texts(a).push(x@),
{
    assert(texts(a.push(x)) =~= texts(a).push(x@));
}

fn root_text() -> (r: String)
    ensures
        r@ == root_part(),
{
    proof {
        reveal_strlit("/");
    }
    let r = String::from_str("/");
    assert(r@ == seq!['/']);
    r
}

fn parent_text() -> (r: String)
    ensures
        r@ == parent_part(),
{
    proof {
        reveal_strlit("..");
    }
    let r = String::from_str("..");
    assert(r@ == seq!['.', '.']);
    r
}

/// Whether `name` is a single file name (see `plain_name`).
pub fn is_plain_name(name: &str) -> (r: bool)
    ensures
        r == plain_name(name@),
{
    let n = name.unicode_len();
    if n == 0 {
        return false;
    }
    if n == 1 && name.get_char(0) == '.' {
        assert(name@ =~= cur_part());
        return false;
    }
    if n == 2 && name.get_char(0) == '.' && name.get_char(1) == '.' {
        assert(name@ =~= parent_part());
        return false;
    }
    let mut i: usize = 0;
    while i < n
        invariant
            n == name@.len(),
            0 <= i <= n,
            forall|j: int| 0 <= j < i ==> name@[j] != '/',
        decreases n - i,
    {
        if name.get_char(i) == '/' {
            return false;
        }
        i = i + 1;
    }
    assert(name@ != cur_part()) by {
        if name@ == cur_part() {
            assert(name@.len() == 1 && name@[0] == '.');
        }
    }
    assert(name@ != parent_part()) by {
        if name@ == parent_part() {
            assert(name@.len() == 2 && name@[0] == '.' && name@[1] == '.');
        }
    }
    true
}

fn cur_text() -> (r: String)
    ensures
        r@ == cur_part(),
{
    proof {
        reveal_strlit(".");
    }
    let r = String::from_str(".");
    assert(r@ == seq!['.']);
    r
}

/// Whether the text between `start` and `end` becomes a component.
fn piece_kept(text: &str, start: usize, end: usize) -> (r: bool)
    requires
        start <= end <= text@.len(),
    ensures
        r == keep(text@.subrange(start as int, end as int)),
{
    let seg = Ghost(text@.subrange(start as int, end as int));
    let r = end > start && !(end == start + 1 && text.get_char(start) == '.');
    assert(r == keep(seg@)) by {
        if end == start + 1 && text@[start as int] == '.' {
            assert(seg@ =~= cur_part());
        }
        if seg@ == cur_part() {
            assert(seg@.len() == 1);
            assert(seg@[0] == text@[start as int]);
        }
    }
    r
}

fn copy_text(s: &String) -> (r: String)
    ensures
        r@ == s@,
{
    s.clone()
}

fn copy_parts(v: &Vec<String>) -> (r: Vec<String>)
    ensures
        texts(r@) == texts(v@),
{
    let mut r: Vec<String> = Vec::new();
    let mut i: usize = 0;
    while i < v.len()
        invariant
            0 <= i <= v.len(),
            texts(r@) == texts(v@).take(i as int),
        decreases v.len() - i,
    {
        let x = copy_text(&v[i]);
        proof { lemma_texts_push(r@, x); }
        r.push(x);
        i = i + 1;
        assert(texts(r@) =~= texts(v@).take(i as int));
    }
    assert(texts(v@).take(v.len() as int) =~= texts(v@));
    r
}

impl LocalPath {
    /// The components of the path written as `text`, as `std::path::Path::components`
    /// reads them on Unix.
    pub fn parse(text: &str) -> (p: LocalPath)
        ensures
            p@ == components(text@),
            well_formed(p@),
    {
        let n = text.unicode_len();
        let mut parts: Vec<String> = Vec::new();
        if n > 0 && text.get_char(0) == '/' {
            let x = root_text();
            proof { lemma_texts_push(parts@, x); }
            parts.push(x);
        } else if n > 0 && text.get_char(0) == '.' && (n == 1 || text.get_char(1) == '/') {
            let x = cur_text();
            proof { lemma_texts_push(parts@, x); }
            parts.push(x);
        }
        assert(texts(parts@) =~= lead(text@));
        assert(text@.take(0) =~= Seq::<char>::empty());
        assert(text@.subrange(0, 0) =~= Seq::<char>::empty());
        assert(segments(Seq::<char>::empty()).drop_last() =~= Seq::<Seq<char>>::empty());
        let mut start: usize = 0;
        let mut i: usize = 0;
        while i < n
            invariant
                n == text@.len(),
                0 <= start <= i <= n,
                segments(text@.take(i as int)).len() >= 1,
                segments(text@.take(i as int)).last() == text@.subrange(start as int, i as int),
                texts(parts@) == lead(text@) + kept(segments(text@.take(i as int)).drop_last()),
            decreases n - i,
        {
            let ghost before = segments(text@.take(i as int));
            let c = text.get_char(i);
            let ghost t1 = text@.take(i + 1);
            assert(t1.drop_last() =~= text@.take(i as int));
            assert(t1.last() == c);
            if c == '/' {
                let ghost seg = text@.subrange(start as int, i as int);
                let keep_it = piece_kept(text, start, i);
                assert(segments(t1) == before.push(Seq::<char>::empty()));
                assert(segments(t1).drop_last() =~= before);
                if keep_it {
                    let piece = text.substring_char(start, i);
                    let x = piece.to_owned();
                    proof { lemma_texts_push(parts@, x); }
                    parts.push(x);
                    assert(texts(parts@) =~= lead(text@) + kept(before));
                } else {
                    assert(texts(parts@) =~= lead(text@) + kept(before));
                }
                start = i + 1;
                assert(text@.subrange(start as int, (i + 1) as int) =~= Seq::<char>::empty());
            } else {
                assert(segments(t1) == before.update(before.len() - 1, before.last().push(c)));
                assert(segments(t1).drop_last() =~= before.drop_last());
                assert(text@.subrange(start as int, (i + 1) as int) =~= text@.subrange(
                    start as int,
                    i as int,
                ).push(c));
            }
            i = i + 1;
        }
        assert(text@.take(n as int) =~= text@);
        let ghost all = segments(text@);
        assert(all.drop_last().push(all.last()) =~= all);
        let last_keep = piece_kept(text, start, n);
        if last_keep {
            let piece = text.substring_char(start, n);
            let x = piece.to_owned();
            proof { lemma_texts_push(parts@, x); }
            parts.push(x);
        }
        assert(texts(parts@) =~= components(text@));
        proof {
            lemma_components_well_formed(text@);
        }
        LocalPath { parts }
    }

    /// The path with no components.
    pub fn empty() -> (p: LocalPath)
        ensures
            p@ == Seq::<Seq<char>>::empty(),
    {
        let p = LocalPath { parts: Vec::new() };
        assert(p@ =~= Seq::<Seq<char>>::empty());
        p
    }

    pub fn duplicate(&self) -> (p: LocalPath)
        ensures
            p@ == self@,
    {
        proof {
            use_type_invariant(self);
        }
        LocalPath { parts: copy_parts(&self.parts) }
    }

    /// The components, each as text.
    pub fn parts(&self) -> (r: Vec<String>)
        ensures
            texts(r@) == self@,
    {
        copy_parts(&self.parts)
    }

    /// `Path::starts_with`: whether `base` matches the first components.
    pub fn starts_with(&self, base: &LocalPath) -> (r: bool)
        ensures
            r == has_prefix(self@, base@),
    {
        if base.parts.len() > self.parts.len() {
            return false;
        }
        let mut i: usize = 0;
        while i < base.parts.len()
            invariant
                base.parts.len() <= self.parts.len(),
                0 <= i <= base.parts.len(),
                forall|k: int| 0 <= k < i ==> self@[k] == base@[k],
            decreases base.parts.len() - i,
        {
            if !(self.parts[i] == base.parts[i]) {
                assert(self@.take(base@.len() as int)[i as int] != base@[i as int]);
                return false;
            }
            i = i + 1;
        }
        assert(self@.take(base@.len() as int) =~= base@);
        true
    }

    /// Whether this path lies inside `base` (see `within`).
    pub fn lies_within(&self, base: &LocalPath) -> (r: bool)
        ensures
            r == within(self@, base@),
    {
        if !self.starts_with(base) {
            return false;
        }
        let dots = parent_text();
        let k = base.parts.len();
        let mut i: usize = k;
        while i < self.parts.len()
            invariant
                k == base@.len(),
                k <= i <= self.parts.len(),
                self.parts.len() == self@.len(),
                dots@ == parent_part(),
                forall|j: int| k <= j < i ==> self@[j] != parent_part(),
            decreases self.parts.len() - i,
        {
            if self.parts[i] == dots {
                assert(self@.skip(k as int)[i - k] == parent_part());
                return false;
            }
            i = i + 1;
        }
        assert forall|j: int| 0 <= j < self@.skip(k as int).len() implies #[trigger] self@.skip(
            k as int,
        )[j] != parent_part() by {
            assert(self@.skip(k as int)[j] == self@[j + k]);
        }
        true
    }

    /// `Path::strip_prefix`: what follows `base`, when `base` is a prefix.
    pub fn strip_prefix(&self, base: &LocalPath) -> (r: Option<LocalPath>)
        ensures
            match r {
                Some(q) => stripped(self@, base@) == Some(q@),
                None => stripped(self@, base@) is None,
            },
    {
        proof {
            use_type_invariant(self);
        }
        if !self.starts_with(base) {
            return None;
        }
        let mut rest: Vec<String> = Vec::new();
        let mut i: usize = base.parts.len();
        while i < self.parts.len()
            invariant
                base.parts.len() <= i <= self.parts.len(),
                texts(rest@) == self@.subrange(base@.len() as int, i as int),
            decreases self.parts.len() - i,
        {
            let x = copy_text(&self.parts[i]);
            proof { lemma_texts_push(rest@, x); }
            rest.push(x);
            i = i + 1;
            assert(texts(rest@) =~= self@.subrange(base@.len() as int, i as int));
        }
        assert(texts(rest@) =~= self@.skip(base@.len() as int));
        assert forall|k: int| 0 < k < texts(rest@).len() implies #[trigger] texts(rest@)[k] != root_part()
            && texts(rest@)[k] != cur_part() by {
            assert(texts(rest@)[k] == self@[k + base@.len()]);
        }
        let q = LocalPath { parts: rest };
        Some(q)
    }

    /// `Path::join`: `tail` after this path, or `tail` alone when it is absolute.
    pub fn join(&self, tail: &LocalPath) -> (r: LocalPath)
        ensures
            r@ == joined(self@, tail@),
    {
        proof {
            use_type_invariant(self);
            use_type_invariant(tail);
            lemma_joined_well_formed(self@, tail@);
        }
        let root = root_text();
        let cur = cur_text();
        if tail.parts.len() > 0 && tail.parts[0] == root {
            return tail.duplicate();
        }
        let skip_first = self.parts.len() > 0 && tail.parts.len() > 0 && tail.parts[0] == cur;
        let mut out = copy_parts(&self.parts);
        let mut i: usize = if skip_first {
            1
        } else {
            0
        };
        let ghost start = i as int;
        while i < tail.parts.len()
            invariant
                start <= i <= tail.parts.len(),
                start == 0 || start == 1,
                start <= tail.parts.len(),
                texts(out@) == self@ + tail@.subrange(start, i as int),
            decreases tail.parts.len() - i,
        {
            let x = copy_text(&tail.parts[i]);
            proof { lemma_texts_push(out@, x); }
            out.push(x);
            i = i + 1;
            assert(texts(out@) =~= self@ + tail@.subrange(start, i as int));
        }
        if skip_first {
            assert(tail@.subrange(1, tail@.len() as int) =~= tail@.drop_first());
        } else {
            assert(tail@.subrange(0, tail@.len() as int) =~= tail@);
        }
        let r = LocalPath { parts: out };
        r
    }

    /// `Path::parent`: the path without its last component.
    pub fn parent(&self) -> (r: Option<LocalPath>)
        ensures
            match r {
                Some(q) => parent_of(self@) == Some(q@),
                None => parent_of(self@) is None,
            },
    {
        proof {
            use_type_invariant(self);
        }
        let n = self.parts.len();
        if n == 0 || self.parts[n - 1] == root_text() {
            return None;
        }
        let mut out: Vec<String> = Vec::new();
        let mut i: usize = 0;
        while i < n - 1
            invariant
                n == self.parts.len(),
                n > 0,
                0 <= i <= n - 1,
                texts(out@) == self@.take(i as int),
            decreases n - 1 - i,
        {
            let x = copy_text(&self.parts[i]);
            proof { lemma_texts_push(out@, x); }
            out.push(x);
            i = i + 1;
            assert(texts(out@) =~= self@.take(i as int));
        }
        assert(texts(out@) =~= self@.drop_last());
        assert forall|k: int| 0 < k < texts(out@).len() implies #[trigger] texts(out@)[k] != root_part()
            && texts(out@)[k] != cur_part() by {
            assert(texts(out@)[k] == self@[k]);
        }
        let q = LocalPath { parts: out };
        Some(q)
    }

    /// Whether the path has no components.
    pub fn is_empty(&self) -> (r: bool)
        ensures
            r == (self@.len() == 0),
    {
        self.parts.len() == 0
    }

    /// Whether the path starts at the root.
    pub fn is_absolute(&self) -> (r: bool)
        ensures
            r == is_absolute(self@),
    {
        self.parts.len() > 0 && self.parts[0] == root_text()
    }

    /// Whether both paths have the same components.
    pub fn same_as(&self, other: &LocalPath) -> (r: bool)
        ensures
            r == (self@ == other@),
    {
        assert(self@.len() == self.parts@.len() && other@.len() == other.parts@.len());
        if self.parts.len() != other.parts.len() {
            return false;
        }
        let same = self.starts_with(other);
        assert(self@.take(other@.len() as int) =~= self@);
        same
    }
}

} // verus!
