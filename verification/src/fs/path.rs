//! Path names: splitting at the separator, folding `.` and `..` away, and
//! joining components back into an absolute path.

use vstd::prelude::*;
use crate::fs::{ErrorKind, INodeType};

verus! {

/// The character that separates the components of a path.
pub const PATH_SEPARATOR: char = '/';

/// The table of mounted file systems, by the path at which each is mounted.
pub struct FileManager {
    mount_points: Vec<String>,
}

/// The pieces of `s` between separators, empty pieces included: a string
/// without a separator is one piece, and `n` separators make `n + 1` pieces.
pub open spec fn split_components(s: Seq<char>) -> Seq<Seq<char>>
    decreases s.len(),
{
    if s.len() == 0 {
        seq![Seq::<char>::empty()]
    } else {
        let head = split_components(s.drop_last());
        if s.last() == PATH_SEPARATOR {
            head.push(Seq::<char>::empty())
        } else {
            head.update(head.len() - 1, head.last().push(s.last()))
        }
    }
}

/// There is always at least one piece.
pub proof fn lemma_split_nonempty(s: Seq<char>)
    ensures
        split_components(s).len() >= 1,
    decreases s.len(),
{
    if s.len() > 0 {
        lemma_split_nonempty(s.drop_last());
    }
}

/// The component `.`.
pub open spec fn is_dot(c: Seq<char>) -> bool {
    c == seq!['.']
}

/// The component `..`.
pub open spec fn is_dot_dot(c: Seq<char>) -> bool {
    c == seq!['.', '.']
}

/// One piece applied to the components gathered so far: an empty piece and
/// `.` change nothing, `..` drops the last component (if any), and any other
/// piece is appended.
pub open spec fn apply_component(stack: Seq<Seq<char>>, c: Seq<char>) -> Seq<Seq<char>> {
    if c.len() == 0 || is_dot(c) {
        stack
    } else if is_dot_dot(c) {
        if stack.len() == 0 {
            stack
        } else {
            stack.drop_last()
        }
    } else {
        stack.push(c)
    }
}

/// The pieces applied in order, starting from `stack`.
pub open spec fn apply_all(stack: Seq<Seq<char>>, pieces: Seq<Seq<char>>) -> Seq<Seq<char>>
    decreases pieces.len(),
{
    if pieces.len() == 0 {
        stack
    } else {
        apply_component(apply_all(stack, pieces.drop_last()), pieces.last())
    }
}

/// The views of a vector of strings.
pub open spec fn string_views(v: Seq<String>) -> Seq<Seq<char>> {
    v.map_values(|s: String| s@)
}

/// Pieces split at a separator in the middle are the pieces of each side.
pub proof fn lemma_split_concat(a: Seq<char>, b: Seq<char>)
    ensures
        split_components(a + seq![PATH_SEPARATOR] + b) == split_components(a) + split_components(b),
    decreases b.len(),
{
    let ab = a + seq![PATH_SEPARATOR] + b;
    lemma_split_nonempty(a);
    if b.len() == 0 {
        assert(ab.drop_last() == a);
    } else {
        lemma_split_concat(a, b.drop_last());
        assert(ab.drop_last() == a + seq![PATH_SEPARATOR] + b.drop_last());
        lemma_split_nonempty(b.drop_last());
        let left = split_components(a);
        let right = split_components(b.drop_last());
        if b.last() == PATH_SEPARATOR {
            assert((left + right).push(Seq::<char>::empty()) == left + right.push(Seq::<char>::empty()));
        } else {
            let r = right.update(right.len() - 1, right.last().push(b.last()));
            let lr = left + right;
            assert(lr.update(lr.len() - 1, lr.last().push(b.last())) == left + r);
        }
    }
}

/// Applying two runs of pieces is applying their concatenation.
pub proof fn lemma_apply_all_concat(stack: Seq<Seq<char>>, p: Seq<Seq<char>>, q: Seq<Seq<char>>)
    ensures
        apply_all(apply_all(stack, p), q) == apply_all(stack, p + q),
    decreases q.len(),
{
    if q.len() == 0 {
        assert(p + q == p);
    } else {
        lemma_apply_all_concat(stack, p, q.drop_last());
        assert((p + q).drop_last() == p + q.drop_last());
    }
}

/// The path that `path` names when the current directory is `base`: itself
/// when it starts with a separator, else `base`, a separator and `path`.
pub open spec fn full_path(base: Seq<char>, path: Seq<char>) -> Seq<char> {
    if path.len() > 0 && path[0] == PATH_SEPARATOR {
        path
    } else {
        base + seq![PATH_SEPARATOR] + path
    }
}

/// The components of `path` seen from `base`, with `.`, `..` and empty pieces
/// folded away.
pub open spec fn canonical_components(base: Seq<char>, path: Seq<char>) -> Seq<Seq<char>> {
    apply_all(Seq::empty(), split_components(full_path(base, path)))
}

/// Applies the pieces of `s` to the components in `stack`.
fn push_components(stack: &mut Vec<String>, s: &str)
    ensures
        string_views(final(stack)@) == apply_all(string_views(old(stack)@), split_components(s@)),
{
    let ghost init = string_views(stack@);
    let n = s.unicode_len();
    let mut start: usize = 0;
    let mut i: usize = 0;
    while i < n
        invariant
            n == s@.len(),
            start <= i <= n,
            split_components(s@.subrange(0, i as int)).last() == s@.subrange(start as int, i as int),
            string_views(stack@) == apply_all(init, split_components(s@.subrange(0, i as int)).drop_last()),
        decreases n - i,
    {
        let c = s.get_char(i);
        let ghost before = split_components(s@.subrange(0, i as int));
        let ghost after = split_components(s@.subrange(0, i + 1));
        proof {
            assert(s@.subrange(0, i + 1).drop_last() == s@.subrange(0, i as int));
            lemma_split_nonempty(s@.subrange(0, i as int));
            assert(s@.subrange(start as int, i + 1) == s@.subrange(start as int, i as int).push(c));
            if c == PATH_SEPARATOR {
                assert(after.drop_last() == before);
            } else {
                assert(after.drop_last() == before.drop_last());
            }
        }
        if c == PATH_SEPARATOR {
            let piece = s.substring_char(start, i);
            push_piece(stack, piece);
            start = i + 1;
        }
        i = i + 1;
    }
    proof {
        assert(s@.subrange(0, n as int) == s@);
        lemma_split_nonempty(s@);
    }
    let piece = s.substring_char(start, n);
    push_piece(stack, piece);
}

/// Applies one piece to the components in `stack`.
fn push_piece(stack: &mut Vec<String>, piece: &str)
    ensures
        string_views(final(stack)@) == apply_component(string_views(old(stack)@), piece@),
{
    let ghost old_views = string_views(stack@);
    let len = piece.unicode_len();
    let one_dot = len == 1 && piece.get_char(0) == '.';
    let two_dots = len == 2 && piece.get_char(0) == '.' && piece.get_char(1) == '.';
    if len == 0 || one_dot {
        assert(one_dot ==> piece@ == seq!['.']);
    } else if two_dots {
        assert(piece@ == seq!['.', '.']);
        if stack.len() > 0 {
            stack.pop();
            assert(string_views(stack@) == old_views.drop_last());
        }
    } else {
        assert(!is_dot(piece@));
        assert(!is_dot_dot(piece@));
        stack.push(piece.to_owned());
        assert(string_views(stack@) == old_views.push(piece@));
    }
}


impl FileManager {
    /// The components of `path`, taken relative to `base` unless it starts with a
    /// separator, with empty pieces and `.` dropped and each `..` removing the
    /// component before it.
    pub fn canonical_path_components(base: &str, path: &str) -> (r: Vec<String>)
        ensures
            string_views(r@) == canonical_components(base@, path@),
    {
        let mut components: Vec<String> = Vec::new();
        assert(string_views(components@) == Seq::<Seq<char>>::empty());
        if path.unicode_len() > 0 && path.get_char(0) == PATH_SEPARATOR {
            push_components(&mut components, path);
        } else {
            push_components(&mut components, base);
            push_components(&mut components, path);
            proof {
                lemma_apply_all_concat(Seq::empty(), split_components(base@), split_components(path@));
                lemma_split_concat(base@, path@);
            }
        }
        components
    }
}

/// The components joined by separators, without a leading one.
pub open spec fn join_components(c: Seq<Seq<char>>) -> Seq<char>
    decreases c.len(),
{
    if c.len() == 0 {
        Seq::empty()
    } else if c.len() == 1 {
        c[0]
    } else {
        join_components(c.drop_last()) + seq![PATH_SEPARATOR] + c.last()
    }
}

/// The absolute path made of the components: a separator before each of
/// them, or a lone separator when there are none.
pub open spec fn joined_path(c: Seq<Seq<char>>) -> Seq<char> {
    seq![PATH_SEPARATOR] + join_components(c)
}

impl FileManager {
    /// The absolute path made of `path_components`.
    pub fn join_path(path_components: &Vec<String>) -> (r: String)
        ensures
            r@ == joined_path(string_views(path_components@)),
    {
        let mut r = String::new();
        r.append("/");
        proof {
            reveal_strlit("/");
        }
        let mut i: usize = 0;
        while i < path_components.len()
            invariant
                i <= path_components.len(),
                r@ == joined_path(string_views(path_components@.subrange(0, i as int))),
            decreases path_components.len() - i,
        {
            let ghost before = string_views(path_components@.subrange(0, i as int));
            if i > 0 {
                r.append("/");
            }
            r.append(path_components[i].as_str());
            proof {
                reveal_strlit("/");
                let after = string_views(path_components@.subrange(0, i + 1));
                assert(after.drop_last() == before);
                assert(after.last() == path_components@[i as int]@);
            }
            i = i + 1;
        }
        assert(path_components@.subrange(0, i as int) == path_components@);
        r
    }
}

/// A component that a canonical path may hold: not empty, neither `.` nor
/// `..`, and without a separator.
pub open spec fn is_normal_component(c: Seq<char>) -> bool {
    &&& c.len() > 0
    &&& !is_dot(c)
    &&& !is_dot_dot(c)
    &&& !c.contains(PATH_SEPARATOR)
}

/// Every component is normal.
pub open spec fn all_normal(c: Seq<Seq<char>>) -> bool {
    forall|i: int| 0 <= i < c.len() ==> is_normal_component(#[trigger] c[i])
}

/// No piece holds a separator.
pub proof fn lemma_split_no_separator(s: Seq<char>)
    ensures
        forall|i: int|
            0 <= i < split_components(s).len() ==> !(#[trigger] split_components(s)[i]).contains(
                PATH_SEPARATOR,
            ),
    decreases s.len(),
{
    if s.len() > 0 {
        lemma_split_no_separator(s.drop_last());
        lemma_split_nonempty(s.drop_last());
        let head = split_components(s.drop_last());
        if s.last() != PATH_SEPARATOR {
            let l = head.last().push(s.last());
            assert forall|k: int| 0 <= k < l.len() implies l[k] != PATH_SEPARATOR by {
                if k < head.last().len() {
                    assert(l[k] == head.last()[k]);
                }
            }
        }
    }
}

/// Applying pieces without separators to normal components leaves normal
/// components.
pub proof fn lemma_apply_all_normal(stack: Seq<Seq<char>>, pieces: Seq<Seq<char>>)
    requires
        all_normal(stack),
        forall|i: int| 0 <= i < pieces.len() ==> !(#[trigger] pieces[i]).contains(PATH_SEPARATOR),
    ensures
        all_normal(apply_all(stack, pieces)),
    decreases pieces.len(),
{
    if pieces.len() > 0 {
        lemma_apply_all_normal(stack, pieces.drop_last());
        assert(!pieces[pieces.len() - 1].contains(PATH_SEPARATOR));
    }
}

/// Normal components applied to a stack are appended to it.
pub proof fn lemma_apply_all_normal_appends(stack: Seq<Seq<char>>, c: Seq<Seq<char>>)
    requires
        all_normal(c),
    ensures
        apply_all(stack, c) == stack + c,
    decreases c.len(),
{
    if c.len() == 0 {
        assert(stack + c == stack);
    } else {
        lemma_apply_all_normal_appends(stack, c.drop_last());
        assert(is_normal_component(c[c.len() - 1]));
        assert((stack + c.drop_last()).push(c.last()) == stack + c);
    }
}

/// A string without a separator is a single piece.
pub proof fn lemma_split_single(s: Seq<char>)
    requires
        !s.contains(PATH_SEPARATOR),
    ensures
        split_components(s) == seq![s],
    decreases s.len(),
{
    if s.len() == 0 {
        assert(s == Seq::<char>::empty());
    } else {
        let t = s.drop_last();
        assert(!t.contains(PATH_SEPARATOR)) by {
            if t.contains(PATH_SEPARATOR) {
                let k = choose|k: int| 0 <= k < t.len() && t[k] == PATH_SEPARATOR;
                assert(s[k] == PATH_SEPARATOR);
            }
        }
        lemma_split_single(t);
        assert(s[s.len() - 1] != PATH_SEPARATOR);
        assert(t.push(s.last()) == s);
    }
}

/// Joining components without separators and splitting again gives them back.
pub proof fn lemma_split_join(c: Seq<Seq<char>>)
    requires
        c.len() > 0,
        forall|i: int| 0 <= i < c.len() ==> !(#[trigger] c[i]).contains(PATH_SEPARATOR),
    ensures
        split_components(join_components(c)) == c,
    decreases c.len(),
{
    assert(!c[c.len() - 1].contains(PATH_SEPARATOR));
    if c.len() == 1 {
        lemma_split_single(c[0]);
        assert(c == seq![c[0]]);
    } else {
        lemma_split_join(c.drop_last());
        lemma_split_concat(join_components(c.drop_last()), c.last());
        lemma_split_single(c.last());
        assert(c.drop_last() + seq![c.last()] == c);
    }
}

/// The components of an absolute path joined from normal components are
/// those components, whatever the current directory.
pub proof fn lemma_canonical_of_joined(base: Seq<char>, c: Seq<Seq<char>>)
    requires
        all_normal(c),
    ensures
        canonical_components(base, joined_path(c)) == c,
{
    let j = joined_path(c);
    assert(j[0] == PATH_SEPARATOR);
    assert(j == Seq::<char>::empty() + seq![PATH_SEPARATOR] + join_components(c));
    lemma_split_concat(Seq::<char>::empty(), join_components(c));
    let empty_piece = seq![Seq::<char>::empty()];
    assert(split_components(Seq::<char>::empty()) == empty_piece);
    if c.len() == 0 {
        assert(split_components(join_components(c)) == empty_piece);
        assert(split_components(j) == seq![Seq::<char>::empty(), Seq::<char>::empty()]);
        reveal_with_fuel(apply_all, 3);
        assert(seq![Seq::<char>::empty(), Seq::<char>::empty()].drop_last() == empty_piece);
        assert(empty_piece.drop_last() == Seq::<Seq<char>>::empty());
    } else {
        lemma_split_join(c);
        lemma_apply_all_concat(Seq::empty(), empty_piece, c);
        assert(empty_piece.drop_last() == Seq::<Seq<char>>::empty());
        assert(empty_piece.last().len() == 0);
        reveal_with_fuel(apply_all, 2);
        assert(apply_all(Seq::empty(), empty_piece) == Seq::<Seq<char>>::empty());
        lemma_apply_all_normal_appends(Seq::empty(), c);
        assert(Seq::<Seq<char>>::empty() + c == c);
    }
}

/// Canonical components are normal.
pub proof fn lemma_canonical_normal(base: Seq<char>, path: Seq<char>)
    ensures
        all_normal(canonical_components(base, path)),
{
    lemma_split_no_separator(full_path(base, path));
    lemma_apply_all_normal(Seq::empty(), split_components(full_path(base, path)));
}

/// Canonicalizing a canonical path changes nothing: the path that
/// `canonicalize` gives names the same components again, from any directory.
pub proof fn lemma_canonicalize_idempotent(cwd: Seq<char>, other_cwd: Seq<char>, path: Seq<char>)
    ensures
        canonical_components(other_cwd, joined_path(canonical_components(cwd, path)))
            == canonical_components(cwd, path),
{
    lemma_canonical_normal(cwd, path);
    lemma_canonical_of_joined(other_cwd, canonical_components(cwd, path));
}

impl FileManager {
    /// The absolute path that `path` names from `cwd`, without `.`, `..` or empty
    /// components.
    pub fn canonicalize(cwd: &str, path: &str) -> (r: String)
        ensures
            r@ == joined_path(canonical_components(cwd@, path@)),
    {
        Self::join_path(&Self::canonical_path_components(cwd, path))
    }
}

impl FileManager {
    /// The path of the directory that holds what `path` names (relative paths
    /// taken from the root), or `None` for the root itself.
    pub fn parent_path(path: &str) -> (r: Option<String>)
        ensures
            match r {
                Some(p) => canonical_components(Seq::empty(), path@).len() > 0
                    && p@ == joined_path(canonical_components(Seq::empty(), path@).drop_last()),
                None => canonical_components(Seq::empty(), path@).len() == 0,
            },
    {
        let mut components = Self::canonical_path_components("", path);
        proof {
            reveal_strlit("");
            assert(""@ == Seq::<char>::empty());
        }
        match components.pop() {
            Some(_) => {
                assert(string_views(components@) == canonical_components(Seq::empty(), path@).drop_last());
                Some(Self::join_path(&components))
            },
            None => None,
        }
    }
}

/// The parent of a path is the path without its last component.
pub proof fn lemma_parent_drops_last(path: Seq<char>, parent: Seq<char>)
    requires
        canonical_components(Seq::empty(), path).len() > 0,
        parent == joined_path(canonical_components(Seq::empty(), path).drop_last()),
    ensures
        canonical_components(Seq::empty(), parent) == canonical_components(Seq::empty(), path).drop_last(),
{
    let c = canonical_components(Seq::empty(), path);
    lemma_canonical_normal(Seq::empty(), path);
    assert(all_normal(c.drop_last())) by {
        assert forall|i: int| 0 <= i < c.drop_last().len() implies is_normal_component(
            #[trigger] c.drop_last()[i],
        ) by {
            assert(c.drop_last()[i] == c[i]);
        }
    }
    lemma_canonical_of_joined(Seq::empty(), c.drop_last());
}

/// `i` names the longest of `mount_points` that begins `fq_path`; of the
/// names that begin one path, the longest is also the greatest in order.
pub open spec fn is_longest_mount(mount_points: Seq<Seq<char>>, fq_path: Seq<char>, i: int) -> bool {
    &&& 0 <= i < mount_points.len()
    &&& mount_points[i].is_prefix_of(fq_path)
    &&& forall|j: int|
        0 <= j < mount_points.len() && (#[trigger] mount_points[j]).is_prefix_of(fq_path)
            ==> mount_points[j].len() <= mount_points[i].len()
}

/// No mount point begins `fq_path`.
pub open spec fn no_mount(mount_points: Seq<Seq<char>>, fq_path: Seq<char>) -> bool {
    forall|j: int| 0 <= j < mount_points.len() ==> !(#[trigger] mount_points[j]).is_prefix_of(fq_path)
}

/// The canonical path with a separator at its end, as mount points are named.
pub open spec fn dir_path(c: Seq<Seq<char>>) -> Seq<char> {
    joined_path(c) + seq![PATH_SEPARATOR]
}

/// The components of `fq_path` below the mount point named `mount`: what
/// follows the mount point's name, from its last character on.
pub open spec fn components_below(mount: Seq<char>, fq_path: Seq<char>) -> Seq<Seq<char>> {
    canonical_components(seq![PATH_SEPARATOR], fq_path.subrange(mount.len() - 1, fq_path.len() as int))
}

/// Whether `p` begins `s`.
fn starts_with(s: &str, p: &str) -> (r: bool)
    ensures
        r == p@.is_prefix_of(s@),
{
    let n = p.unicode_len();
    let m = s.unicode_len();
    if n > m {
        return false;
    }
    let mut i: usize = 0;
    while i < n
        invariant
            n == p@.len(),
            m == s@.len(),
            n <= m,
            i <= n,
            forall|k: int| 0 <= k < i ==> p@[k] == s@[k],
        decreases n - i,
    {
        if p.get_char(i) != s.get_char(i) {
            assert(s@.subrange(0, n as int)[i as int] != p@[i as int]);
            return false;
        }
        i = i + 1;
    }
    assert(s@.subrange(0, n as int) == p@);
    true
}

impl View for FileManager {
    type V = Seq<Seq<char>>;

    closed spec fn view(&self) -> Seq<Seq<char>> {
        string_views(self.mount_points@)
    }
}

/// What `rename` finds when it compares the two canonical paths.
#[derive(Debug, Clone, Copy, PartialEq, Eq, Structural)]
pub enum RenameCheck {
    /// Both name the same place: nothing to do.
    Unchanged,
    /// The names differ and the new one is not inside the old one.
    Proceed,
}

impl FileManager {
    /// Every mount point has a name that is not empty, and no name occurs
    /// twice.
    pub closed spec fn wf(&self) -> bool {
        &&& forall|i: int| 0 <= i < self@.len() ==> (#[trigger] self@[i]).len() > 0
        &&& forall|i: int, j: int|
            0 <= i < j < self@.len() ==> #[trigger] self@[i] != #[trigger] self@[j]
    }

    /// A table with nothing mounted.
    pub fn new() -> (r: Self)
        ensures
            r.wf(),
            r@ == Seq::<Seq<char>>::empty(),
    {
        let r = FileManager { mount_points: Vec::new() };
        assert(r@ == Seq::<Seq<char>>::empty());
        r
    }

    /// Adds `path` to the mount points; a name already there stays once.
    pub fn mount(&mut self, path: &str)
        requires
            old(self).wf(),
            path@.len() > 0,
        ensures
            final(self).wf(),
            old(self)@.contains(path@) ==> final(self)@ == old(self)@,
            !old(self)@.contains(path@) ==> final(self)@ == old(self)@.push(path@),
    {
        let mut i: usize = 0;
        while i < self.mount_points.len()
            invariant
                i <= self@.len(),
                self@.len() == self.mount_points@.len(),
                self.wf(),
                self@ == old(self)@,
                forall|k: int| 0 <= k < i ==> self@[k] != path@,
            decreases self.mount_points.len() - i,
        {
            if self.mount_points[i].as_str().unicode_len() == path.unicode_len() && starts_with(
                self.mount_points[i].as_str(),
                path,
            ) {
                assert(path@.is_prefix_of(self@[i as int]));
                assert(self@[i as int] == path@) by {
                    assert(self@[i as int].subrange(0, path@.len() as int) == self@[i as int]);
                }
                return;
            }
            i = i + 1;
        }
        let ghost before = self@;
        self.mount_points.push(path.to_owned());
        assert(self@ == before.push(path@));
        assert(!before.contains(path@)) by {
            if before.contains(path@) {
                let k = choose|k: int| 0 <= k < before.len() && before[k] == path@;
                assert(self@[k] == before[k]);
            }
        }
    }

    /// The index of the longest mount point that begins `fq_path`.
    pub fn mount_prefix(&self, fq_path: &str) -> (r: Option<usize>)
        ensures
            match r {
                Some(i) => is_longest_mount(self@, fq_path@, i as int),
                None => no_mount(self@, fq_path@),
            },
    {
        let mut best: Option<usize> = None;
        let mut i: usize = 0;
        while i < self.mount_points.len()
            invariant
                i <= self@.len(),
                self@.len() == self.mount_points@.len(),
                match best {
                    Some(b) => b < i && self@[b as int].is_prefix_of(fq_path@) && forall|j: int|
                        0 <= j < i && (#[trigger] self@[j]).is_prefix_of(fq_path@)
                            ==> self@[j].len() <= self@[b as int].len(),
                    None => forall|j: int| 0 <= j < i ==> !(#[trigger] self@[j]).is_prefix_of(fq_path@),
                },
            decreases self.mount_points.len() - i,
        {
            let name = self.mount_points[i].as_str();
            assert(name@ == self@[i as int]);
            if starts_with(fq_path, name) {
                best = match best {
                    Some(b) => {
                        if self.mount_points[b].as_str().unicode_len() < name.unicode_len() {
                            Some(i)
                        } else {
                            Some(b)
                        }
                    },
                    None => Some(i),
                };
            }
            i = i + 1;
        }
        best
    }

    /// The mount point under which `path`, seen from `cwd`, lies, and the
    /// components of the path below it.
    pub fn resolve(&self, cwd: &str, path: &str) -> (r: Result<(usize, Vec<String>), ErrorKind>)
        requires
            self.wf(),
        ensures
            ({
                let fq = dir_path(canonical_components(cwd@, path@));
                match r {
                    Ok((i, c)) => is_longest_mount(self@, fq, i as int) && string_views(c@)
                        == components_below(self@[i as int], fq),
                    Err(e) => e == ErrorKind::NotFound && no_mount(self@, fq),
                }
            }),
    {
        let components = Self::canonical_path_components(cwd, path);
        self.resolve_components(&components)
    }

    /// The mount point under which the parent of `path`, seen from `cwd`,
    /// lies, the components of the parent below it, and the last component
    /// of `path` (`None` for the root).
    pub fn resolve_parent(&self, cwd: &str, path: &str) -> (r: Result<(usize, Vec<String>, Option<String>), ErrorKind>)
        requires
            self.wf(),
        ensures
            ({
                let c = canonical_components(cwd@, path@);
                let parent = if c.len() > 0 { c.drop_last() } else { c };
                let fq = dir_path(parent);
                match r {
                    Ok((i, pc, last)) => is_longest_mount(self@, fq, i as int) && string_views(pc@)
                        == components_below(self@[i as int], fq) && match last {
                        Some(l) => c.len() > 0 && l@ == c.last(),
                        None => c.len() == 0,
                    },
                    Err(e) => e == ErrorKind::NotFound && no_mount(self@, fq),
                }
            }),
    {
        let mut components = Self::canonical_path_components(cwd, path);
        let ghost c = string_views(components@);
        let last = components.pop();
        proof {
            if c.len() > 0 {
                assert(string_views(components@) == c.drop_last());
            }
        }
        match self.resolve_components(&components) {
            Ok((i, pc)) => Ok((i, pc, last)),
            Err(e) => Err(e),
        }
    }

    /// The mount point under which the directory made of `components` lies,
    /// and the components below it.
    fn resolve_components(&self, components: &Vec<String>) -> (r: Result<(usize, Vec<String>), ErrorKind>)
        requires
            self.wf(),
        ensures
            ({
                let fq = dir_path(string_views(components@));
                match r {
                    Ok((i, c)) => is_longest_mount(self@, fq, i as int) && string_views(c@)
                        == components_below(self@[i as int], fq),
                    Err(e) => e == ErrorKind::NotFound && no_mount(self@, fq),
                }
            }),
    {
        let mut fq = Self::join_path(components);
        fq.append("/");
        proof {
            reveal_strlit("/");
        }
        let fq = fq.as_str();
        assert(fq@ == dir_path(string_views(components@)));
        match self.mount_prefix(fq) {
            Some(i) => {
                let plen = self.mount_points[i].as_str().unicode_len();
                assert(plen == self@[i as int].len());
                assert(self@[i as int].len() > 0);
                let rest = fq.substring_char(plen - 1, fq.unicode_len());
                let c = Self::canonical_path_components("/", rest);
                assert(rest@ == fq@.subrange(plen - 1, fq@.len() as int));
                assert("/"@ == seq![PATH_SEPARATOR]);
                assert(string_views(c@) == components_below(self@[i as int], fq@));
                Ok((i, c))
            },
            None => Err(ErrorKind::NotFound),
        }
    }

    /// Compares the canonical forms of the two paths of a rename: the same
    /// place needs nothing, and a place inside the one being moved is refused.
    pub fn rename_check(cwd: &str, old_path: &str, new_path: &str) -> (r: Result<RenameCheck, ErrorKind>)
        ensures
            ({
                let old_fq = dir_path(canonical_components(cwd@, old_path@));
                let new_fq = dir_path(canonical_components(cwd@, new_path@));
                if old_fq == new_fq {
                    r == Ok::<RenameCheck, ErrorKind>(RenameCheck::Unchanged)
                } else if old_fq.is_prefix_of(new_fq) {
                    r == Err::<RenameCheck, ErrorKind>(ErrorKind::InvalidInput)
                } else {
                    r == Ok::<RenameCheck, ErrorKind>(RenameCheck::Proceed)
                }
            }),
    {
        proof {
            reveal_strlit("/");
        }
        let mut old_fq = Self::canonicalize(cwd, old_path);
        old_fq.append("/");
        let mut new_fq = Self::canonicalize(cwd, new_path);
        new_fq.append("/");
        assert(old_fq@ == dir_path(canonical_components(cwd@, old_path@)));
        assert(new_fq@ == dir_path(canonical_components(cwd@, new_path@)));
        if old_fq == new_fq {
            Ok(RenameCheck::Unchanged)
        } else if starts_with(new_fq.as_str(), old_fq.as_str()) {
            Err(ErrorKind::InvalidInput)
        } else {
            Ok(RenameCheck::Proceed)
        }
    }

    /// Where a rename puts the node: into `new_dir` under `new_name`, except
    /// that a missing last component keeps the old name, and an existing
    /// directory of that name receives the node under its old name.
    /// `existing` is what a lookup of `new_name` in `new_dir` found: its node
    /// and whether that node is a directory.
    pub fn rename_destination(
        new_dir: INodeType,
        new_name: Option<String>,
        old_name: &str,
        existing: Option<(INodeType, bool)>,
    ) -> (r: (INodeType, String))
        ensures
            match new_name {
                None => r.0 == new_dir && r.1@ == old_name@,
                Some(n) => match existing {
                    Some((inode, true)) => r.0 == inode && r.1@ == old_name@,
                    _ => r.0 == new_dir && r.1@ == n@,
                },
            },
    {
        match new_name {
            None => (new_dir, old_name.to_owned()),
            Some(n) => match existing {
                Some((inode, is_dir)) => {
                    if is_dir {
                        (inode, old_name.to_owned())
                    } else {
                        (new_dir, n)
                    }
                },
                None => (new_dir, n),
            },
        }
    }
}

} // verus!
