//! Sets of source lines, each line named by its file's path and its number in
//! that file: the lines that a diff has changed, and the lines among them
//! that the tests have left uncovered.

use crate::text::texts;
use vstd::prelude::*;

verus! {

/// One line of one file.
pub struct FileLine {
    /// The file's path from the repository root, with forward slashes.
    pub path: String,
    /// The line's number in the file, counted from 1.
    pub line: usize,
}

/// An ordered set of lines of files. Its view is the sequence of its lines as
/// pairs of a path and a line number, in the order in which they came in.
pub struct LineSet {
    entries: Vec<FileLine>,
}

/// The lines that a diff has added or modified in the new revision.
pub type ChangedLineSet = LineSet;

/// The changed lines that no test has run.
pub type UncoveredLines = LineSet;

/// `set` with the line `n` of `path` put last, unless it is in the set already.
pub open spec fn record(set: Seq<(Seq<char>, usize)>, path: Seq<char>, n: usize) -> Seq<
    (Seq<char>, usize),
> {
    if set.contains((path, n)) {
        set
    } else {
        set.push((path, n))
    }
}

/// The numbers of the lines of `path` in `set`, in the set's order.
pub open spec fn lines_of(set: Seq<(Seq<char>, usize)>, path: Seq<char>) -> Seq<usize>
    decreases set.len(),
{
    if set.len() == 0 {
        Seq::empty()
    } else if set.last().0 == path {
        lines_of(set.drop_last(), path).push(set.last().1)
    } else {
        lines_of(set.drop_last(), path)
    }
}

/// The paths of the files with a line in `set`, each once, in the order of
/// their first lines.
pub open spec fn paths_of(set: Seq<(Seq<char>, usize)>) -> Seq<Seq<char>>
    decreases set.len(),
{
    if set.len() == 0 {
        Seq::empty()
    } else {
        let before = paths_of(set.drop_last());
        if before.contains(set.last().0) {
            before
        } else {
            before.push(set.last().0)
        }
    }
}

impl View for LineSet {
    type V = Seq<(Seq<char>, usize)>;

    closed spec fn view(&self) -> Seq<(Seq<char>, usize)> {
        Seq::new(self.entries@.len(), |i: int| (self.entries@[i].path@, self.entries@[i].line))
    }
}

impl LineSet {
    /// No line occurs twice.
    pub open spec fn wf(&self) -> bool {
        self@.no_duplicates()
    }

    /// The empty set.
    pub fn new() -> (set: LineSet)
        ensures
            set@ == Seq::<(Seq<char>, usize)>::empty(),
            set.wf(),
    {
        LineSet { entries: Vec::new() }
    }

    /// The number of lines in the set.
    pub fn len(&self) -> (n: usize)
        ensures
            n == self@.len(),
    {
        self.entries.len()
    }

    /// Whether the set holds no line.
    pub fn is_empty(&self) -> (b: bool)
        ensures
            b == (self@.len() == 0),
    {
        self.entries.len() == 0
    }

    /// The path of the `i`-th line of the set.
    pub fn path_at(&self, i: usize) -> (path: &String)
        requires
            i < self@.len(),
        ensures
            path@ == self@[i as int].0,
    {
        &self.entries[i].path
    }

    /// The number of the `i`-th line of the set.
    pub fn line_at(&self, i: usize) -> (line: usize)
        requires
            i < self@.len(),
        ensures
            line == self@[i as int].1,
    {
        self.entries[i].line
    }

    /// Whether line `line` of `path` is in the set.
    pub fn contains(&self, path: &String, line: usize) -> (b: bool)
        ensures
            b == self@.contains((path@, line)),
    {
        let mut i: usize = 0;
        while i < self.entries.len()
            invariant
                i <= self.entries.len(),
                forall|j: int| 0 <= j < i ==> self@[j] != (path@, line),
            decreases self.entries.len() - i,
        {
            if self.entries[i].line == line && self.entries[i].path == *path {
                assert(self@[i as int] == (path@, line));
                return true;
            }
            i += 1;
        }
        false
    }

    /// Puts line `line` of `path` into the set, last, unless it is there already.
    pub fn insert(&mut self, path: &String, line: usize)
        requires
            old(self).wf(),
        ensures
            final(self)@ == record(old(self)@, path@, line),
            final(self).wf(),
    {
        if !self.contains(path, line) {
            let ghost before = self@;
            self.entries.push(FileLine { path: path.clone(), line });
            assert(self@ == before.push((path@, line)));
        }
    }

    /// The numbers of the lines of `path` in the set, in the set's order.
    pub fn lines_for(&self, path: &String) -> (lines: Vec<usize>)
        ensures
            lines@ == lines_of(self@, path@),
    {
        let mut lines: Vec<usize> = Vec::new();
        let mut i: usize = 0;
        assert(self@.take(0) == Seq::<(Seq<char>, usize)>::empty());
        while i < self.entries.len()
            invariant
                i <= self.entries.len(),
                lines@ == lines_of(self@.take(i as int), path@),
            decreases self.entries.len() - i,
        {
            assert(self@.take(i + 1).drop_last() == self@.take(i as int));
            if self.entries[i].path == *path {
                lines.push(self.entries[i].line);
            }
            i += 1;
        }
        assert(self@.take(i as int) == self@);
        lines
    }

    /// The paths of the files with a line in the set, each once, in the order
    /// of their first lines.
    pub fn paths(&self) -> (paths: Vec<String>)
        ensures
            texts(paths@) == paths_of(self@),
    {
        let mut paths: Vec<String> = Vec::new();
        let mut i: usize = 0;
        assert(self@.take(0) == Seq::<(Seq<char>, usize)>::empty());
        assert(texts(paths@) == Seq::<Seq<char>>::empty());
        while i < self.entries.len()
            invariant
                i <= self.entries.len(),
                texts(paths@) == paths_of(self@.take(i as int)),
            decreases self.entries.len() - i,
        {
            assert(self@.take(i + 1).drop_last() == self@.take(i as int));
            let ghost before = texts(paths@);
            let path = &self.entries[i].path;
            let mut known = false;
            let mut k: usize = 0;
            while k < paths.len()
                invariant
                    k <= paths.len(),
                    before == texts(paths@),
                    !known ==> forall|j: int| 0 <= j < k ==> before[j] != path@,
                    known ==> before.contains(path@),
                decreases paths.len() - k,
            {
                if paths[k] == *path {
                    assert(before[k as int] == path@);
                    known = true;
                }
                k += 1;
            }
            if !known {
                paths.push(path.clone());
                assert(texts(paths@) == before.push(path@));
            }
            i += 1;
        }
        assert(self@.take(i as int) == self@);
        paths
    }
}

/// The lines of `s`, each once, in the order of their first occurrences.
pub open spec fn distinct(s: Seq<(Seq<char>, usize)>) -> Seq<(Seq<char>, usize)>
    decreases s.len(),
{
    if s.len() == 0 {
        s
    } else {
        record(distinct(s.drop_last()), s.last().0, s.last().1)
    }
}

/// What [`distinct`] gives: no line twice, the same lines as `s`, and `s`
/// itself where `s` holds no line twice.
pub proof fn lemma_distinct(s: Seq<(Seq<char>, usize)>)
    ensures
        distinct(s).no_duplicates(),
        distinct(s).len() <= s.len(),
        forall|e: (Seq<char>, usize)| distinct(s).contains(e) <==> s.contains(e),
        s.no_duplicates() ==> distinct(s) == s,
    decreases s.len(),
{
    if s.len() > 0 {
        let before = s.drop_last();
        let last = s.last();
        lemma_distinct(before);
        let d = distinct(before);
        assert(s == before.push(last));
        assert forall|e: (Seq<char>, usize)| distinct(s).contains(e) <==> s.contains(e) by {
            if distinct(s).contains(e) {
                let i = choose|i: int| 0 <= i < distinct(s).len() && distinct(s)[i] == e;
                if i < d.len() {
                    assert(d[i] == e);
                    assert(d.contains(e));
                    assert(before.contains(e));
                    let k = choose|k: int| 0 <= k < before.len() && before[k] == e;
                    assert(s[k] == e);
                } else {
                    assert(s[s.len() - 1] == e);
                }
            }
            if s.contains(e) {
                let k = choose|k: int| 0 <= k < s.len() && s[k] == e;
                if k < before.len() {
                    assert(before[k] == e);
                    assert(before.contains(e));
                    assert(d.contains(e));
                    let i = choose|i: int| 0 <= i < d.len() && d[i] == e;
                    assert(distinct(s)[i] == e);
                } else if !d.contains(e) {
                    assert(distinct(s)[d.len() as int] == e);
                }
            }
        }
        if s.no_duplicates() {
            assert(before.no_duplicates());
            if d.contains(last) {
                assert(before.contains(last));
                let k = choose|k: int| 0 <= k < before.len() && before[k] == last;
                assert(s[k] == s[s.len() - 1]);
            }
        }
    }
}

} // verus!
