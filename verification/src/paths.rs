//! Paths as the diff, the coverage reports and the file system write them,
//! brought to one form: a path is cut at `/` and `\` into its parts, empty
//! parts and `.` parts are dropped, and, where the rule says so, ASCII
//! letters are made lower case.

use crate::text::{chars_of, same, slice_of};
use vstd::prelude::*;

verus! {

/// How paths are held against each other.
#[derive(Clone, Copy, Debug, PartialEq, Eq, Structural)]
pub struct PathRule {
    /// Whether ASCII letters that differ only in case are taken as equal.
    pub ignore_case: bool,
}

/// A lower-case ASCII letter for an upper-case one; any other character
/// unchanged.
pub open spec fn fold_char(c: char) -> char {
    if 'A' <= c && c <= 'Z' {
        ((c as u8 + 32) as u8) as char
    } else {
        c
    }
}

/// The character by which `c` is compared under `rule`.
pub open spec fn ruled(c: char, rule: PathRule) -> char {
    if rule.ignore_case {
        fold_char(c)
    } else {
        c
    }
}

/// Whether `c` separates the parts of a path.
pub open spec fn is_separator(c: char) -> bool {
    c == '/' || c == '\\'
}

/// The first position at or after `i` that holds a separator, or the length
/// of `s` where there is none.
pub open spec fn part_end(s: Seq<char>, i: int) -> int
    decreases s.len() - i,
{
    if i < 0 || i >= s.len() {
        s.len() as int
    } else if is_separator(s[i]) {
        i
    } else {
        part_end(s, i + 1)
    }
}

/// A part that starts at `i` ends beyond `i` and within `s`.
pub proof fn lemma_part_end_bounds(s: Seq<char>, i: int)
    requires
        0 <= i < s.len(),
        !is_separator(s[i]),
    ensures
        i < part_end(s, i) <= s.len(),
    decreases s.len() - i,
{
    if i + 1 < s.len() && !is_separator(s[i + 1]) {
        lemma_part_end_bounds(s, i + 1);
    } else {
        assert(part_end(s, i + 1) == i + 1);
    }
}

/// `part` as it is compared under `rule`.
pub open spec fn ruled_part(part: Seq<char>, rule: PathRule) -> Seq<char> {
    Seq::new(part.len(), |k: int| ruled(part[k], rule))
}

/// The parts of the path `s` from position `i` on.
pub open spec fn parts_from(s: Seq<char>, i: int, rule: PathRule) -> Seq<Seq<char>>
    decreases s.len() - i,
{
    if i < 0 || i >= s.len() {
        Seq::empty()
    } else if is_separator(s[i]) {
        parts_from(s, i + 1, rule)
    } else {
        proof {
            lemma_part_end_bounds(s, i);
        }
        let end = part_end(s, i);
        let part = s.subrange(i, end);
        if part == seq!['.'] {
            parts_from(s, end, rule)
        } else {
            seq![ruled_part(part, rule)] + parts_from(s, end, rule)
        }
    }
}

/// The parts of a path.
pub open spec fn parts(s: Seq<char>, rule: PathRule) -> Seq<Seq<char>> {
    parts_from(s, 0, rule)
}

/// Whether a path starts at the root of the file system.
pub open spec fn is_rooted(s: Seq<char>) -> bool {
    s.len() > 0 && is_separator(s[0])
}

/// The texts of `v`, each as its sequence of characters.
pub open spec fn rows(v: Seq<Vec<char>>) -> Seq<Seq<char>> {
    Seq::new(v.len(), |i: int| v[i]@)
}

/// Whether the file at `path` lies in the directory `dir` or below it.
pub open spec fn lies_under(path: Seq<Seq<char>>, dir: Seq<Seq<char>>) -> bool {
    dir.is_prefix_of(path)
}

/// Whether `found`, a path as a coverage report writes it, names the file
/// that `file` names from the repository root `repo_root`.
pub open spec fn names_file(
    found: Seq<char>,
    repo_root: Seq<char>,
    file: Seq<char>,
    rule: PathRule,
) -> bool {
    is_rooted(found) == is_rooted(repo_root) && parts(found, rule) == parts(repo_root, rule)
        + parts(file, rule)
}

/// How many directories a coverage report lies below the package that it
/// belongs to: `<package>/results/unit/coverage/coverage-final.json`.
pub const REPORT_DEPTH: usize = 4;

/// The directory of the package that a coverage report belongs to, from the
/// repository root: the report's path without its last four parts and
/// without the root's. `None` where the report does not lie that deep below
/// the root.
pub open spec fn package_dir(report: Seq<char>, repo_root: Seq<char>, rule: PathRule) -> Option<
    Seq<Seq<char>>,
> {
    let file = parts(report, rule);
    let root = parts(repo_root, rule);
    if is_rooted(report) == is_rooted(repo_root) && root.len() + REPORT_DEPTH < file.len()
        && root.is_prefix_of(file) {
        Some(file.subrange(root.len() as int, file.len() - REPORT_DEPTH))
    } else {
        None
    }
}

/// The character by which `c` is compared under `rule`.
fn ruled_char(c: char, rule: &PathRule) -> (r: char)
    ensures
        r == ruled(c, *rule),
{
    let x: u32 = c as u32;
    if rule.ignore_case && 65 <= x && x <= 90 {
        ((x + 32) as u8) as char
    } else {
        c
    }
}

/// Whether `c` separates the parts of a path.
fn separator(c: char) -> (b: bool)
    ensures
        b == is_separator(c),
{
    c == '/' || c == '\\'
}

/// Cuts a path into its parts.
pub fn split_path(path: &str, rule: &PathRule) -> (r: Vec<Vec<char>>)
    ensures
        rows(r@) == parts(path@, *rule),
{
    let s = chars_of(path);
    let n = s.len();
    let mut out: Vec<Vec<char>> = Vec::new();
    let mut i: usize = 0;
    assert(rows(out@) + parts_from(s@, 0, *rule) == parts(s@, *rule));
    while i < n
        invariant
            i <= n == s.len(),
            rows(out@) + parts_from(s@, i as int, *rule) == parts(s@, *rule),
        decreases n - i,
    {
        if separator(s[i]) {
            i += 1;
        } else {
            let mut end: usize = i + 1;
            proof {
                lemma_part_end_bounds(s@, i as int);
            }
            while end < n && !separator(s[end])
                invariant
                    i < end <= n == s.len(),
                    part_end(s@, i as int) == part_end(s@, end as int),
                decreases n - end,
            {
                end += 1;
            }
            let ghost before = rows(out@);
            let ghost rest = parts_from(s@, i as int, *rule);
            if !(end == i + 1 && s[i] == '.') {
                let mut part: Vec<char> = Vec::new();
                let mut k: usize = i;
                while k < end
                    invariant
                        i <= k <= end <= n == s.len(),
                        part@.len() == k - i,
                        forall|j: int| 0 <= j < k - i ==> part@[j] == ruled(s@[i + j], *rule),
                    decreases end - k,
                {
                    part.push(ruled_char(s[k], rule));
                    k += 1;
                }
                assert(part@ == ruled_part(s@.subrange(i as int, end as int), *rule));
                assert(s@.subrange(i as int, end as int) != seq!['.']) by {
                    if end == i + 1 {
                        assert(s@.subrange(i as int, end as int)[0] != '.');
                    } else {
                        assert(s@.subrange(i as int, end as int).len() != 1);
                    }
                }
                out.push(part);
                assert(rows(out@) == before.push(part@));
                assert(rest == seq![part@] + parts_from(s@, end as int, *rule));
                assert(before.push(part@) + parts_from(s@, end as int, *rule) == before + rest);
            } else {
                assert(s@.subrange(i as int, end as int) == seq!['.']);
            }
            i = end;
        }
    }
    assert(rows(out@) + Seq::<Seq<char>>::empty() == rows(out@));
    out
}

/// Whether a path starts at the root of the file system.
pub fn rooted(path: &str) -> (b: bool)
    ensures
        b == is_rooted(path@),
{
    let s = chars_of(path);
    s.len() > 0 && separator(s[0])
}

/// Whether `a` from position `from` on starts with the parts of `b`.
pub fn parts_match(a: &Vec<Vec<char>>, from: usize, b: &Vec<Vec<char>>) -> (r: bool)
    requires
        from <= a.len(),
    ensures
        r == rows(b@).is_prefix_of(rows(a@).skip(from as int)),
{
    if b.len() > a.len() - from {
        return false;
    }
    let ghost rest = rows(a@).skip(from as int);
    let mut i: usize = 0;
    while i < b.len()
        invariant
            i <= b.len() <= a.len() - from,
            rest == rows(a@).skip(from as int),
            forall|j: int| 0 <= j < i ==> rest[j] == rows(b@)[j],
        decreases b.len() - i,
    {
        if !same(a[from + i].as_slice(), b[i].as_slice()) {
            assert(rest[i as int] != rows(b@)[i as int]);
            assert(rest.subrange(0, rows(b@).len() as int)[i as int] == rest[i as int]);
            return false;
        }
        i += 1;
    }
    assert(rest.subrange(0, rows(b@).len() as int) =~= rows(b@));
    true
}

/// Whether the file with the parts `path` lies in the directory `dir` or
/// below it.
pub fn is_under(path: &Vec<Vec<char>>, dir: &Vec<Vec<char>>) -> (r: bool)
    ensures
        r == lies_under(rows(path@), rows(dir@)),
{
    assert(rows(path@).skip(0) == rows(path@));
    parts_match(path, 0, dir)
}

/// Get the path of a package from the repository root, given the path of its
/// coverage report: [`package_dir`].
pub fn get_package_relative_path(
    coverage_file_path: &str,
    repo_root: &str,
    rule: &PathRule,
) -> (r: Option<Vec<Vec<char>>>)
    ensures
        r is Some == package_dir(coverage_file_path@, repo_root@, *rule) is Some,
        r matches Some(dir) ==> package_dir(coverage_file_path@, repo_root@, *rule) == Some(
            rows(dir@),
        ),
{
    let file = split_path(coverage_file_path, rule);
    let root = split_path(repo_root, rule);
    if rooted(coverage_file_path) != rooted(repo_root) {
        return None;
    }
    if file.len() <= REPORT_DEPTH || root.len() >= file.len() - REPORT_DEPTH {
        return None;
    }
    if !is_under(&file, &root) {
        return None;
    }
    let mut dir: Vec<Vec<char>> = Vec::new();
    let stop = file.len() - REPORT_DEPTH;
    let mut i: usize = root.len();
    while i < stop
        invariant
            root.len() <= i <= stop <= file.len(),
            rows(dir@) == rows(file@).subrange(root.len() as int, i as int),
        decreases stop - i,
    {
        let ghost before = rows(dir@);
        let part = slice_of(file[i].as_slice(), 0, file[i].len());
        assert(part@ == file@[i as int]@);
        dir.push(part);
        assert(rows(dir@) == before.push(file@[i as int]@));
        i += 1;
    }
    Some(dir)
}

/// Whether `found`, a path as a coverage report writes it, names the file
/// with the parts `file` below the repository root with the parts `root`.
pub fn names_same_file(
    found: &str,
    repo_root_is_rooted: bool,
    root: &Vec<Vec<char>>,
    file: &Vec<Vec<char>>,
    rule: &PathRule,
) -> (r: bool)
    ensures
        r == (is_rooted(found@) == repo_root_is_rooted && parts(found@, *rule) == rows(root@)
            + rows(file@)),
{
    if rooted(found) != repo_root_is_rooted {
        return false;
    }
    let path = split_path(found, rule);
    if path.len() < root.len() || path.len() - root.len() != file.len() {
        assert((rows(root@) + rows(file@)).len() != rows(path@).len());
        return false;
    }
    assert(rows(path@).skip(0) == rows(path@));
    let head = parts_match(&path, 0, root);
    let tail = parts_match(&path, root.len(), file);
    proof {
        let whole = rows(path@);
        let a = rows(root@);
        let b = rows(file@);
        if head && tail {
            assert(whole =~= a + b) by {
                assert forall|j: int| 0 <= j < whole.len() implies whole[j] == (a + b)[j] by {
                    if j < a.len() {
                        assert(whole.subrange(0, a.len() as int)[j] == whole[j]);
                    } else {
                        let rest = whole.skip(a.len() as int);
                        assert(rest.subrange(0, b.len() as int)[j - a.len()] == rest[j
                            - a.len()]);
                    }
                }
            }
        }
        if whole == a + b {
            assert(whole.subrange(0, a.len() as int) =~= a);
            assert(whole.skip(a.len() as int).subrange(0, b.len() as int) =~= b);
        }
    }
    head && tail
}

} // verus!
