//! The change model: what `git status --porcelain=v1` reports, read into
//! records with one status for the index and one for the worktree.

use crate::text::{chars_of, push_char, string_of, trim, trim_range};
use std::collections::HashSet;
use vstd::prelude::*;
use vstd::string::StringExecFns;

verus! {

/// The state of a path on one axis: the index against the last commit, or
/// the worktree against the index.
#[derive(Debug, Clone, Copy, PartialEq, Eq, Structural)]
pub enum Status {
    Unmodified,
    Modified,
    Added,
    Deleted,
    Renamed,
    Copied,
    Unmerged,
    Untracked,
    /// A glyph outside the table above, kept as it was read.
    Other(char),
}

impl Status {
    /// The status that a glyph of the report stands for.
    pub open spec fn of_char(c: char) -> Status {
        if c == ' ' {
            Status::Unmodified
        } else if c == 'M' {
            Status::Modified
        } else if c == 'A' {
            Status::Added
        } else if c == 'D' {
            Status::Deleted
        } else if c == 'R' {
            Status::Renamed
        } else if c == 'C' {
            Status::Copied
        } else if c == 'U' {
            Status::Unmerged
        } else if c == '?' {
            Status::Untracked
        } else {
            Status::Other(c)
        }
    }

    /// The glyph that the report writes for a status.
    pub open spec fn glyph(self) -> char {
        match self {
            Status::Unmodified => ' ',
            Status::Modified => 'M',
            Status::Added => 'A',
            Status::Deleted => 'D',
            Status::Renamed => 'R',
            Status::Copied => 'C',
            Status::Unmerged => 'U',
            Status::Untracked => '?',
            Status::Other(c) => c,
        }
    }

    /// A status that reading a glyph can give: `Other` never holds a glyph
    /// of the table.
    pub open spec fn canonical(self) -> bool {
        Status::of_char(self.glyph()) == self
    }

    /// Whether this status puts a path among the changes of its axis.
    pub open spec fn changed(self) -> bool {
        self != Status::Unmodified && self != Status::Untracked
    }

    /// Reads a glyph of the report. A glyph outside the table is kept in
    /// `Other`: none is refused.
    pub fn from_char(c: char) -> (s: Status)
        ensures
            s == Status::of_char(c),
    {
        match c {
            ' ' => Status::Unmodified,
            'M' => Status::Modified,
            'A' => Status::Added,
            'D' => Status::Deleted,
            'R' => Status::Renamed,
            'C' => Status::Copied,
            'U' => Status::Unmerged,
            '?' => Status::Untracked,
            _ => Status::Other(c),
        }
    }

    /// The glyph that stands for the status.
    pub fn as_char(&self) -> (c: char)
        ensures
            c == self.glyph(),
    {
        match self {
            Status::Unmodified => ' ',
            Status::Modified => 'M',
            Status::Added => 'A',
            Status::Deleted => 'D',
            Status::Renamed => 'R',
            Status::Copied => 'C',
            Status::Unmerged => 'U',
            Status::Untracked => '?',
            Status::Other(c) => *c,
        }
    }
}

/// Writing a status that was read gives back the glyph it was read from, and
/// what is read is canonical.
pub proof fn lemma_glyph_of_char(c: char)
    ensures
        Status::of_char(c).glyph() == c,
        Status::of_char(c).canonical(),
{
}

/// One changed path, as the contracts see it.
pub struct ChangedView {
    pub path: Seq<char>,
    pub index: Status,
    pub worktree: Status,
}

impl ChangedView {
    /// Staged: the index differs from the last commit.
    pub open spec fn is_staged(self) -> bool {
        self.index.changed()
    }

    /// Dirty: the file on disk differs from the index.
    pub open spec fn is_dirty(self) -> bool {
        self.worktree.changed()
    }

    /// The line that the report holds for the record: the two glyphs, a
    /// space, and the path.
    pub open spec fn line(self) -> Seq<char> {
        seq![self.index.glyph(), self.worktree.glyph(), ' '] + self.path
    }
}

/// One changed path. For a rename or a copy, `path` is where the file is now.
#[derive(Debug, Clone, PartialEq, Eq)]
pub struct Changed {
    pub path: String,
    pub index: Status,
    pub worktree: Status,
}

impl View for Changed {
    type V = ChangedView;

    open spec fn view(&self) -> ChangedView {
        ChangedView { path: self.path@, index: self.index, worktree: self.worktree }
    }
}

impl DeepView for Changed {
    type V = ChangedView;

    open spec fn deep_view(&self) -> ChangedView {
        self@
    }
}

impl Changed {
    /// Whether the index holds a change of this path: its status in the
    /// index is neither unmodified nor untracked.
    pub fn is_staged(&self) -> (b: bool)
        ensures
            b == self@.is_staged(),
    {
        match self.index {
            Status::Unmodified | Status::Untracked => false,
            _ => true,
        }
    }

    /// Whether the worktree holds a change of this path that the index
    /// does not: its status in the worktree is neither unmodified nor
    /// untracked.
    pub fn is_dirty(&self) -> (b: bool)
        ensures
            b == self@.is_dirty(),
    {
        match self.worktree {
            Status::Unmodified | Status::Untracked => false,
            _ => true,
        }
    }

    /// The record as a line of the report, as it is shown in the list.
    pub fn line(&self) -> (s: String)
        ensures
            s@ == self@.line(),
    {
        let mut s = String::new();
        push_char(&mut s, self.index.as_char());
        push_char(&mut s, self.worktree.as_char());
        push_char(&mut s, ' ');
        s.append(self.path.as_str());
        s
    }
}

/// Whether the separator `" -> "` of a rename or copy starts at `i` in `s`.
#[verifier::opaque]
pub open spec fn arrow_at(s: Seq<char>, i: int) -> bool {
    &&& 0 <= i
    &&& i + 4 <= s.len()
    &&& s[i] == ' '
    &&& s[i + 1] == '-'
    &&& s[i + 2] == '>'
    &&& s[i + 3] == ' '
}

/// Whether `s` holds a `" -> "`.
pub open spec fn has_arrow(s: Seq<char>) -> bool {
    exists|i: int| arrow_at(s, i)
}

/// Where the first `" -> "` of `s` starts, if it has one.
pub open spec fn first_arrow(s: Seq<char>) -> int {
    choose|i: int| arrow_at(s, i) && forall|j: int| 0 <= j < i ==> !arrow_at(s, j)
}

/// The path field without the source of a rename: what follows the first
/// `" -> "`, or the whole field where there is none.
pub open spec fn destination(field: Seq<char>) -> Seq<char> {
    if has_arrow(field) {
        field.skip(first_arrow(field) + 4)
    } else {
        field
    }
}

/// What one line of the report yields: nothing for a line of fewer than
/// four characters, else the two glyphs and the trimmed destination.
pub open spec fn record_of(line: Seq<char>) -> Option<ChangedView> {
    if line.len() < 4 {
        None
    } else {
        Some(
            ChangedView {
                path: trim(destination(line.skip(3))),
                index: Status::of_char(line[0]),
                worktree: Status::of_char(line[1]),
            },
        )
    }
}

/// The length of the first line of `s`: the place of its first line feed,
/// or its length.
pub open spec fn line_len(s: Seq<char>) -> int
    decreases s.len(),
{
    if s.len() == 0 || s.first() == '\n' {
        0
    } else {
        1 + line_len(s.drop_first())
    }
}

/// A line without the carriage return that may stand before its line feed.
pub open spec fn strip_cr(line: Seq<char>) -> Seq<char> {
    if line.len() > 0 && line.last() == '\r' {
        line.drop_last()
    } else {
        line
    }
}

/// The lines of a text. A line ends at a line feed, or at a carriage return
/// and a line feed; the last line needs no ending.
pub open spec fn lines(s: Seq<char>) -> Seq<Seq<char>>
    decreases s.len(),
{
    if s.len() == 0 {
        Seq::empty()
    } else {
        let n = line_len(s);
        if 0 <= n < s.len() {
            seq![strip_cr(s.take(n))] + lines(s.skip(n + 1))
        } else {
            seq![s]
        }
    }
}

/// The records of a sequence of lines, in the order of the lines.
pub open spec fn records_of(ls: Seq<Seq<char>>) -> Seq<ChangedView>
    decreases ls.len(),
{
    if ls.len() == 0 {
        Seq::empty()
    } else {
        match record_of(ls.first()) {
            Some(r) => seq![r] + records_of(ls.drop_first()),
            None => records_of(ls.drop_first()),
        }
    }
}

/// The records of a whole report.
pub open spec fn parse(text: Seq<char>) -> Seq<ChangedView> {
    records_of(lines(text))
}

proof fn lemma_line_len(s: Seq<char>, m: int)
    requires
        0 <= m <= s.len(),
        forall|k: int| 0 <= k < m ==> s[k] != '\n',
        m < s.len() ==> s[m] == '\n',
    ensures
        line_len(s) == m,
    decreases s.len(),
{
    if m > 0 {
        lemma_line_len(s.drop_first(), m - 1);
    }
}

/// The first `" -> "` is the one before which none starts.
pub proof fn lemma_first_arrow(s: Seq<char>, i: int)
    requires
        arrow_at(s, i),
        forall|j: int| 0 <= j < i ==> !arrow_at(s, j),
    ensures
        has_arrow(s),
        first_arrow(s) == i,
{
    reveal(arrow_at);
    let k = first_arrow(s);
    assert(arrow_at(s, k) && forall|j: int| 0 <= j < k ==> !arrow_at(s, j));
    if k < i {
        assert(!arrow_at(s, k));
    } else if i < k {
        assert(!arrow_at(s, i));
    }
}

/// Where the first `" -> "` of `v[lo..hi]` starts, counted from `lo`.
fn find_arrow(v: &Vec<char>, lo: usize, hi: usize) -> (r: Option<usize>)
    requires
        lo <= hi <= v.len(),
    ensures
        r is Some <==> has_arrow(v@.subrange(lo as int, hi as int)),
        r matches Some(i) ==> i == first_arrow(v@.subrange(lo as int, hi as int)) && i + 4 <= hi
            - lo,
{
    let ghost s = v@.subrange(lo as int, hi as int);
    if hi - lo < 4 {
        assert(!has_arrow(s)) by {
            reveal(arrow_at);
        }
        return None;
    }
    let mut i: usize = lo;
    while i <= hi - 4
        invariant
            lo <= i,
            lo + 4 <= hi <= v.len(),
            i + 3 <= hi,
            s == v@.subrange(lo as int, hi as int),
            forall|j: int| 0 <= j < i - lo ==> !arrow_at(s, j),
        decreases hi - i,
    {
        let here = v[i] == ' ' && v[i + 1] == '-' && v[i + 2] == '>' && v[i + 3] == ' ';
        assert(here == arrow_at(s, i - lo)) by {
            reveal(arrow_at);
        }
        if here {
            proof {
                lemma_first_arrow(s, i - lo);
            }
            return Some(i - lo);
        }
        i += 1;
    }
    assert forall|j: int| !arrow_at(s, j) by {
        reveal(arrow_at);
    }
    None
}

/// Where the destination of the path field `v[lo..hi]` starts in `v`.
fn destination_start(v: &Vec<char>, lo: usize, hi: usize) -> (start: usize)
    requires
        lo <= hi <= v.len(),
    ensures
        lo <= start <= hi,
        v@.subrange(start as int, hi as int) == destination(v@.subrange(lo as int, hi as int)),
{
    match find_arrow(v, lo, hi) {
        Some(i) => {
            assert(v@.subrange(lo as int, hi as int).skip(i + 4) == v@.subrange(
                lo + i + 4,
                hi as int,
            ));
            lo + i + 4
        },
        None => lo,
    }
}

/// Reads the line `v[lo..hi]`.
fn read_line(v: &Vec<char>, lo: usize, hi: usize) -> (r: Option<Changed>)
    requires
        lo <= hi <= v.len(),
    ensures
        r.deep_view() == record_of(v@.subrange(lo as int, hi as int)),
{
    if hi - lo < 4 {
        return None;
    }
    assert(v@.subrange(lo as int, hi as int).skip(3) == v@.subrange(lo + 3, hi as int));
    let start = destination_start(v, lo + 3, hi);
    let (a, b) = trim_range(v, start, hi);
    let path = string_of(v, a, b);
    Some(Changed { path, index: Status::from_char(v[lo]), worktree: Status::from_char(v[lo + 1]) })
}

/// Reads one line of the report.
pub fn parse_line(line: &str) -> (r: Option<Changed>)
    ensures
        r.deep_view() == record_of(line@),
{
    let v = chars_of(line);
    assert(v@.subrange(0, v@.len() as int) == v@);
    read_line(&v, 0, v.len())
}

/// Reads the report of `git status --porcelain=v1` into records, one for
/// each line of four characters or more, in the order of the lines.
pub fn get_changed_files(output: &str) -> (files: Vec<Changed>)
    ensures
        files.deep_view() == parse(output@),
{
    let text = chars_of(output);
    let n = text.len();
    let mut files: Vec<Changed> = Vec::new();
    let mut pos: usize = 0;
    assert(text@.skip(0) == text@);
    while pos < n
        invariant
            pos <= n == text.len(),
            text@ == output@,
            files.deep_view() + parse(text@.skip(pos as int)) == parse(text@),
        decreases n - pos,
    {
        let ghost rest = text@.skip(pos as int);
        let ghost before = files.deep_view();
        let mut end: usize = pos;
        while end < n && text[end] != '\n'
            invariant
                pos <= end <= n == text.len(),
                forall|k: int| pos <= k < end ==> text@[k] != '\n',
            decreases n - end,
        {
            end += 1;
        }
        proof {
            lemma_line_len(rest, end - pos);
        }
        let mut stop: usize = end;
        let mut next: usize = end;
        if end < n {
            next = end + 1;
            if end > pos && text[end - 1] == '\r' {
                stop = end - 1;
            }
        }
        let ghost line = text@.subrange(pos as int, stop as int);
        proof {
            assert(rest.take(end - pos) == text@.subrange(pos as int, end as int));
            if end < n {
                assert(line == strip_cr(rest.take(end - pos)));
                assert(rest.skip(end - pos + 1) == text@.skip(next as int));
                assert(lines(rest) == seq![line] + lines(text@.skip(next as int)));
            } else {
                assert(line == rest);
                assert(text@.skip(next as int) == Seq::<char>::empty());
                assert(lines(rest) == seq![line] + lines(text@.skip(next as int)));
            }
            let ls = lines(rest);
            assert(ls.first() == line);
            assert(ls.drop_first() == lines(text@.skip(next as int)));
        }
        match read_line(&text, pos, stop) {
            Some(r) => {
                files.push(r);
                assert(files.deep_view() == before + seq![r.deep_view()]);
            },
            None => {},
        }
        pos = next;
    }
    assert(parse(text@.skip(n as int)) == Seq::<ChangedView>::empty());
    files
}

/// The places in a list of records whose record is staged.
pub open spec fn staged_positions(files: Seq<ChangedView>) -> Set<usize> {
    Set::new(|i: usize| i < files.len() && files[i as int].is_staged())
}

/// Whether any record of the list is staged.
pub open spec fn any_staged(files: Seq<ChangedView>) -> bool {
    exists|i: int| 0 <= i < files.len() && #[trigger] files[i].is_staged()
}

/// A list holds a staged record exactly where it has a staged place. The
/// list is one that fits in memory.
pub proof fn lemma_staged_positions(files: Seq<ChangedView>)
    requires
        files.len() <= usize::MAX,
    ensures
        any_staged(files) <==> staged_positions(files) != Set::<usize>::empty(),
{
    if any_staged(files) {
        let i = choose|i: int| 0 <= i < files.len() && #[trigger] files[i].is_staged();
        assert(staged_positions(files).contains(i as usize));
    }
    if staged_positions(files) != Set::<usize>::empty() {
        assert(!(staged_positions(files) =~= Set::<usize>::empty()));
        let k = choose|k: usize| staged_positions(files).contains(k);
        assert(files[k as int].is_staged());
    }
}

/// The places in `files` whose record is staged.
pub fn staged_indices(files: &Vec<Changed>) -> (staged: HashSet<usize>)
    ensures
        staged@ == staged_positions(files.deep_view()),
{
    broadcast use vstd::std_specs::hash::group_hash_axioms;

    let mut staged: HashSet<usize> = HashSet::new();
    let mut i: usize = 0;
    while i < files.len()
        invariant
            i <= files.len(),
            staged@ == Set::new(
                |k: usize| k < i && k < files.len() && files.deep_view()[k as int].is_staged(),
            ),
        decreases files.len() - i,
    {
        if files[i].is_staged() {
            staged.insert(i);
        }
        i += 1;
    }
    staged
}

/// The places, among the records of a report, of those that are staged.
pub fn get_staged_indices(output: &str) -> (staged: HashSet<usize>)
    ensures
        staged@ == staged_positions(parse(output@)),
{
    let files = get_changed_files(output);
    staged_indices(&files)
}

/// The name of the branch, from the output of `git branch --show-current`:
/// the output without the whitespace around it. It is empty on a detached
/// head.
pub fn get_current_branch(output: &str) -> (branch: String)
    ensures
        branch@ == trim(output@),
{
    let v = chars_of(output);
    let (a, b) = trim_range(&v, 0, v.len());
    assert(v@.subrange(0, v@.len() as int) == v@);
    string_of(&v, a, b)
}

/// The separator between the source and the destination of a rename.
pub open spec fn arrow() -> Seq<char> {
    seq![' ', '-', '>', ' ']
}

/// The three characters before the path field: the two glyphs and the
/// character at offset 2, which is not looked at.
pub open spec fn prefix(x: char, y: char, gap: char) -> Seq<char> {
    seq![x, y, gap]
}

/// A line that holds a path field without `" -> "` yields the trimmed field
/// as its path, and the statuses of its two glyphs.
pub proof fn lemma_record_plain(x: char, y: char, gap: char, field: Seq<char>)
    requires
        field.len() >= 1,
        !has_arrow(field),
    ensures
        record_of(prefix(x, y, gap) + field) == Some(
            ChangedView {
                path: trim(field),
                index: Status::of_char(x),
                worktree: Status::of_char(y),
            },
        ),
{
    let line = prefix(x, y, gap) + field;
    assert(line.skip(3) == field);
}

/// Whether `->` starts at `j` in `s`.
pub open spec fn tip_at(s: Seq<char>, j: int) -> bool {
    0 <= j && j + 2 <= s.len() && s[j] == '-' && s[j + 1] == '>'
}

/// A line that holds a rename, `old -> new`, yields the trimmed destination
/// as its path: the source is dropped. The source is one that holds no `->`.
pub proof fn lemma_record_rename(x: char, y: char, gap: char, old_path: Seq<char>, new_path: Seq<char>)
    requires
        forall|j: int| !tip_at(old_path, j),
    ensures
        record_of(prefix(x, y, gap) + old_path + arrow() + new_path) == Some(
            ChangedView {
                path: trim(new_path),
                index: Status::of_char(x),
                worktree: Status::of_char(y),
            },
        ),
{
    let field = old_path + arrow() + new_path;
    let line = prefix(x, y, gap) + old_path + arrow() + new_path;
    let n = old_path.len() as int;
    assert(line == prefix(x, y, gap) + field);
    assert(line.skip(3) == field);
    lemma_arrow_after(old_path, new_path);
    assert(field.skip(n + 4) == new_path);
}

/// In `old -> new`, where the source holds no `->`, the first `" -> "` is
/// the one written between the two.
proof fn lemma_arrow_after(old_path: Seq<char>, new_path: Seq<char>)
    requires
        forall|j: int| !tip_at(old_path, j),
    ensures
        has_arrow(old_path + arrow() + new_path),
        first_arrow(old_path + arrow() + new_path) == old_path.len(),
{
    let field = old_path + arrow() + new_path;
    let n = old_path.len() as int;
    assert(arrow_at(field, n)) by {
        reveal(arrow_at);
    }
    assert forall|j: int| 0 <= j < n implies !arrow_at(field, j) by {
        reveal(arrow_at);
        if j + 2 < n {
            assert(!tip_at(old_path, j + 1));
            assert(field[j + 1] == old_path[j + 1]);
            assert(field[j + 2] == old_path[j + 2]);
        } else if j + 2 == n {
            assert(field[j + 2] == ' ');
        } else {
            assert(field[j + 1] == ' ');
        }
    }
    lemma_first_arrow(field, n);
}

/// A text of one line, with no line feed in it, yields what the line yields.
pub proof fn lemma_parse_one_line(line: Seq<char>)
    requires
        forall|k: int| 0 <= k < line.len() ==> line[k] != '\n',
    ensures
        parse(line) == match record_of(line) {
            Some(r) => seq![r],
            None => Seq::empty(),
        },
{
    if line.len() > 0 {
        lemma_line_len(line, line.len() as int);
        let ls = lines(line);
        assert(ls == seq![line]);
        assert(ls.first() == line);
        assert(ls.drop_first() == Seq::<Seq<char>>::empty());
        assert(records_of(ls.drop_first()) == Seq::<ChangedView>::empty());
    }
}

/// The records come in the order of the lines: a text that starts with a
/// line and its line feed yields the record of that line, if it has one,
/// and then the records of the rest.
pub proof fn lemma_parse_first_line(line: Seq<char>, rest: Seq<char>)
    requires
        forall|k: int| 0 <= k < line.len() ==> line[k] != '\n',
    ensures
        parse(line + seq!['\n'] + rest) == parse(strip_cr(line)) + parse(rest),
{
    let text = line + seq!['\n'] + rest;
    let n = line.len() as int;
    lemma_line_len(text, n);
    assert(text.take(n) == line);
    assert(text.skip(n + 1) == rest);
    let ls = lines(text);
    assert(ls == seq![strip_cr(line)] + lines(rest));
    assert(ls.first() == strip_cr(line));
    assert(ls.drop_first() == lines(rest));
    assert forall|k: int| 0 <= k < strip_cr(line).len() implies strip_cr(line)[k] != '\n' by {
        assert(strip_cr(line)[k] == line[k]);
    }
    lemma_parse_one_line(strip_cr(line));
}

/// Reading the line of a record gives the record back, for a record that
/// reading can give: its statuses are canonical, and its path is not
/// empty, is trimmed and holds no `" -> "`.
pub proof fn lemma_line_round_trip(r: ChangedView)
    requires
        r.index.canonical(),
        r.worktree.canonical(),
        r.path.len() >= 1,
        trim(r.path) == r.path,
        !has_arrow(r.path),
    ensures
        record_of(r.line()) == Some(r),
{
    lemma_record_plain(r.index.glyph(), r.worktree.glyph(), ' ', r.path);
}

/// A record that a line of a report can hold and give back: its statuses
/// are canonical and no line feed, and its path is not empty, is trimmed,
/// and holds neither `" -> "` nor a line feed.
pub open spec fn writable(r: ChangedView) -> bool {
    &&& r.index.canonical()
    &&& r.worktree.canonical()
    &&& r.index.glyph() != '\n'
    &&& r.worktree.glyph() != '\n'
    &&& r.path.len() >= 1
    &&& trim(r.path) == r.path
    &&& !has_arrow(r.path)
    &&& forall|k: int| 0 <= k < r.path.len() ==> r.path[k] != '\n'
}

/// The report that holds the given records: the line of each, with a line
/// feed after it.
pub open spec fn report_of(files: Seq<ChangedView>) -> Seq<char>
    decreases files.len(),
{
    if files.len() == 0 {
        Seq::empty()
    } else {
        files.first().line() + seq!['\n'] + report_of(files.drop_first())
    }
}

/// Reading is the inverse of writing: the report of a list of records
/// reads back as that list.
pub proof fn lemma_report_round_trip(files: Seq<ChangedView>)
    requires
        forall|i: int| 0 <= i < files.len() ==> writable(#[trigger] files[i]),
    ensures
        parse(report_of(files)) == files,
    decreases files.len(),
{
    if files.len() > 0 {
        let r = files.first();
        let line = r.line();
        let rest = files.drop_first();
        assert(writable(files[0]));
        assert forall|i: int| 0 <= i < rest.len() implies writable(#[trigger] rest[i]) by {
            assert(rest[i] == files[i + 1]);
        }
        lemma_report_round_trip(rest);
        assert forall|k: int| 0 <= k < line.len() implies line[k] != '\n' by {
            if k >= 3 {
                assert(line[k] == r.path[k - 3]);
            }
        }
        crate::text::lemma_trim_bare(r.path);
        assert(line.last() == r.path.last());
        assert(strip_cr(line) == line);
        lemma_parse_first_line(line, report_of(rest));
        lemma_parse_one_line(line);
        lemma_line_round_trip(r);
        assert(seq![r] + rest == files);
    } else {
        assert(lines(report_of(files)) == Seq::<Seq<char>>::empty());
    }
}

} // verus!
