//! Lines of code: source, physical, logical, comment and blank lines.

use vstd::prelude::*;
use std::collections::HashSet;
use crate::langs::LANG;
use crate::languages::language_go;
use crate::languages::language_python;
use crate::languages::language_rust;
use crate::languages::language_tsx;
use crate::languages::language_typescript;
use crate::metrics::{max_of, max_u64, min_of, min_u64, report_min, reported_min, Ratio, NO_MIN};
use crate::node::{has_child_kind_from, node_ok, Node, Tree, MAX_ROW};

verus! {

/// The `SLoc` metric suite.
#[derive(Debug, Clone, Copy)]
pub struct Sloc {
    /// Row on which the scope starts.
    pub start: usize,
    /// Row on which the scope ends.
    pub end: usize,
    /// Whether the scope is a whole file.
    pub unit: bool,
    /// Fewest source lines of a single scope.
    pub sloc_min: u64,
    /// Most source lines of a single scope.
    pub sloc_max: u64,
}

impl Default for Sloc {
    fn default() -> (s: Self)
        ensures
            s == (Sloc { start: 0, end: 0, unit: false, sloc_min: NO_MIN, sloc_max: 0 }),
    {
        Sloc { start: 0, end: 0, unit: false, sloc_min: NO_MIN, sloc_max: 0 }
    }
}

impl Sloc {
    /// Whether the rows are in order and in range.
    pub open spec fn wf(self) -> bool {
        self.start <= self.end <= MAX_ROW
    }

    /// The number of lines of the scope: the rows it spans, and for a scope
    /// inside a file the line of its header as well.
    pub open spec fn value(self) -> u64 {
        if self.unit {
            (self.end - self.start) as u64
        } else {
            (self.end - self.start + 1) as u64
        }
    }

    /// The statistics after a sealed scope `other` was merged in: its
    /// extremes, which cover all scopes inside it, enter those of this scope.
    pub open spec fn merged(self, other: Sloc) -> Sloc {
        Sloc {
            sloc_min: min_of(self.sloc_min, other.sloc_min),
            sloc_max: max_of(self.sloc_max, other.sloc_max),
            ..self
        }
    }

    /// The statistics after the scope was sealed: its own count enters the
    /// extremes, which so far held those of the scopes inside it.
    pub open spec fn sealed(self) -> Sloc {
        Sloc {
            sloc_min: min_of(self.sloc_min, self.value()),
            sloc_max: max_of(self.sloc_max, self.value()),
            ..self
        }
    }

    /// The number of lines of the scope.
    pub fn sloc(&self) -> (r: u64)
        requires
            self.wf(),
        ensures
            r == self.value(),
    {
        // The line of a function's header counts for the function
        if self.unit {
            (self.end - self.start) as u64
        } else {
            ((self.end - self.start) + 1) as u64
        }
    }

    /// The `Sloc` metric minimum value, if any scope was sealed.
    pub fn sloc_min(&self) -> (r: Option<u64>)
        ensures
            r == reported_min(self.sloc_min),
    {
        report_min(self.sloc_min)
    }

    /// The `Sloc` metric maximum value.
    pub fn sloc_max(&self) -> (r: u64)
        ensures
            r == self.sloc_max,
    {
        self.sloc_max
    }

    /// Merges a sealed scope into this one.
    pub fn merge(&mut self, other: &Sloc)
        ensures
            *final(self) == old(self).merged(*other),
    {
        self.sloc_min = min_u64(self.sloc_min, other.sloc_min);
        self.sloc_max = max_u64(self.sloc_max, other.sloc_max);
    }

    /// Seals the scope.
    pub fn compute_minmax(&mut self)
        requires
            old(self).wf(),
        ensures
            *final(self) == old(self).sealed(),
    {
        let own = self.sloc();
        self.sloc_min = min_u64(self.sloc_min, own);
        self.sloc_max = max_u64(self.sloc_max, own);
    }
}

/// The `PLoc` metric suite.
#[derive(Debug)]
pub struct Ploc {
    /// The rows on which code starts.
    pub lines: HashSet<usize>,
    /// Fewest physical lines of a single scope.
    pub ploc_min: u64,
    /// Most physical lines of a single scope.
    pub ploc_max: u64,
}

/// What a `Ploc` stands for.
pub struct PlocView {
    /// The rows on which code starts.
    pub lines: Set<usize>,
    /// Fewest physical lines of a single scope.
    pub ploc_min: u64,
    /// Most physical lines of a single scope.
    pub ploc_max: u64,
}

impl View for Ploc {
    type V = PlocView;

    open spec fn view(&self) -> PlocView {
        PlocView { lines: self.lines@, ploc_min: self.ploc_min, ploc_max: self.ploc_max }
    }
}

impl Default for Ploc {
    fn default() -> (s: Self)
        ensures
            s.wf(),
            s@ == (PlocView { lines: Set::<usize>::empty(), ploc_min: NO_MIN, ploc_max: 0 }),
    {
        Ploc { lines: HashSet::new(), ploc_min: NO_MIN, ploc_max: 0 }
    }
}

impl PlocView {
    /// The number of rows on which code starts.
    pub open spec fn value(self) -> u64 {
        self.lines.len() as u64
    }

    /// The statistics after a sealed scope `other` was merged in: its rows
    /// are rows of this scope too.
    pub open spec fn merged(self, other: PlocView) -> PlocView {
        PlocView {
            lines: self.lines.union(other.lines),
            ploc_min: min_of(self.ploc_min, other.ploc_min),
            ploc_max: max_of(self.ploc_max, other.ploc_max),
        }
    }

    /// The statistics after the scope was sealed.
    pub open spec fn sealed(self) -> PlocView {
        PlocView {
            ploc_min: min_of(self.ploc_min, self.value()),
            ploc_max: max_of(self.ploc_max, self.value()),
            ..self
        }
    }
}

impl Ploc {
    /// Whether the rows are finitely many.
    pub open spec fn wf(&self) -> bool {
        self.lines@.finite()
    }

    /// The number of rows on which code starts.
    pub fn ploc(&self) -> (r: u64)
        ensures
            r == self@.value(),
            r == self@.lines.len(),
    {
        broadcast use vstd::std_specs::hash::group_hash_axioms;

        self.lines.len() as u64
    }

    /// The `Ploc` metric minimum value, if any scope was sealed.
    pub fn ploc_min(&self) -> (r: Option<u64>)
        ensures
            r == reported_min(self.ploc_min),
    {
        report_min(self.ploc_min)
    }

    /// The `Ploc` metric maximum value.
    pub fn ploc_max(&self) -> (r: u64)
        ensures
            r == self.ploc_max,
    {
        self.ploc_max
    }

    /// Tells whether code starts on `line`.
    pub fn contains(&self, line: usize) -> (r: bool)
        ensures
            r == self@.lines.contains(line),
    {
        broadcast use vstd::std_specs::hash::group_hash_axioms;

        self.lines.contains(&line)
    }

    /// Records that code starts on `line`.
    pub fn insert(&mut self, line: usize)
        requires
            old(self).wf(),
        ensures
            final(self).wf(),
            final(self)@ == (PlocView { lines: old(self)@.lines.insert(line), ..old(self)@ }),
    {
        broadcast use vstd::std_specs::hash::group_hash_axioms;

        self.lines.insert(line);
    }

    /// Merges a sealed scope into this one.
    pub fn merge(&mut self, other: &Ploc)
        requires
            old(self).wf(),
            other.wf(),
        ensures
            final(self).wf(),
            final(self)@ == old(self)@.merged(other@),
    {
        broadcast use vstd::std_specs::hash::group_hash_axioms;
        // Merge ploc lines

        assert(old(self).lines@.union(Seq::<usize>::empty().to_set()) =~= old(self).lines@);
        assert(forall|q: Seq<usize>| #[trigger] q.take(q.len() as int) =~= q);
        for l in it: other.lines.iter()
            invariant
                self.ploc_min == old(self).ploc_min,
                self.ploc_max == old(self).ploc_max,
                self.lines@.finite(),
                it.seq().unref().to_set() == other.lines@,
                self.lines@ == old(self).lines@.union(
                    it.seq().unref().take(it.index()).to_set(),
                ),
                it.seq().unref().take(it.seq().len() as int) == it.seq().unref(),
        {
            proof {
                let all = it.seq().unref();
                let k = it.index();
                assert(all.take(k + 1) =~= all.take(k).push(all[k]));
                all.take(k).lemma_push_to_set_commute(all[k]);
                assert(old(self).lines@.union(all.take(k).to_set()).insert(all[k]) =~= old(
                    self,
                ).lines@.union(all.take(k + 1).to_set()));
            }
            self.lines.insert(*l);
        }
        self.ploc_min = min_u64(self.ploc_min, other.ploc_min);
        self.ploc_max = max_u64(self.ploc_max, other.ploc_max);
    }

    /// Seals the scope.
    pub fn compute_minmax(&mut self)
        requires
            old(self).wf(),
        ensures
            final(self).wf(),
            final(self)@ == old(self)@.sealed(),
    {
        let own = self.ploc();
        self.ploc_min = min_u64(self.ploc_min, own);
        self.ploc_max = max_u64(self.ploc_max, own);
    }
}

/// The `CLoc` metric suite.
#[derive(Debug, Clone, Copy)]
pub struct Cloc {
    /// Lines that hold a comment and nothing else.
    pub only_comment_lines: u64,
    /// Lines that hold code and a comment.
    pub code_comment_lines: u64,
    /// The row on which the last comment on lines of its own ended.
    pub comment_line_end: Option<usize>,
    /// Fewest comment lines of a single scope.
    pub cloc_min: u64,
    /// Most comment lines of a single scope.
    pub cloc_max: u64,
}

impl Default for Cloc {
    fn default() -> (s: Self)
        ensures
            s == (Cloc {
                only_comment_lines: 0,
                code_comment_lines: 0,
                comment_line_end: None,
                cloc_min: NO_MIN,
                cloc_max: 0,
            }),
    {
        Cloc {
            only_comment_lines: 0,
            code_comment_lines: 0,
            comment_line_end: None,
            cloc_min: NO_MIN,
            cloc_max: 0,
        }
    }
}

impl Cloc {
    /// Whether the number of comment lines fits the counters.
    pub open spec fn wf(self) -> bool {
        self.only_comment_lines + self.code_comment_lines <= u64::MAX
    }

    /// The number of comment lines, wherever the comments stand.
    pub open spec fn value(self) -> u64 {
        (self.only_comment_lines + self.code_comment_lines) as u64
    }

    /// The statistics after a sealed scope `other` was merged in.
    pub open spec fn merged(self, other: Cloc) -> Cloc {
        Cloc {
            only_comment_lines: (self.only_comment_lines + other.only_comment_lines) as u64,
            code_comment_lines: (self.code_comment_lines + other.code_comment_lines) as u64,
            comment_line_end: self.comment_line_end,
            cloc_min: min_of(self.cloc_min, other.cloc_min),
            cloc_max: max_of(self.cloc_max, other.cloc_max),
        }
    }

    /// Whether `other` can be merged in without leaving the range of the counters.
    pub open spec fn can_merge(self, other: Cloc) -> bool {
        self.only_comment_lines + other.only_comment_lines + self.code_comment_lines
            + other.code_comment_lines <= u64::MAX
    }

    /// The statistics after the scope was sealed.
    pub open spec fn sealed(self) -> Cloc {
        Cloc {
            cloc_min: min_of(self.cloc_min, self.value()),
            cloc_max: max_of(self.cloc_max, self.value()),
            ..self
        }
    }

    /// The number of comment lines.
    pub fn cloc(&self) -> (r: u64)
        requires
            self.wf(),
        ensures
            r == self.value(),
    {
        // Comments are counted regardless of their placement
        self.only_comment_lines + self.code_comment_lines
    }

    /// The `Cloc` metric minimum value, if any scope was sealed.
    pub fn cloc_min(&self) -> (r: Option<u64>)
        ensures
            r == reported_min(self.cloc_min),
    {
        report_min(self.cloc_min)
    }

    /// The `Cloc` metric maximum value.
    pub fn cloc_max(&self) -> (r: u64)
        ensures
            r == self.cloc_max,
    {
        self.cloc_max
    }

    /// Merges a sealed scope into this one.
    pub fn merge(&mut self, other: &Cloc)
        requires
            old(self).can_merge(*other),
        ensures
            *final(self) == old(self).merged(*other),
            final(self).wf(),
    {
        // Merge cloc lines
        self.only_comment_lines = self.only_comment_lines + other.only_comment_lines;
        self.code_comment_lines = self.code_comment_lines + other.code_comment_lines;
        self.cloc_min = min_u64(self.cloc_min, other.cloc_min);
        self.cloc_max = max_u64(self.cloc_max, other.cloc_max);
    }

    /// Seals the scope.
    pub fn compute_minmax(&mut self)
        requires
            old(self).wf(),
        ensures
            *final(self) == old(self).sealed(),
    {
        let own = self.cloc();
        self.cloc_min = min_u64(self.cloc_min, own);
        self.cloc_max = max_u64(self.cloc_max, own);
    }
}

/// The `LLoc` metric suite.
#[derive(Debug, Clone, Copy)]
pub struct Lloc {
    /// Number of statements.
    pub logical_lines: u64,
    /// Fewest logical lines of a single scope.
    pub lloc_min: u64,
    /// Most logical lines of a single scope.
    pub lloc_max: u64,
}

impl Default for Lloc {
    fn default() -> (s: Self)
        ensures
            s == (Lloc { logical_lines: 0, lloc_min: NO_MIN, lloc_max: 0 }),
    {
        Lloc { logical_lines: 0, lloc_min: NO_MIN, lloc_max: 0 }
    }
}

impl Lloc {
    /// The statistics after a sealed scope `other` was merged in.
    pub open spec fn merged(self, other: Lloc) -> Lloc {
        Lloc {
            logical_lines: (self.logical_lines + other.logical_lines) as u64,
            lloc_min: min_of(self.lloc_min, other.lloc_min),
            lloc_max: max_of(self.lloc_max, other.lloc_max),
        }
    }

    /// The statistics after the scope was sealed.
    pub open spec fn sealed(self) -> Lloc {
        Lloc {
            lloc_min: min_of(self.lloc_min, self.logical_lines),
            lloc_max: max_of(self.lloc_max, self.logical_lines),
            ..self
        }
    }

    /// The number of statements.
    pub fn lloc(&self) -> (r: u64)
        ensures
            r == self.logical_lines,
    {
        self.logical_lines
    }

    /// The `Lloc` metric minimum value, if any scope was sealed.
    pub fn lloc_min(&self) -> (r: Option<u64>)
        ensures
            r == reported_min(self.lloc_min),
    {
        report_min(self.lloc_min)
    }

    /// The `Lloc` metric maximum value.
    pub fn lloc_max(&self) -> (r: u64)
        ensures
            r == self.lloc_max,
    {
        self.lloc_max
    }

    /// Merges a sealed scope into this one.
    pub fn merge(&mut self, other: &Lloc)
        requires
            old(self).logical_lines + other.logical_lines <= u64::MAX,
        ensures
            *final(self) == old(self).merged(*other),
    {
        // Merge lloc lines
        self.logical_lines = self.logical_lines + other.logical_lines;
        self.lloc_min = min_u64(self.lloc_min, other.lloc_min);
        self.lloc_max = max_u64(self.lloc_max, other.lloc_max);
    }

    /// Seals the scope.
    pub fn compute_minmax(&mut self)
        ensures
            *final(self) == old(self).sealed(),
    {
        let own = self.lloc();
        self.lloc_min = min_u64(self.lloc_min, own);
        self.lloc_max = max_u64(self.lloc_max, own);
    }
}


/// The `Loc` metric suite.
#[derive(Debug)]
pub struct Stats {
    /// Source lines.
    pub sloc: Sloc,
    /// Physical lines.
    pub ploc: Ploc,
    /// Comment lines.
    pub cloc: Cloc,
    /// Logical lines.
    pub lloc: Lloc,
    /// Number of scopes counted.
    pub space_count: u64,
    /// Fewest blank lines of a single scope.
    pub blank_min: u64,
    /// Most blank lines of a single scope.
    pub blank_max: u64,
}

/// What a `Stats` stands for.
pub struct StatsView {
    /// Source lines.
    pub sloc: Sloc,
    /// Physical lines.
    pub ploc: PlocView,
    /// Comment lines.
    pub cloc: Cloc,
    /// Logical lines.
    pub lloc: Lloc,
    /// Number of scopes counted.
    pub space_count: u64,
    /// Fewest blank lines of a single scope.
    pub blank_min: u64,
    /// Most blank lines of a single scope.
    pub blank_max: u64,
}

impl View for Stats {
    type V = StatsView;

    open spec fn view(&self) -> StatsView {
        StatsView {
            sloc: self.sloc,
            ploc: self.ploc@,
            cloc: self.cloc,
            lloc: self.lloc,
            space_count: self.space_count,
            blank_min: self.blank_min,
            blank_max: self.blank_max,
        }
    }
}

/// The statistics of a scope in which nothing was seen yet.
pub open spec fn initial() -> StatsView {
    StatsView {
        sloc: Sloc { start: 0, end: 0, unit: false, sloc_min: NO_MIN, sloc_max: 0 },
        ploc: PlocView { lines: Set::<usize>::empty(), ploc_min: NO_MIN, ploc_max: 0 },
        cloc: Cloc {
            only_comment_lines: 0,
            code_comment_lines: 0,
            comment_line_end: None,
            cloc_min: NO_MIN,
            cloc_max: 0,
        },
        lloc: Lloc { logical_lines: 0, lloc_min: NO_MIN, lloc_max: 0 },
        space_count: 1,
        blank_min: NO_MIN,
        blank_max: 0,
    }
}

impl Default for Stats {
    fn default() -> (s: Self)
        ensures
            s.wf(),
            s@ == initial(),
    {
        Stats {
            sloc: Sloc::default(),
            ploc: Ploc::default(),
            cloc: Cloc::default(),
            lloc: Lloc::default(),
            space_count: 1,
            blank_min: NO_MIN,
            blank_max: 0,
        }
    }
}

/// What a node is to the line counts.
#[derive(Clone, Copy, Debug, PartialEq, Eq, Structural)]
pub enum LineRole {
    /// Neither a line of its own nor the mark of one.
    Skip,
    /// A comment.
    Comment,
    /// A statement.
    Logical,
    /// Code that starts a physical line.
    Code,
}

/// The largest number of lines a single node can add to a counter.
pub const MAX_SPAN: u64 = 0x1_0000_0000;

impl StatsView {
    /// The number of blank lines: source lines that hold neither code nor
    /// only a comment. Below zero where the tree lists more than its rows hold.
    pub open spec fn blank_value(self) -> int {
        self.sloc.value() - self.ploc.value() - self.cloc.only_comment_lines
    }

    /// The number of blank lines as it enters the extremes: never below zero.
    pub open spec fn blank_floor(self) -> u64 {
        if self.blank_value() < 0 {
            0
        } else {
            self.blank_value() as u64
        }
    }

    /// The statistics after a sealed scope `other` was merged in.
    pub open spec fn merged(self, other: StatsView) -> StatsView {
        StatsView {
            sloc: self.sloc.merged(other.sloc),
            ploc: self.ploc.merged(other.ploc),
            cloc: self.cloc.merged(other.cloc),
            lloc: self.lloc.merged(other.lloc),
            space_count: (self.space_count + other.space_count) as u64,
            blank_min: min_of(self.blank_min, other.blank_min),
            blank_max: max_of(self.blank_max, other.blank_max),
        }
    }

    /// Whether `other` can be merged in without leaving the range of the counters.
    pub open spec fn can_merge(self, other: StatsView) -> bool {
        &&& self.cloc.can_merge(other.cloc)
        &&& self.lloc.logical_lines + other.lloc.logical_lines <= u64::MAX
        &&& self.space_count + other.space_count <= u64::MAX
    }

    /// The statistics after the scope was sealed.
    pub open spec fn sealed(self) -> StatsView {
        StatsView {
            sloc: self.sloc.sealed(),
            ploc: self.ploc.sealed(),
            cloc: self.cloc.sealed(),
            lloc: self.lloc.sealed(),
            space_count: self.space_count,
            blank_min: min_of(self.blank_min, self.blank_floor()),
            blank_max: max_of(self.blank_max, self.blank_floor()),
        }
    }

    /// The statistics after the rows of the scope were noted.
    pub open spec fn with_scope(self, start: usize, end: usize, unit: bool) -> StatsView {
        StatsView { sloc: Sloc { start, end, unit, ..self.sloc }, ..self }
    }

    /// The statistics after a comment on the rows `start` to `end` was seen.
    ///
    /// A comment that starts on a row of code counts once as a line with
    /// code, and its further rows as comment lines. Any other comment counts
    /// with all its rows as comment lines, and its last row is remembered
    /// in case code follows on it.
    pub open spec fn with_comment(self, start: usize, end: usize) -> StatsView {
        let diff = end - start;
        if self.ploc.lines.contains(start) {
            StatsView {
                cloc: Cloc {
                    code_comment_lines: (self.cloc.code_comment_lines + 1) as u64,
                    only_comment_lines: (self.cloc.only_comment_lines + diff) as u64,
                    ..self.cloc
                },
                ..self
            }
        } else {
            StatsView {
                cloc: Cloc {
                    only_comment_lines: (self.cloc.only_comment_lines + diff + 1) as u64,
                    comment_line_end: Some(end),
                    ..self.cloc
                },
                ..self
            }
        }
    }

    /// Whether code that starts on the row `start` follows, on that row, a
    /// comment that was counted as standing alone.
    pub open spec fn follows_comment(self, start: usize) -> bool {
        self.cloc.comment_line_end == Some(start) && !self.ploc.lines.contains(start)
    }

    /// The statistics after code that starts on the row `start` was seen:
    /// the row is a row of code, and a comment that ended on it counts as a
    /// line with code from now on.
    pub open spec fn with_code_line(self, start: usize) -> StatsView {
        StatsView {
            cloc: if self.follows_comment(start) {
                Cloc {
                    only_comment_lines: (self.cloc.only_comment_lines - 1) as u64,
                    code_comment_lines: (self.cloc.code_comment_lines + 1) as u64,
                    ..self.cloc
                }
            } else {
                self.cloc
            },
            ploc: PlocView { lines: self.ploc.lines.insert(start), ..self.ploc },
            ..self
        }
    }

    /// The statistics after a statement was seen.
    pub open spec fn with_statement(self) -> StatsView {
        StatsView {
            lloc: Lloc { logical_lines: (self.lloc.logical_lines + 1) as u64, ..self.lloc },
            ..self
        }
    }

    /// The statistics after the node at `i` was seen; `is_func_space` says
    /// whether the node opened the scope, `is_unit` whether that scope is a file.
    pub open spec fn visited(
        self,
        lang: LANG,
        nodes: Seq<Node>,
        i: int,
        is_func_space: bool,
        is_unit: bool,
    ) -> StatsView {
        let s = if is_func_space {
            self.with_scope(nodes[i].start_row, nodes[i].end_row, is_unit)
        } else {
            self
        };
        match line_role(lang, nodes, i) {
            LineRole::Skip => s,
            LineRole::Comment => s.with_comment(nodes[i].start_row, comment_end(lang, nodes, i)),
            LineRole::Logical => s.with_statement(),
            LineRole::Code => s.with_code_line(nodes[i].start_row),
        }
    }

    /// Whether the counters of a scope stay within what `m` nodes can add.
    pub open spec fn within(self, m: nat) -> bool {
        &&& self.lloc.logical_lines <= 2 * m
        &&& self.cloc.only_comment_lines + self.cloc.code_comment_lines <= MAX_SPAN * m
        &&& self.space_count <= 2 * m
    }

    /// Whether a comment that ended on a row without code was counted for
    /// that row, and the comment lines fit the counters.
    pub open spec fn wf(self) -> bool {
        &&& self.sloc.wf()
        &&& self.cloc.wf()
        &&& self.ploc.lines.finite()
        &&& (self.cloc.comment_line_end is Some && !self.ploc.lines.contains(
            self.cloc.comment_line_end->0,
        ) ==> self.cloc.only_comment_lines >= 1)
    }
}

/// Whether `k` is a kind of the Python grammar that neither is a line of its own nor marks one.
pub open spec fn python_skipped(k: u16) -> bool {
    matches!(
        k,
        language_python::STRING_START | language_python::STRING_END
        | language_python::STRING_CONTENT | language_python::BLOCK | language_python::MODULE
    )
}

/// Tells whether `k` is a kind of the Python grammar that neither is a line of its own nor marks one.
fn is_python_skipped(k: u16) -> (r: bool)
    ensures
        r == python_skipped(k),
{
    matches!(
        k,
        language_python::STRING_START | language_python::STRING_END
        | language_python::STRING_CONTENT | language_python::BLOCK | language_python::MODULE
    )
}

/// Whether `k` is a kind of the Python grammar that is a statement, and so a logical line.
pub open spec fn python_logical(k: u16) -> bool {
    matches!(
        k,
        language_python::STATEMENT | language_python::SIMPLE_STATEMENTS
        | language_python::IMPORT_STATEMENT | language_python::FUTURE_IMPORT_STATEMENT
        | language_python::IMPORT_FROM_STATEMENT | language_python::PRINT_STATEMENT
        | language_python::ASSERT_STATEMENT | language_python::RETURN_STATEMENT
        | language_python::DELETE_STATEMENT | language_python::RAISE_STATEMENT
        | language_python::PASS_STATEMENT | language_python::BREAK_STATEMENT
        | language_python::CONTINUE_STATEMENT | language_python::IF_STATEMENT
        | language_python::FOR_STATEMENT | language_python::WHILE_STATEMENT
        | language_python::TRY_STATEMENT | language_python::WITH_STATEMENT
        | language_python::GLOBAL_STATEMENT | language_python::NONLOCAL_STATEMENT
        | language_python::EXEC_STATEMENT | language_python::EXPRESSION_STATEMENT
    )
}

/// Tells whether `k` is a kind of the Python grammar that is a statement, and so a logical line.
fn is_python_logical(k: u16) -> (r: bool)
    ensures
        r == python_logical(k),
{
    matches!(
        k,
        language_python::STATEMENT | language_python::SIMPLE_STATEMENTS
        | language_python::IMPORT_STATEMENT | language_python::FUTURE_IMPORT_STATEMENT
        | language_python::IMPORT_FROM_STATEMENT | language_python::PRINT_STATEMENT
        | language_python::ASSERT_STATEMENT | language_python::RETURN_STATEMENT
        | language_python::DELETE_STATEMENT | language_python::RAISE_STATEMENT
        | language_python::PASS_STATEMENT | language_python::BREAK_STATEMENT
        | language_python::CONTINUE_STATEMENT | language_python::IF_STATEMENT
        | language_python::FOR_STATEMENT | language_python::WHILE_STATEMENT
        | language_python::TRY_STATEMENT | language_python::WITH_STATEMENT
        | language_python::GLOBAL_STATEMENT | language_python::NONLOCAL_STATEMENT
        | language_python::EXEC_STATEMENT | language_python::EXPRESSION_STATEMENT
    )
}

/// Whether `k` is a kind of the TypeScript grammar that neither is a line of its own nor marks one.
pub open spec fn typescript_skipped(k: u16) -> bool {
    matches!(
        k,
        language_typescript::STRING | language_typescript::DQUOTE | language_typescript::PROGRAM
    )
}

/// Tells whether `k` is a kind of the TypeScript grammar that neither is a line of its own nor marks one.
fn is_typescript_skipped(k: u16) -> (r: bool)
    ensures
        r == typescript_skipped(k),
{
    matches!(
        k,
        language_typescript::STRING | language_typescript::DQUOTE | language_typescript::PROGRAM
    )
}

/// Whether `k` is a kind of the TypeScript grammar that is a statement, and so a logical line.
pub open spec fn typescript_logical(k: u16) -> bool {
    matches!(
        k,
        language_typescript::EXPRESSION_STATEMENT | language_typescript::EXPORT_STATEMENT
        | language_typescript::IMPORT_STATEMENT | language_typescript::STATEMENT_BLOCK
        | language_typescript::IF_STATEMENT | language_typescript::SWITCH_STATEMENT
        | language_typescript::FOR_STATEMENT | language_typescript::FOR_IN_STATEMENT
        | language_typescript::WHILE_STATEMENT | language_typescript::DO_STATEMENT
        | language_typescript::TRY_STATEMENT | language_typescript::WITH_STATEMENT
        | language_typescript::BREAK_STATEMENT | language_typescript::CONTINUE_STATEMENT
        | language_typescript::DEBUGGER_STATEMENT | language_typescript::RETURN_STATEMENT
        | language_typescript::THROW_STATEMENT | language_typescript::EMPTY_STATEMENT
        | language_typescript::STATEMENT_IDENTIFIER
    )
}

/// Tells whether `k` is a kind of the TypeScript grammar that is a statement, and so a logical line.
fn is_typescript_logical(k: u16) -> (r: bool)
    ensures
        r == typescript_logical(k),
{
    matches!(
        k,
        language_typescript::EXPRESSION_STATEMENT | language_typescript::EXPORT_STATEMENT
        | language_typescript::IMPORT_STATEMENT | language_typescript::STATEMENT_BLOCK
        | language_typescript::IF_STATEMENT | language_typescript::SWITCH_STATEMENT
        | language_typescript::FOR_STATEMENT | language_typescript::FOR_IN_STATEMENT
        | language_typescript::WHILE_STATEMENT | language_typescript::DO_STATEMENT
        | language_typescript::TRY_STATEMENT | language_typescript::WITH_STATEMENT
        | language_typescript::BREAK_STATEMENT | language_typescript::CONTINUE_STATEMENT
        | language_typescript::DEBUGGER_STATEMENT | language_typescript::RETURN_STATEMENT
        | language_typescript::THROW_STATEMENT | language_typescript::EMPTY_STATEMENT
        | language_typescript::STATEMENT_IDENTIFIER
    )
}

/// Whether `k` is a kind of the TSX grammar that neither is a line of its own nor marks one.
pub open spec fn tsx_skipped(k: u16) -> bool {
    matches!(
        k,
        language_tsx::STRING | language_tsx::DQUOTE | language_tsx::PROGRAM
    )
}

/// Tells whether `k` is a kind of the TSX grammar that neither is a line of its own nor marks one.
fn is_tsx_skipped(k: u16) -> (r: bool)
    ensures
        r == tsx_skipped(k),
{
    matches!(
        k,
        language_tsx::STRING | language_tsx::DQUOTE | language_tsx::PROGRAM
    )
}

/// Whether `k` is a kind of the TSX grammar that is a statement, and so a logical line.
pub open spec fn tsx_logical(k: u16) -> bool {
    matches!(
        k,
        language_tsx::EXPRESSION_STATEMENT | language_tsx::EXPORT_STATEMENT
        | language_tsx::IMPORT_STATEMENT | language_tsx::STATEMENT_BLOCK
        | language_tsx::IF_STATEMENT | language_tsx::SWITCH_STATEMENT
        | language_tsx::FOR_STATEMENT | language_tsx::FOR_IN_STATEMENT
        | language_tsx::WHILE_STATEMENT | language_tsx::DO_STATEMENT
        | language_tsx::TRY_STATEMENT | language_tsx::WITH_STATEMENT
        | language_tsx::BREAK_STATEMENT | language_tsx::CONTINUE_STATEMENT
        | language_tsx::DEBUGGER_STATEMENT | language_tsx::RETURN_STATEMENT
        | language_tsx::THROW_STATEMENT | language_tsx::EMPTY_STATEMENT
        | language_tsx::STATEMENT_IDENTIFIER
    )
}

/// Tells whether `k` is a kind of the TSX grammar that is a statement, and so a logical line.
fn is_tsx_logical(k: u16) -> (r: bool)
    ensures
        r == tsx_logical(k),
{
    matches!(
        k,
        language_tsx::EXPRESSION_STATEMENT | language_tsx::EXPORT_STATEMENT
        | language_tsx::IMPORT_STATEMENT | language_tsx::STATEMENT_BLOCK
        | language_tsx::IF_STATEMENT | language_tsx::SWITCH_STATEMENT
        | language_tsx::FOR_STATEMENT | language_tsx::FOR_IN_STATEMENT
        | language_tsx::WHILE_STATEMENT | language_tsx::DO_STATEMENT
        | language_tsx::TRY_STATEMENT | language_tsx::WITH_STATEMENT
        | language_tsx::BREAK_STATEMENT | language_tsx::CONTINUE_STATEMENT
        | language_tsx::DEBUGGER_STATEMENT | language_tsx::RETURN_STATEMENT
        | language_tsx::THROW_STATEMENT | language_tsx::EMPTY_STATEMENT
        | language_tsx::STATEMENT_IDENTIFIER
    )
}

/// Whether `k` is a kind of the Rust grammar that neither is a line of its own nor marks one.
pub open spec fn rust_skipped(k: u16) -> bool {
    matches!(
        k,
        language_rust::STRING_LITERAL | language_rust::RAW_STRING_LITERAL | language_rust::BLOCK
        | language_rust::SOURCE_FILE | language_rust::SLASH | language_rust::SLASHSLASH
        | language_rust::SLASHSTAR | language_rust::STARSLASH
        | language_rust::OUTER_DOC_COMMENT_MARKER | language_rust::OUTER_DOC_COMMENT_MARKER2
        | language_rust::DOC_COMMENT | language_rust::INNER_DOC_COMMENT_MARKER
        | language_rust::BANG
    )
}

/// Tells whether `k` is a kind of the Rust grammar that neither is a line of its own nor marks one.
fn is_rust_skipped(k: u16) -> (r: bool)
    ensures
        r == rust_skipped(k),
{
    matches!(
        k,
        language_rust::STRING_LITERAL | language_rust::RAW_STRING_LITERAL | language_rust::BLOCK
        | language_rust::SOURCE_FILE | language_rust::SLASH | language_rust::SLASHSLASH
        | language_rust::SLASHSTAR | language_rust::STARSLASH
        | language_rust::OUTER_DOC_COMMENT_MARKER | language_rust::OUTER_DOC_COMMENT_MARKER2
        | language_rust::DOC_COMMENT | language_rust::INNER_DOC_COMMENT_MARKER
        | language_rust::BANG
    )
}

/// Whether `k` is a kind of the Rust grammar that is a statement, and so a logical line.
pub open spec fn rust_logical(k: u16) -> bool {
    matches!(
        k,
        language_rust::STATEMENT | language_rust::EMPTY_STATEMENT
        | language_rust::EXPRESSION_STATEMENT | language_rust::LET_DECLARATION
        | language_rust::ASSIGNMENT_EXPRESSION | language_rust::COMPOUND_ASSIGNMENT_EXPR
    )
}

/// Tells whether `k` is a kind of the Rust grammar that is a statement, and so a logical line.
fn is_rust_logical(k: u16) -> (r: bool)
    ensures
        r == rust_logical(k),
{
    matches!(
        k,
        language_rust::STATEMENT | language_rust::EMPTY_STATEMENT
        | language_rust::EXPRESSION_STATEMENT | language_rust::LET_DECLARATION
        | language_rust::ASSIGNMENT_EXPRESSION | language_rust::COMPOUND_ASSIGNMENT_EXPR
    )
}

/// Whether `k` is a kind of the Go grammar that neither is a line of its own nor marks one.
pub open spec fn go_skipped(k: u16) -> bool {
    matches!(
        k,
        language_go::SOURCE_FILE
    )
}

/// Tells whether `k` is a kind of the Go grammar that neither is a line of its own nor marks one.
fn is_go_skipped(k: u16) -> (r: bool)
    ensures
        r == go_skipped(k),
{
    matches!(
        k,
        language_go::SOURCE_FILE
    )
}

/// Whether `k` is a kind of the Go grammar that is a statement, and so a logical line.
pub open spec fn go_logical(k: u16) -> bool {
    matches!(
        k,
        language_go::EXPRESSION_STATEMENT | language_go::SEND_STATEMENT
        | language_go::INC_STATEMENT | language_go::DEC_STATEMENT
        | language_go::ASSIGNMENT_STATEMENT | language_go::SHORT_VAR_DECLARATION
        | language_go::VAR_DECLARATION | language_go::CONST_DECLARATION
        | language_go::TYPE_DECLARATION | language_go::GO_STATEMENT
        | language_go::DEFER_STATEMENT | language_go::RETURN_STATEMENT
        | language_go::BREAK_STATEMENT | language_go::CONTINUE_STATEMENT
        | language_go::GOTO_STATEMENT | language_go::FALLTHROUGH_STATEMENT
        | language_go::IF_STATEMENT | language_go::EXPRESSION_SWITCH_STATEMENT
        | language_go::TYPE_SWITCH_STATEMENT | language_go::SELECT_STATEMENT
        | language_go::FOR_STATEMENT
    )
}

/// Tells whether `k` is a kind of the Go grammar that is a statement, and so a logical line.
fn is_go_logical(k: u16) -> (r: bool)
    ensures
        r == go_logical(k),
{
    matches!(
        k,
        language_go::EXPRESSION_STATEMENT | language_go::SEND_STATEMENT
        | language_go::INC_STATEMENT | language_go::DEC_STATEMENT
        | language_go::ASSIGNMENT_STATEMENT | language_go::SHORT_VAR_DECLARATION
        | language_go::VAR_DECLARATION | language_go::CONST_DECLARATION
        | language_go::TYPE_DECLARATION | language_go::GO_STATEMENT
        | language_go::DEFER_STATEMENT | language_go::RETURN_STATEMENT
        | language_go::BREAK_STATEMENT | language_go::CONTINUE_STATEMENT
        | language_go::GOTO_STATEMENT | language_go::FALLTHROUGH_STATEMENT
        | language_go::IF_STATEMENT | language_go::EXPRESSION_SWITCH_STATEMENT
        | language_go::TYPE_SWITCH_STATEMENT | language_go::SELECT_STATEMENT
        | language_go::FOR_STATEMENT
    )
}

/// Whether the node at `i` is a Rust line comment that holds a doc comment
/// and ends on a later row than it starts: the text of a doc comment takes
/// in its line break.
pub open spec fn rust_doc_line(nodes: Seq<Node>, i: int) -> bool {
    &&& nodes[i].kind_id == language_rust::LINE_COMMENT
    &&& has_child_kind_from(nodes, i, i + 1, language_rust::DOC_COMMENT)
    &&& nodes[i].end_row > nodes[i].start_row
}

/// The last row of the comment at `i`.
pub open spec fn comment_end(lang: LANG, nodes: Seq<Node>, i: int) -> usize {
    if lang == LANG::Rust && rust_doc_line(nodes, i) {
        (nodes[i].end_row - 1) as usize
    } else {
        nodes[i].end_row
    }
}

/// What a Python string is to the line counts: a comment where it stands
/// alone as a statement, code where it starts on another row than the
/// expression it belongs to, and nothing otherwise.
pub open spec fn python_string_role(nodes: Seq<Node>, i: int) -> LineRole {
    if nodes[i].parent is None {
        LineRole::Skip
    } else {
        let p = nodes[i].parent->0 as int;
        if nodes[p].kind_id == language_python::EXPRESSION_STATEMENT {
            LineRole::Comment
        } else if nodes[p].start_row != nodes[i].start_row {
            LineRole::Code
        } else {
            LineRole::Skip
        }
    }
}

/// What the node at `i` is to the line counts.
pub open spec fn line_role(lang: LANG, nodes: Seq<Node>, i: int) -> LineRole {
    let k = nodes[i].kind_id;
    match lang {
        LANG::Python => if python_skipped(k) {
            LineRole::Skip
        } else if k == language_python::COMMENT {
            LineRole::Comment
        } else if k == language_python::STRING {
            python_string_role(nodes, i)
        } else if python_logical(k) {
            LineRole::Logical
        } else {
            LineRole::Code
        },
        LANG::Typescript => if typescript_skipped(k) {
            LineRole::Skip
        } else if k == language_typescript::COMMENT {
            LineRole::Comment
        } else if typescript_logical(k) {
            LineRole::Logical
        } else {
            LineRole::Code
        },
        LANG::Tsx => if tsx_skipped(k) {
            LineRole::Skip
        } else if k == language_tsx::COMMENT {
            LineRole::Comment
        } else if tsx_logical(k) {
            LineRole::Logical
        } else {
            LineRole::Code
        },
        LANG::Rust => if rust_skipped(k) {
            LineRole::Skip
        } else if k == language_rust::BLOCK_COMMENT || k == language_rust::LINE_COMMENT {
            LineRole::Comment
        } else if rust_logical(k) {
            LineRole::Logical
        } else {
            LineRole::Code
        },
        LANG::Go => if go_skipped(k) {
            LineRole::Skip
        } else if k == language_go::COMMENT {
            LineRole::Comment
        } else if go_logical(k) {
            LineRole::Logical
        } else {
            LineRole::Code
        },
    }
}

/// Tells what the node at `i` is to the line counts.
pub fn get_line_role(lang: LANG, tree: &Tree, i: usize) -> (r: LineRole)
    requires
        tree.wf(),
        i < tree@.len(),
    ensures
        r == line_role(lang, tree@, i as int),
{
    let k = tree.node(i).kind_id;
    match lang {
        LANG::Python => if is_python_skipped(k) {
            LineRole::Skip
        } else if k == language_python::COMMENT {
            LineRole::Comment
        } else if k == language_python::STRING {
            match tree.parent(i) {
                None => LineRole::Skip,
                Some(p) => {
                    let parent = tree.node(p);
                    if parent.kind_id == language_python::EXPRESSION_STATEMENT {
                        LineRole::Comment
                    } else if parent.start_row != tree.node(i).start_row {
                        LineRole::Code
                    } else {
                        LineRole::Skip
                    }
                },
            }
        } else if is_python_logical(k) {
            LineRole::Logical
        } else {
            LineRole::Code
        },
        LANG::Typescript => if is_typescript_skipped(k) {
            LineRole::Skip
        } else if k == language_typescript::COMMENT {
            LineRole::Comment
        } else if is_typescript_logical(k) {
            LineRole::Logical
        } else {
            LineRole::Code
        },
        LANG::Tsx => if is_tsx_skipped(k) {
            LineRole::Skip
        } else if k == language_tsx::COMMENT {
            LineRole::Comment
        } else if is_tsx_logical(k) {
            LineRole::Logical
        } else {
            LineRole::Code
        },
        LANG::Rust => if is_rust_skipped(k) {
            LineRole::Skip
        } else if k == language_rust::BLOCK_COMMENT || k == language_rust::LINE_COMMENT {
            LineRole::Comment
        } else if is_rust_logical(k) {
            LineRole::Logical
        } else {
            LineRole::Code
        },
        LANG::Go => if is_go_skipped(k) {
            LineRole::Skip
        } else if k == language_go::COMMENT {
            LineRole::Comment
        } else if is_go_logical(k) {
            LineRole::Logical
        } else {
            LineRole::Code
        },
    }
}

/// Tells the last row of the comment at `i`.
pub fn get_comment_end(lang: LANG, tree: &Tree, i: usize) -> (r: usize)
    requires
        tree.wf(),
        i < tree@.len(),
    ensures
        r == comment_end(lang, tree@, i as int),
        tree@[i as int].start_row <= r <= tree@[i as int].end_row,
{
    let node = tree.node(i);
    assert(node_ok(tree@, i as int));
    // Exclude the last line of a line comment that holds a doc comment,
    // since the doc comment takes in the newline
    if lang == LANG::Rust && node.kind_id == language_rust::LINE_COMMENT && tree.is_child(
        i,
        language_rust::DOC_COMMENT,
    ) && node.end_row > node.start_row {
        node.end_row - 1
    } else {
        node.end_row
    }
}

impl Stats {
    /// Whether the parts are well formed.
    pub open spec fn wf(&self) -> bool {
        self.ploc.wf() && self@.wf()
    }

    /// Merges a second `Loc` metric suite into the first one
    pub fn merge(&mut self, other: &Stats)
        requires
            old(self).wf(),
            other.wf(),
            old(self)@.can_merge(other@),
        ensures
            final(self).wf(),
            final(self)@ == old(self)@.merged(other@),
    {
        self.sloc.merge(&other.sloc);
        self.ploc.merge(&other.ploc);
        self.cloc.merge(&other.cloc);
        self.lloc.merge(&other.lloc);
        // Count spaces
        self.space_count = self.space_count + other.space_count;
        // min and max
        self.blank_min = min_u64(self.blank_min, other.blank_min);
        self.blank_max = max_u64(self.blank_max, other.blank_max);
    }

    /// The `Sloc` metric.
    ///
    /// Counts the number of lines in a scope
    pub fn sloc(&self) -> (r: u64)
        requires
            self.wf(),
        ensures
            r == self@.sloc.value(),
    {
        self.sloc.sloc()
    }

    /// The `Ploc` metric.
    ///
    /// Counts the number of instruction lines in a scope
    pub fn ploc(&self) -> (r: u64)
        requires
            self.wf(),
        ensures
            r == self@.ploc.value(),
            r == self@.ploc.lines.len(),
    {
        self.ploc.ploc()
    }

    /// The `Lloc` metric.
    ///
    /// Counts the number of statements in a scope
    pub fn lloc(&self) -> (r: u64)
        ensures
            r == self.lloc.logical_lines,
    {
        self.lloc.lloc()
    }

    /// The `Cloc` metric.
    ///
    /// Counts the number of comments in a scope
    pub fn cloc(&self) -> (r: u64)
        requires
            self.wf(),
        ensures
            r == self@.cloc.value(),
    {
        self.cloc.cloc()
    }

    /// The `Blank` metric.
    ///
    /// Counts the number of blank lines in a scope
    pub fn blank(&self) -> (r: i128)
        requires
            self.wf(),
        ensures
            r == self@.blank_value(),
    {
        self.sloc.sloc() as i128 - self.ploc.ploc() as i128 - self.cloc.only_comment_lines as i128
    }

    /// The number of blank lines, zero where the count falls below zero.
    pub fn blank_floor(&self) -> (r: u64)
        requires
            self.wf(),
        ensures
            r == self@.blank_floor(),
    {
        let b = self.blank();
        if b < 0 {
            0
        } else {
            b as u64
        }
    }

    /// The `Sloc` metric average value.
    ///
    /// This value is computed dividing the `Sloc` value for the number of spaces
    pub fn sloc_average(&self) -> (r: Option<Ratio>)
        requires
            self.wf(),
        ensures
            r == crate::metrics::quotient(self@.sloc.value(), self.space_count),
    {
        crate::metrics::ratio(self.sloc(), self.space_count)
    }

    /// The `Ploc` metric average value.
    ///
    /// This value is computed dividing the `Ploc` value for the number of spaces
    pub fn ploc_average(&self) -> (r: Option<Ratio>)
        requires
            self.wf(),
        ensures
            r == crate::metrics::quotient(self@.ploc.value(), self.space_count),
    {
        crate::metrics::ratio(self.ploc(), self.space_count)
    }

    /// The `Lloc` metric average value.
    ///
    /// This value is computed dividing the `Lloc` value for the number of spaces
    pub fn lloc_average(&self) -> (r: Option<Ratio>)
        ensures
            r == crate::metrics::quotient(self.lloc.logical_lines, self.space_count),
    {
        crate::metrics::ratio(self.lloc(), self.space_count)
    }

    /// The `Cloc` metric average value.
    ///
    /// This value is computed dividing the `Cloc` value for the number of spaces
    pub fn cloc_average(&self) -> (r: Option<Ratio>)
        requires
            self.wf(),
        ensures
            r == crate::metrics::quotient(self@.cloc.value(), self.space_count),
    {
        crate::metrics::ratio(self.cloc(), self.space_count)
    }

    /// The `Blank` metric average value, as the number of blank lines and
    /// the number of spaces it is divided by; `None` without spaces.
    pub fn blank_average(&self) -> (r: Option<(i128, u64)>)
        requires
            self.wf(),
        ensures
            r == (if self.space_count == 0 {
                None
            } else {
                Some((self@.blank_value() as i128, self.space_count))
            }),
    {
        if self.space_count == 0 {
            None
        } else {
            Some((self.blank(), self.space_count))
        }
    }

    /// The `Sloc` metric minimum value.
    pub fn sloc_min(&self) -> (r: Option<u64>)
        ensures
            r == reported_min(self.sloc.sloc_min),
    {
        self.sloc.sloc_min()
    }

    /// The `Sloc` metric maximum value.
    pub fn sloc_max(&self) -> (r: u64)
        ensures
            r == self.sloc.sloc_max,
    {
        self.sloc.sloc_max()
    }

    /// The `Cloc` metric minimum value.
    pub fn cloc_min(&self) -> (r: Option<u64>)
        ensures
            r == reported_min(self.cloc.cloc_min),
    {
        self.cloc.cloc_min()
    }

    /// The `Cloc` metric maximum value.
    pub fn cloc_max(&self) -> (r: u64)
        ensures
            r == self.cloc.cloc_max,
    {
        self.cloc.cloc_max()
    }

    /// The `Ploc` metric minimum value.
    pub fn ploc_min(&self) -> (r: Option<u64>)
        ensures
            r == reported_min(self.ploc.ploc_min),
    {
        self.ploc.ploc_min()
    }

    /// The `Ploc` metric maximum value.
    pub fn ploc_max(&self) -> (r: u64)
        ensures
            r == self.ploc.ploc_max,
    {
        self.ploc.ploc_max()
    }

    /// The `Lloc` metric minimum value.
    pub fn lloc_min(&self) -> (r: Option<u64>)
        ensures
            r == reported_min(self.lloc.lloc_min),
    {
        self.lloc.lloc_min()
    }

    /// The `Lloc` metric maximum value.
    pub fn lloc_max(&self) -> (r: u64)
        ensures
            r == self.lloc.lloc_max,
    {
        self.lloc.lloc_max()
    }

    /// The `Blank` metric minimum value.
    pub fn blank_min(&self) -> (r: Option<u64>)
        ensures
            r == reported_min(self.blank_min),
    {
        report_min(self.blank_min)
    }

    /// The `Blank` metric maximum value.
    pub fn blank_max(&self) -> (r: u64)
        ensures
            r == self.blank_max,
    {
        self.blank_max
    }

    /// Seals the scope: its own counts enter the extremes, beside those of
    /// the scopes inside it.
    pub fn compute_minmax(&mut self)
        requires
            old(self).wf(),
        ensures
            final(self).wf(),
            final(self)@ == old(self)@.sealed(),
    {
        let blank = self.blank_floor();
        self.sloc.compute_minmax();
        self.ploc.compute_minmax();
        self.cloc.compute_minmax();
        self.lloc.compute_minmax();
        self.blank_min = min_u64(self.blank_min, blank);
        self.blank_max = max_u64(self.blank_max, blank);
    }
}

/// Notes the rows of the node where it opens the scope.
fn init(tree: &Tree, i: usize, stats: &mut Stats, is_func_space: bool, is_unit: bool) -> (r: (
    usize,
    usize,
))
    requires
        tree.wf(),
        i < tree@.len(),
        old(stats).wf(),
    ensures
        final(stats).wf(),
        r == (tree@[i as int].start_row, tree@[i as int].end_row),
        r.0 <= r.1 <= MAX_ROW,
        final(stats)@ == (if is_func_space {
            old(stats)@.with_scope(r.0, r.1, is_unit)
        } else {
            old(stats)@
        }),
{
    let node = tree.node(i);
    assert(node_ok(tree@, i as int));
    let start = node.start_row;
    let end = node.end_row;
    if is_func_space {
        stats.sloc.start = start;
        stats.sloc.end = end;
        stats.sloc.unit = is_unit;
    }
    (start, end)
}

/// Discriminates among the comments that are *after* a code line and
/// the ones that are on an independent line.
/// This difference is necessary in order to avoid having
/// a wrong count for the blank metric.
fn add_cloc_lines(stats: &mut Stats, start: usize, end: usize)
    requires
        old(stats).wf(),
        start <= end <= MAX_ROW,
        old(stats).cloc.only_comment_lines + old(stats).cloc.code_comment_lines + MAX_SPAN
            <= u64::MAX,
    ensures
        final(stats).wf(),
        final(stats)@ == old(stats)@.with_comment(start, end),
{
    let comment_diff = (end - start) as u64;
    let is_comment_after_code_line = stats.ploc.contains(start);
    if is_comment_after_code_line && comment_diff == 0 {
        // A comment is *entirely* next to a code line
        stats.cloc.code_comment_lines = stats.cloc.code_comment_lines + 1;
    } else if is_comment_after_code_line && comment_diff > 0 {
        // A block comment that starts next to a code line and ends on
        // independent lines.
        stats.cloc.code_comment_lines = stats.cloc.code_comment_lines + 1;
        stats.cloc.only_comment_lines = stats.cloc.only_comment_lines + comment_diff;
    } else {
        // A comment on an independent line AND
        // a block comment on independent lines OR
        // a comment *before* a code line
        stats.cloc.only_comment_lines = stats.cloc.only_comment_lines + (comment_diff + 1);
        // Save line end of a comment to check whether
        // a comment *before* a code line is considered
        stats.cloc.comment_line_end = Some(end);
    }
}

/// Detects the comments that are on a code line but *before* the code part.
/// This difference is necessary in order to avoid having
/// a wrong count for the blank metric.
fn check_comment_ends_on_code_line(stats: &mut Stats, start_code_line: usize)
    requires
        old(stats).wf(),
        old(stats).cloc.only_comment_lines + old(stats).cloc.code_comment_lines + MAX_SPAN
            <= u64::MAX,
    ensures
        final(stats).ploc == old(stats).ploc,
        final(stats).sloc == old(stats).sloc,
        final(stats).lloc == old(stats).lloc,
        final(stats).space_count == old(stats).space_count,
        final(stats).blank_min == old(stats).blank_min,
        final(stats).blank_max == old(stats).blank_max,
        final(stats).cloc == old(stats)@.with_code_line(start_code_line).cloc,
{
    let follows = match stats.cloc.comment_line_end {
        Some(end) => end == start_code_line && !stats.ploc.contains(start_code_line),
        None => false,
    };
    if follows {
        // Comment entirely *before* a code line
        stats.cloc.only_comment_lines = stats.cloc.only_comment_lines - 1;
        stats.cloc.code_comment_lines = stats.cloc.code_comment_lines + 1;
    }
}

/// Counts the row `start` as a row of code.
fn add_code_line(stats: &mut Stats, start: usize)
    requires
        old(stats).wf(),
        old(stats).cloc.only_comment_lines + old(stats).cloc.code_comment_lines + MAX_SPAN
            <= u64::MAX,
    ensures
        final(stats).wf(),
        final(stats)@ == old(stats)@.with_code_line(start),
{
    check_comment_ends_on_code_line(stats, start);
    stats.ploc.insert(start);
}

/// Accounts for the node at `i` in the line counts of the open scope.
pub fn compute(
    lang: LANG,
    tree: &Tree,
    i: usize,
    stats: &mut Stats,
    is_func_space: bool,
    is_unit: bool,
)
    requires
        tree.wf(),
        i < tree@.len(),
        old(stats).wf(),
        old(stats).lloc.logical_lines < u64::MAX,
        old(stats).cloc.only_comment_lines + old(stats).cloc.code_comment_lines + MAX_SPAN
            <= u64::MAX,
    ensures
        final(stats).wf(),
        final(stats)@ == old(stats)@.visited(lang, tree@, i as int, is_func_space, is_unit),
{
    let (start, _end) = init(tree, i, stats, is_func_space, is_unit);
    match get_line_role(lang, tree, i) {
        LineRole::Skip => {},
        LineRole::Comment => {
            let end = get_comment_end(lang, tree, i);
            add_cloc_lines(stats, start, end);
        },
        LineRole::Logical => {
            stats.lloc.logical_lines = stats.lloc.logical_lines + 1;
        },
        LineRole::Code => {
            add_code_line(stats, start);
        },
    }
}

/// Merging two sealed scopes into a third gives the same statistics in either order.
pub proof fn lemma_merge_commutes(s: StatsView, a: StatsView, b: StatsView)
    requires
        s.cloc.only_comment_lines + a.cloc.only_comment_lines + b.cloc.only_comment_lines
            + s.cloc.code_comment_lines + a.cloc.code_comment_lines + b.cloc.code_comment_lines
            <= u64::MAX,
        s.lloc.logical_lines + a.lloc.logical_lines + b.lloc.logical_lines <= u64::MAX,
        s.space_count + a.space_count + b.space_count <= u64::MAX,
    ensures
        s.merged(a).merged(b) == s.merged(b).merged(a),
{
    assert(s.ploc.lines.union(a.ploc.lines).union(b.ploc.lines) =~= s.ploc.lines.union(
        b.ploc.lines,
    ).union(a.ploc.lines));
}

/// Merging two sealed scopes into a third one after the other gives the
/// same statistics as merging the second into the first, and that into the third.
pub proof fn lemma_merge_associates(s: StatsView, a: StatsView, b: StatsView)
    requires
        s.cloc.only_comment_lines + a.cloc.only_comment_lines + b.cloc.only_comment_lines
            + s.cloc.code_comment_lines + a.cloc.code_comment_lines + b.cloc.code_comment_lines
            <= u64::MAX,
        s.lloc.logical_lines + a.lloc.logical_lines + b.lloc.logical_lines <= u64::MAX,
        s.space_count + a.space_count + b.space_count <= u64::MAX,
    ensures
        s.merged(a).merged(b) == s.merged(a.merged(b)),
{
    let x = s.merged(a).merged(b);
    let y = s.merged(a.merged(b));
    assert(x.ploc.lines =~= y.ploc.lines);
    assert(x.sloc == y.sloc);
    assert(x.ploc == y.ploc);
    assert(x.cloc == y.cloc);
    assert(x.lloc == y.lloc);
}

/// The extremes of a sealed scope are those of the scopes merged into it
/// and of its own counts: the own count of source lines, of rows of code,
/// of comment lines, of logical lines and of blank lines each enters both.
pub proof fn lemma_sealed_folds_own(s: StatsView)
    ensures
        s.sealed().sloc.sloc_min == min_of(s.sloc.sloc_min, s.sloc.value()),
        s.sealed().sloc.sloc_max == max_of(s.sloc.sloc_max, s.sloc.value()),
        s.sealed().ploc.ploc_min == min_of(s.ploc.ploc_min, s.ploc.value()),
        s.sealed().ploc.ploc_max == max_of(s.ploc.ploc_max, s.ploc.value()),
        s.sealed().cloc.cloc_min == min_of(s.cloc.cloc_min, s.cloc.value()),
        s.sealed().cloc.cloc_max == max_of(s.cloc.cloc_max, s.cloc.value()),
        s.sealed().lloc.lloc_min == min_of(s.lloc.lloc_min, s.lloc.logical_lines),
        s.sealed().lloc.lloc_max == max_of(s.lloc.lloc_max, s.lloc.logical_lines),
        s.sealed().blank_min == min_of(s.blank_min, s.blank_floor()),
        s.sealed().blank_max == max_of(s.blank_max, s.blank_floor()),
        s.sealed().sloc.value() == s.sloc.value(),
{
}

/// Merging in a sealed scope adds its logical lines and its comment lines
/// to those of the scope, and its rows of code to the scope's rows of code.
pub proof fn lemma_merge_adds(s: StatsView, other: StatsView)
    requires
        s.can_merge(other),
    ensures
        s.merged(other).lloc.logical_lines == s.lloc.logical_lines + other.lloc.logical_lines,
        s.merged(other).cloc.value() == s.cloc.value() + other.cloc.value(),
        s.merged(other).ploc.lines == s.ploc.lines.union(other.ploc.lines),
        s.merged(other).space_count == s.space_count + other.space_count,
{
}

} // verus!
