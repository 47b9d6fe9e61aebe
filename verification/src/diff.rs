//! Comparing the metrics of two revisions: which revisions, and which metrics.

use vstd::prelude::*;
use vstd::string::StringExecFns;
use crate::ci::CiContext;
use vstd::slice::slice_subrange;
use vstd::string::StringSliceAdditionalSpecFns;
use vstd::utf8::encode_utf8;
use crate::tools::{bytes_equal, str_eq};

verus! {

/// Whether a smaller or a larger value of a metric is the better one.
#[derive(Debug, Clone, Copy, PartialEq, Eq, Structural)]
pub enum Polarity {
    /// A smaller value is better.
    LowerIsBetter,
    /// A larger value is better.
    HigherIsBetter,
}

/// The form in which a comparison is written out.
#[derive(Debug, Clone, Copy, PartialEq, Eq, Structural)]
pub enum DiffFormat {
    /// A Markdown table.
    Markdown,
    /// JSON.
    Json,
}

/// The metrics that can be compared.
#[derive(Debug, Clone, Copy, PartialEq, Eq, Structural)]
pub enum Metric {
    /// Cyclomatic complexity, summed.
    Cyclomatic,
    /// Cognitive complexity, summed.
    Cognitive,
    /// Number of functions.
    NomFunctions,
    /// Logical lines of code.
    LocLloc,
    /// Maintainability index.
    Mi,
    /// Halstead volume.
    HalsteadVolume,
}

/// How a value changed between two revisions.
#[derive(Debug, Clone, Copy, PartialEq, Eq, Structural)]
pub enum Change {
    /// The value fell.
    Decreased,
    /// The value stayed.
    Unchanged,
    /// The value rose.
    Increased,
}

/// A metric chosen for comparison.
#[derive(Debug, Clone, Copy)]
pub struct MetricSelector {
    /// The name the metric is chosen by.
    pub name: &'static str,
    /// The heading of its column.
    pub label: &'static str,
    /// Which direction is an improvement.
    pub polarity: Polarity,
    /// The metric.
    pub metric: Metric,
}

/// What to compare.
#[derive(Debug)]
pub struct DiffOpts {
    /// Base revision to compare from.
    pub from: Option<String>,
    /// Head revision to compare to.
    pub to: Option<String>,
    /// Metrics to compare. Prefix with + for higher-is-better, - for lower-is-better.
    pub metrics: Vec<String>,
    /// Globs of the files to compare; all files where there is none.
    pub included: Vec<String>,
    /// Globs of the files to leave out.
    pub excluded: Vec<String>,
    /// Output format.
    pub output_format: Option<DiffFormat>,
    /// Show files where all metrics are unchanged.
    pub show_unchanged: bool,
}

/// The text of an optional string.
pub open spec fn text_of(s: Option<String>) -> Option<Seq<char>> {
    match s {
        Some(t) => Some(t@),
        None => None,
    }
}

/// The revision to compare to: the one asked for; else the commit the build
/// service builds; else `HEAD`.
pub open spec fn resolved_to(to: Option<Seq<char>>, ctx: Option<CiContext>) -> Seq<char> {
    match to {
        Some(t) => t,
        None => match ctx {
            Some(c) => match c.head_sha {
                Some(h) => h@,
                None => "HEAD"@,
            },
            None => "HEAD"@,
        },
    }
}

/// The revision to compare from: the one asked for; else, in a build, the
/// commit before for a push, the target branch on `origin` for a pull request
/// or a merge group (`origin/main` if none is named), and `main` for any
/// other event; else `main`.
pub open spec fn resolved_from(from: Option<Seq<char>>, ctx: Option<CiContext>) -> Seq<char> {
    match from {
        Some(f) => f,
        None => match ctx {
            Some(c) => if c.event_name@ == "push"@ {
                "HEAD~1"@
            } else if c.event_name@ == "pull_request"@ || c.event_name@ == "merge_group"@ {
                match c.base_ref {
                    Some(b) => "origin/"@ + b@,
                    None => "origin/main"@,
                }
            } else {
                "main"@
            },
            None => "main"@,
        },
    }
}

/// Picks the two revisions to compare.
pub fn resolve_refs(opts: &DiffOpts, ci_ctx: &Option<CiContext>) -> (r: (String, String))
    ensures
        r.0@ == resolved_from(text_of(opts.from), *ci_ctx),
        r.1@ == resolved_to(text_of(opts.to), *ci_ctx),
{
    let to = match &opts.to {
        Some(t) => t.clone(),
        None => match ci_ctx {
            Some(ctx) => match &ctx.head_sha {
                Some(h) => h.clone(),
                None => "HEAD".to_owned(),
            },
            None => "HEAD".to_owned(),
        },
    };
    let from = match &opts.from {
        Some(f) => f.clone(),
        None => match ci_ctx {
            Some(ctx) => {
                let event = ctx.event_name.as_str();
                if str_eq(event, "push") {
                    "HEAD~1".to_owned()
                } else if str_eq(event, "pull_request") || str_eq(event, "merge_group") {
                    match &ctx.base_ref {
                        Some(b) => "origin/".to_owned().concat(b.as_str()),
                        None => "origin/main".to_owned(),
                    }
                } else {
                    "main".to_owned()
                }
            },
            None => "main".to_owned(),
        },
    };
    (from, to)
}

/// How a change shows: white where nothing changed, green where the change
/// is for the better, red where it is for the worse.
pub open spec fn trend_text(change: Change, polarity: Polarity) -> Seq<char> {
    match change {
        Change::Unchanged => "\u{26AA}"@,
        Change::Increased => match polarity {
            Polarity::LowerIsBetter => "\u{1F534}"@,
            Polarity::HigherIsBetter => "\u{1F7E2}"@,
        },
        Change::Decreased => match polarity {
            Polarity::LowerIsBetter => "\u{1F7E2}"@,
            Polarity::HigherIsBetter => "\u{1F534}"@,
        },
    }
}

/// The mark that shows a change.
pub fn trend_emoji(change: Change, polarity: Polarity) -> (r: &'static str)
    ensures
        r@ == trend_text(change, polarity),
{
    match change {
        Change::Unchanged => "\u{26AA}",
        Change::Increased => match polarity {
            Polarity::LowerIsBetter => "\u{1F534}",
            Polarity::HigherIsBetter => "\u{1F7E2}",
        },
        Change::Decreased => match polarity {
            Polarity::LowerIsBetter => "\u{1F7E2}",
            Polarity::HigherIsBetter => "\u{1F534}",
        },
    }
}

/// What a `MetricSelector` stands for.
pub struct SelectorView {
    /// The name the metric is chosen by.
    pub name: Seq<char>,
    /// The heading of its column.
    pub label: Seq<char>,
    /// Which direction is an improvement.
    pub polarity: Polarity,
    /// The metric.
    pub metric: Metric,
}

impl View for MetricSelector {
    type V = SelectorView;

    open spec fn view(&self) -> SelectorView {
        SelectorView {
            name: self.name@,
            label: self.label@,
            polarity: self.polarity,
            metric: self.metric,
        }
    }
}

/// The metric that goes by `name`, with its heading and the direction that
/// is an improvement unless another is asked for.
pub open spec fn known_metric(name: Seq<u8>) -> Option<SelectorView> {
    if name == "cyclomatic".spec_bytes() {
        Some(
            SelectorView {
                name: "cyclomatic"@,
                label: "Cyclomatic"@,
                polarity: Polarity::LowerIsBetter,
                metric: Metric::Cyclomatic,
            },
        )
    } else if name == "cognitive".spec_bytes() {
        Some(
            SelectorView {
                name: "cognitive"@,
                label: "Cognitive"@,
                polarity: Polarity::LowerIsBetter,
                metric: Metric::Cognitive,
            },
        )
    } else if name == "nom.functions".spec_bytes() {
        Some(
            SelectorView {
                name: "nom.functions"@,
                label: "Functions"@,
                polarity: Polarity::LowerIsBetter,
                metric: Metric::NomFunctions,
            },
        )
    } else if name == "loc.lloc".spec_bytes() {
        Some(
            SelectorView {
                name: "loc.lloc"@,
                label: "LLOC"@,
                polarity: Polarity::LowerIsBetter,
                metric: Metric::LocLloc,
            },
        )
    } else if name == "mi".spec_bytes() {
        Some(
            SelectorView {
                name: "mi"@,
                label: "MI"@,
                polarity: Polarity::HigherIsBetter,
                metric: Metric::Mi,
            },
        )
    } else if name == "halstead.volume".spec_bytes() {
        Some(
            SelectorView {
                name: "halstead.volume"@,
                label: "Halstead Vol"@,
                polarity: Polarity::LowerIsBetter,
                metric: Metric::HalsteadVolume,
            },
        )
    } else {
        None
    }
}

/// The metric a selector names: a leading `+` or `-` sets the direction
/// that is an improvement, and the rest is the name of the metric. `None`
/// where no metric goes by that name.
pub open spec fn selector_of(text: Seq<u8>) -> Option<SelectorView> {
    if text.len() > 0 && text[0] == 43 {
        match known_metric(text.subrange(1, text.len() as int)) {
            Some(k) => Some(SelectorView { polarity: Polarity::HigherIsBetter, ..k }),
            None => None,
        }
    } else if text.len() > 0 && text[0] == 45 {
        match known_metric(text.subrange(1, text.len() as int)) {
            Some(k) => Some(SelectorView { polarity: Polarity::LowerIsBetter, ..k }),
            None => None,
        }
    } else {
        known_metric(text)
    }
}

/// The metrics that the selectors name, in their order; a selector that
/// names none is passed over.
pub open spec fn selectors_of(specs: Seq<Seq<u8>>) -> Seq<SelectorView>
    decreases specs.len(),
{
    if specs.len() == 0 {
        Seq::empty()
    } else {
        let rest = selectors_of(specs.drop_last());
        match selector_of(specs.last()) {
            Some(s) => rest.push(s),
            None => rest,
        }
    }
}

/// The metrics compared where none is asked for.
pub open spec fn default_metrics() -> Seq<Seq<u8>> {
    seq![
        "cyclomatic".spec_bytes(),
        "cognitive".spec_bytes(),
        "nom.functions".spec_bytes(),
        "loc.lloc".spec_bytes(),
    ]
}

/// The selectors as bytes.
pub open spec fn spec_bytes_of(specs: Seq<String>) -> Seq<Seq<u8>> {
    specs.map_values(|s: String| encode_utf8(s@))
}

/// The views of a list of selectors.
pub open spec fn selectors_view(v: Seq<MetricSelector>) -> Seq<SelectorView> {
    v.map_values(|s: MetricSelector| s@)
}

/// Finds the metric that goes by `name`.
fn find_metric(name: &[u8]) -> (r: Option<MetricSelector>)
    ensures
        r is Some <==> known_metric(name@) is Some,
        r is Some ==> r->0@ == known_metric(name@)->0,
{
    if bytes_equal(name, "cyclomatic".as_bytes()) {
        Some(
            MetricSelector {
                name: "cyclomatic",
                label: "Cyclomatic",
                polarity: Polarity::LowerIsBetter,
                metric: Metric::Cyclomatic,
            },
        )
    } else if bytes_equal(name, "cognitive".as_bytes()) {
        Some(
            MetricSelector {
                name: "cognitive",
                label: "Cognitive",
                polarity: Polarity::LowerIsBetter,
                metric: Metric::Cognitive,
            },
        )
    } else if bytes_equal(name, "nom.functions".as_bytes()) {
        Some(
            MetricSelector {
                name: "nom.functions",
                label: "Functions",
                polarity: Polarity::LowerIsBetter,
                metric: Metric::NomFunctions,
            },
        )
    } else if bytes_equal(name, "loc.lloc".as_bytes()) {
        Some(
            MetricSelector {
                name: "loc.lloc",
                label: "LLOC",
                polarity: Polarity::LowerIsBetter,
                metric: Metric::LocLloc,
            },
        )
    } else if bytes_equal(name, "mi".as_bytes()) {
        Some(
            MetricSelector {
                name: "mi",
                label: "MI",
                polarity: Polarity::HigherIsBetter,
                metric: Metric::Mi,
            },
        )
    } else if bytes_equal(name, "halstead.volume".as_bytes()) {
        Some(
            MetricSelector {
                name: "halstead.volume",
                label: "Halstead Vol",
                polarity: Polarity::LowerIsBetter,
                metric: Metric::HalsteadVolume,
            },
        )
    } else {
        None
    }
}

/// Reads one selector.
pub fn parse_metric_selector(text: &[u8]) -> (r: Option<MetricSelector>)
    ensures
        r is Some <==> selector_of(text@) is Some,
        r is Some ==> r->0@ == selector_of(text@)->0,
{
    if text.len() > 0 && text[0] == 43 {
        match find_metric(slice_subrange(text, 1, text.len())) {
            Some(k) => Some(MetricSelector { polarity: Polarity::HigherIsBetter, ..k }),
            None => None,
        }
    } else if text.len() > 0 && text[0] == 45 {
        match find_metric(slice_subrange(text, 1, text.len())) {
            Some(k) => Some(MetricSelector { polarity: Polarity::LowerIsBetter, ..k }),
            None => None,
        }
    } else {
        find_metric(text)
    }
}

/// Reads each selector of a list; a selector that names no metric is passed over.
fn parse_each(specs: &[String]) -> (selectors: Vec<MetricSelector>)
    ensures
        selectors_view(selectors@) == selectors_of(spec_bytes_of(specs@)),
{
    let mut selectors: Vec<MetricSelector> = Vec::new();
    let n = specs.len();
    let ghost all = spec_bytes_of(specs@);
    let mut j: usize = 0;
    assert(all.take(0) =~= Seq::<Seq<u8>>::empty());
    assert(selectors_view(selectors@) =~= selectors_of(all.take(0)));
    while j < n
        invariant
            n == specs@.len(),
            j <= n,
            all == spec_bytes_of(specs@),
            selectors_view(selectors@) == selectors_of(all.take(j as int)),
        decreases n - j,
    {
        let ghost before = selectors@;
        assert(all.take(j + 1).drop_last() =~= all.take(j as int));
        assert(all.take(j + 1).last() == encode_utf8(specs@[j as int]@));
        match parse_metric_selector(specs[j].as_str().as_bytes()) {
            Some(s) => {
                selectors.push(s);
                assert(selectors_view(selectors@) =~= selectors_view(before).push(s@));
            },
            None => {},
        }
        j += 1;
    }
    assert(all.take(n as int) =~= all);
    selectors
}

/// Reads the selectors of the metrics to compare. Where there is none, the
/// usual four are compared; a selector that names no metric is passed over.
pub fn parse_metric_selectors(specs: &[String]) -> (selectors: Vec<MetricSelector>)
    ensures
        selectors_view(selectors@) == selectors_of(
            if specs@.len() == 0 {
                default_metrics()
            } else {
                spec_bytes_of(specs@)
            },
        ),
{
    if specs.len() == 0 {
        let mut defaults: Vec<String> = Vec::new();
        defaults.push("cyclomatic".to_owned());
        defaults.push("cognitive".to_owned());
        defaults.push("nom.functions".to_owned());
        defaults.push("loc.lloc".to_owned());
        assert(spec_bytes_of(defaults@) =~= default_metrics());
        parse_each(defaults.as_slice())
    } else {
        parse_each(specs)
    }
}

/// What one cell of a comparison shows: a metric of a file at both revisions.
#[derive(Debug, Clone)]
pub struct MetricCell {
    /// The value at the head revision, as it is shown.
    pub current: String,
    /// The value at the base revision, as it is shown.
    pub baseline: String,
    /// How the value changed from the base to the head.
    pub change: Change,
    /// Which direction is an improvement.
    pub polarity: Polarity,
    /// Whether the file is new at the head.
    pub is_new: bool,
    /// Whether the file is gone at the head.
    pub is_deleted: bool,
}

/// The text of a cell: for a new file its value and the mark for new; for
/// a file that is gone a zero, the value it had, and the trend; for a value
/// that stayed the value and the mark for unchanged; else the value, the
/// value at the base under the name of the base, and the trend.
pub open spec fn cell_text(md: MetricCell, from: Seq<char>) -> Seq<char> {
    if md.is_new {
        md.current@ + " \u{1F195}"@
    } else if md.is_deleted {
        "0 (was: "@ + md.baseline@ + ") "@ + trend_text(md.change, md.polarity)
    } else if md.change == Change::Unchanged {
        md.current@ + " \u{26AA}"@
    } else {
        md.current@ + " ("@ + from + ": "@ + md.baseline@ + ") "@ + trend_text(
            md.change,
            md.polarity,
        )
    }
}

/// Writes the text of a cell.
pub fn format_metric_cell(md: &MetricCell, from: &str) -> (r: String)
    ensures
        r@ == cell_text(*md, from@),
{
    if md.is_new {
        return md.current.clone().concat(" \u{1F195}");
    }
    if md.is_deleted {
        let emoji = trend_emoji(md.change, md.polarity);
        return "0 (was: ".to_owned().concat(md.baseline.as_str()).concat(") ").concat(emoji);
    }
    if md.change == Change::Unchanged {
        return md.current.clone().concat(" \u{26AA}");
    }
    let emoji = trend_emoji(md.change, md.polarity);
    md.current.clone().concat(" (").concat(from).concat(": ").concat(md.baseline.as_str()).concat(
        ") ",
    ).concat(emoji)
}

/// One row of a comparison: a file and the text of each of its cells.
#[derive(Debug, Clone)]
pub struct Row {
    /// The path of the file.
    pub path: String,
    /// The text of each cell, in the order of the columns.
    pub cells: Vec<String>,
}

/// The texts of a list of strings.
pub open spec fn texts(v: Seq<String>) -> Seq<Seq<char>> {
    v.map_values(|s: String| s@)
}

/// The line above a comparison: which revisions are compared.
pub open spec fn title_text(from: Seq<char>, to: Seq<char>) -> Seq<char> {
    "## [Mehen](https://github.com/ophidiarium/mehen) Summary (`"@ + from + "`..`"@ + to
        + "`)\n\n"@
}

/// The head of the table: the column of the files, then one column for each label.
pub open spec fn header_text(labels: Seq<Seq<char>>) -> Seq<char>
    decreases labels.len(),
{
    if labels.len() == 0 {
        "| File |"@
    } else {
        header_text(labels.drop_last()) + " "@ + labels.last() + " |"@
    }
}

/// The line under the head: the first column, then `n` columns set to the right.
pub open spec fn separator_text(n: nat) -> Seq<char>
    decreases n,
{
    if n == 0 {
        "|---|"@
    } else {
        separator_text((n - 1) as nat) + "---:|"@
    }
}

/// The cells of a row, each between a blank and a bar.
pub open spec fn cells_text(cells: Seq<Seq<char>>) -> Seq<char>
    decreases cells.len(),
{
    if cells.len() == 0 {
        Seq::empty()
    } else {
        cells_text(cells.drop_last()) + " "@ + cells.last() + " |"@
    }
}

/// A row: the file, then its cells, then the end of the line.
pub open spec fn row_text(row: Row) -> Seq<char> {
    "| "@ + row.path@ + " |"@ + cells_text(texts(row.cells@)) + "\n"@
}

/// The rows one after the other.
pub open spec fn rows_text(rows: Seq<Row>) -> Seq<char>
    decreases rows.len(),
{
    if rows.len() == 0 {
        Seq::empty()
    } else {
        rows_text(rows.drop_last()) + row_text(rows.last())
    }
}

/// A comparison as Markdown: the title, and then either the note that
/// nothing changed or the table of the files.
pub open spec fn markdown_text(
    rows: Seq<Row>,
    labels: Seq<Seq<char>>,
    from: Seq<char>,
    to: Seq<char>,
) -> Seq<char> {
    if rows.len() == 0 {
        title_text(from, to) + "No metric changes detected.\n"@
    } else {
        title_text(from, to) + header_text(labels) + "\n"@ + separator_text(labels.len()) + "\n"@
            + rows_text(rows)
    }
}

/// Writes the cells of a row.
fn render_cells(cells: &Vec<String>) -> (out: String)
    ensures
        out@ == cells_text(texts(cells@)),
{
    let mut out = String::new();
    let n = cells.len();
    let mut j: usize = 0;
    assert(texts(cells@).take(0) =~= Seq::<Seq<char>>::empty());
    while j < n
        invariant
            n == cells@.len(),
            j <= n,
            out@ == cells_text(texts(cells@).take(j as int)),
        decreases n - j,
    {
        assert(texts(cells@).take(j + 1).drop_last() =~= texts(cells@).take(j as int));
        out.append(" ");
        out.append(cells[j].as_str());
        out.append(" |");
        j += 1;
    }
    assert(texts(cells@).take(n as int) =~= texts(cells@));
    out
}

/// Writes a comparison as Markdown.
pub fn render_markdown(rows: &Vec<Row>, labels: &Vec<String>, from: &str, to: &str) -> (out: String)
    ensures
        out@ == markdown_text(rows@, texts(labels@), from@, to@),
{
    let mut out = "## [Mehen](https://github.com/ophidiarium/mehen) Summary (`".to_owned();
    out.append(from);
    out.append("`..`");
    out.append(to);
    out.append("`)\n\n");
    if rows.len() == 0 {
        out.append("No metric changes detected.\n");
        return out;
    }
    let ghost title = out@;
    // Header
    out.append("| File |");
    let n = labels.len();
    let mut j: usize = 0;
    assert(texts(labels@).take(0) =~= Seq::<Seq<char>>::empty());
    while j < n
        invariant
            n == labels@.len(),
            j <= n,
            out@ == title + header_text(texts(labels@).take(j as int)),
        decreases n - j,
    {
        assert(texts(labels@).take(j + 1).drop_last() =~= texts(labels@).take(j as int));
        let ghost before = out@;
        out.append(" ");
        out.append(labels[j].as_str());
        out.append(" |");
        assert(out@ =~= title + (header_text(texts(labels@).take(j as int)) + " "@
            + labels@[j as int]@ + " |"@));
        j += 1;
    }
    assert(texts(labels@).take(n as int) =~= texts(labels@));
    out.append("\n");
    // Separator
    let ghost head = out@;
    out.append("|---|");
    let mut j: usize = 0;
    while j < n
        invariant
            j <= n,
            out@ == head + separator_text(j as nat),
        decreases n - j,
    {
        out.append("---:|");
        assert(out@ =~= head + (separator_text(j as nat) + "---:|"@));
        j += 1;
    }
    out.append("\n");
    // Rows
    let ghost top = out@;
    let m = rows.len();
    let mut j: usize = 0;
    assert(rows@.take(0) =~= Seq::<Row>::empty());
    assert(out@ =~= top + rows_text(rows@.take(0)));
    while j < m
        invariant
            m == rows@.len(),
            j <= m,
            out@ == top + rows_text(rows@.take(j as int)),
        decreases m - j,
    {
        assert(rows@.take(j + 1).drop_last() =~= rows@.take(j as int));
        let cells = render_cells(&rows[j].cells);
        out.append("| ");
        out.append(rows[j].path.as_str());
        out.append(" |");
        out.append(cells.as_str());
        out.append("\n");
        assert(out@ =~= top + (rows_text(rows@.take(j as int)) + row_text(rows@[j as int])));
        j += 1;
    }
    assert(rows@.take(m as int) =~= rows@);
    assert(out@ =~= title + header_text(texts(labels@)) + "\n"@ + separator_text(n as nat) + "\n"@
        + rows_text(rows@));
    out
}

} // verus!
