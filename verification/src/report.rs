//! What a pass over the processes has to show: the record of each process
//! that was looked at, the statistics, and the summary for the user.

use crate::config::{Config, ConfigView};
use crate::error::{BoosterError, BoosterErrorView};
use crate::priority::{PriorityChange, PriorityLevel};
use crate::text::{decimal, joined, push_decimal, push_joined};
use vstd::prelude::*;
use vstd::string::StringExecFns;

verus! {

/// The version that the summaries name.
pub const VERSION: &'static str = "2.0.0";

/// The line that opens the warnings of a summary.
pub const WARNINGS_HEADING: &'static str = "\u{26a0}\u{fe0f} Warnings:";

/// What came of one process in a pass.
#[derive(Debug, PartialEq, Eq)]
pub enum ItemResult {
    /// The process was not attempted, for this reason.
    Skipped(BoosterError),
    /// The process was not attempted: it is tracked already.
    AlreadyTracked,
    /// The priority session ended in success.
    Succeeded(PriorityChange),
    /// The priority session failed.
    Failed(BoosterError),
}

/// An `ItemResult` with its texts as character sequences.
pub enum ItemResultView {
    Skipped(BoosterErrorView),
    AlreadyTracked,
    Succeeded(PriorityChange),
    Failed(BoosterErrorView),
}

impl View for ItemResult {
    type V = ItemResultView;

    open spec fn view(&self) -> ItemResultView {
        match *self {
            ItemResult::Skipped(error) => ItemResultView::Skipped(error@),
            ItemResult::AlreadyTracked => ItemResultView::AlreadyTracked,
            ItemResult::Succeeded(change) => ItemResultView::Succeeded(change),
            ItemResult::Failed(error) => ItemResultView::Failed(error@),
        }
    }
}

/// One process of a pass, with what came of it.
#[derive(Debug, PartialEq, Eq)]
pub struct Record {
    pub pid: u32,
    pub name: String,
    pub result: ItemResult,
}

/// A `Record` with its texts as character sequences.
pub struct RecordView {
    pub pid: u32,
    pub name: Seq<char>,
    pub result: ItemResultView,
}

impl View for Record {
    type V = RecordView;

    open spec fn view(&self) -> RecordView {
        RecordView { pid: self.pid, name: self.name@, result: self.result@ }
    }
}

impl DeepView for Record {
    type V = RecordView;

    open spec fn deep_view(&self) -> RecordView {
        self@
    }
}

/// The statistics of the last boost.
#[derive(Clone, Copy, Debug, PartialEq, Eq, Structural)]
pub struct OptimizationStats {
    pub processes_boosted: usize,
    pub memory_cleared: bool,
    pub priority_level: PriorityLevel,
    /// Whether a boosted process was left at a class that favours its
    /// graphics work. This is read off the priority class; nothing is done
    /// to the graphics scheduler itself.
    pub gpu_boosted: bool,
}

/// The statistics before any boost, and after the booster was disabled.
pub open spec fn no_stats() -> OptimizationStats {
    OptimizationStats {
        processes_boosted: 0,
        memory_cleared: false,
        priority_level: PriorityLevel::Normal,
        gpu_boosted: false,
    }
}

impl Default for OptimizationStats {
    fn default() -> (stats: OptimizationStats)
        ensures
            stats == no_stats(),
    {
        OptimizationStats {
            processes_boosted: 0,
            memory_cleared: false,
            priority_level: PriorityLevel::Normal,
            gpu_boosted: false,
        }
    }
}

/// What the user is told of a pass: a headline, what went well, and what
/// did not.
#[derive(Debug, PartialEq, Eq)]
pub struct Summary {
    pub headline: String,
    pub successes: Vec<String>,
    pub warnings: Vec<String>,
}

/// A `Summary` with its texts as character sequences.
pub struct SummaryView {
    pub headline: Seq<char>,
    pub successes: Seq<Seq<char>>,
    pub warnings: Seq<Seq<char>>,
}

impl View for Summary {
    type V = SummaryView;

    open spec fn view(&self) -> SummaryView {
        SummaryView {
            headline: self.headline@,
            successes: self.successes.deep_view(),
            warnings: self.warnings.deep_view(),
        }
    }
}

impl SummaryView {
    /// The summary as one text of several lines: the headline; after an
    /// empty line the successes, one per line; after another empty line the
    /// heading of the warnings and the warnings, one per line. A part that
    /// has no lines is left out.
    pub open spec fn message(self) -> Seq<char> {
        let successes = if self.successes.len() > 0 {
            "\n\n"@ + joined(self.successes, "\n"@)
        } else {
            Seq::empty()
        };
        let warnings = if self.warnings.len() > 0 {
            "\n\n"@ + WARNINGS_HEADING@ + "\n"@ + joined(self.warnings, "\n"@)
        } else {
            Seq::empty()
        };
        self.headline + successes + warnings
    }
}

impl Summary {
    /// The summary as one text of several lines.
    pub fn message(&self) -> (text: String)
        ensures
            text@ == self@.message(),
    {
        let mut text = self.headline.clone();
        if self.successes.len() > 0 {
            text.append("\n\n");
            push_joined(&mut text, &self.successes, "\n");
        }
        if self.warnings.len() > 0 {
            text.append("\n\n");
            text.append(WARNINGS_HEADING);
            text.append("\n");
            push_joined(&mut text, &self.warnings, "\n");
        }
        text
    }
}

/// The kinds of line that are drawn from the records of a pass.
#[derive(Clone, Copy, Debug, PartialEq, Eq, Structural)]
pub enum LineKind {
    /// A process whose priority session succeeded.
    CpuSuccess,
    /// A process that was skipped for a reason, or whose session failed.
    CpuWarning,
    /// A boosted process that was left at a class that favours graphics.
    GpuSuccess,
    /// A boosted process that was not.
    GpuWarning,
    /// A process whose restoration failed.
    RestoreWarning,
    /// The bare name of a process whose session succeeded.
    BoostedName,
}

/// Whether a record is that of a session that ended in success.
pub open spec fn has_succeeded(record: RecordView) -> bool {
    record.result is Succeeded
}

/// Whether a record is that of a process left at a class that favours
/// graphics.
pub open spec fn left_gpu_friendly(record: RecordView) -> bool {
    record.result matches ItemResultView::Succeeded(change) && change.class is Some
        && change.class->0.gpu_friendly()
}

/// The line of the given kind that a record gives, if it gives one.
pub open spec fn line(kind: LineKind, record: RecordView) -> Option<Seq<char>> {
    match kind {
        LineKind::CpuSuccess => if has_succeeded(record) {
            Some(
                "\u{2713} CPU: "@ + record.name + " (PID: "@ + decimal(record.pid as nat) + ")"@,
            )
        } else {
            None
        },
        LineKind::CpuWarning => match record.result {
            ItemResultView::Skipped(error) => Some(
                "\u{26a0}\u{fe0f} Skipped "@ + record.name + ": "@ + error.message(),
            ),
            ItemResultView::Failed(error) => Some(
                "\u{2717} CPU Failed "@ + record.name + ": "@ + error.message(),
            ),
            _ => None,
        },
        LineKind::GpuSuccess => if left_gpu_friendly(record) {
            Some("\u{2713} GPU: "@ + record.name)
        } else {
            None
        },
        LineKind::GpuWarning => if has_succeeded(record) && !left_gpu_friendly(record) {
            Some(
                "\u{26a0}\u{fe0f} GPU "@ + record.name
                    + ": GPU optimization failed: CPU priority too low for GPU boost"@,
            )
        } else {
            None
        },
        LineKind::RestoreWarning => match record.result {
            ItemResultView::Failed(error) => Some(
                "PID "@ + decimal(record.pid as nat) + ": "@ + error.message(),
            ),
            _ => None,
        },
        LineKind::BoostedName => if has_succeeded(record) {
            Some(record.name)
        } else {
            None
        },
    }
}

/// The lines of the given kind that the records give, in their order.
pub open spec fn lines(kind: LineKind, records: Seq<RecordView>) -> Seq<Seq<char>>
    decreases records.len(),
{
    if records.len() == 0 {
        Seq::empty()
    } else {
        match line(kind, records.last()) {
            Some(text) => lines(kind, records.drop_last()).push(text),
            None => lines(kind, records.drop_last()),
        }
    }
}

/// How many of the records are those of a session that succeeded.
pub open spec fn succeeded(records: Seq<RecordView>) -> nat
    decreases records.len(),
{
    if records.len() == 0 {
        0
    } else if has_succeeded(records.last()) {
        succeeded(records.drop_last()) + 1
    } else {
        succeeded(records.drop_last())
    }
}

/// Whether one of the records is that of a process left at a class that
/// favours graphics.
pub open spec fn any_gpu_friendly(records: Seq<RecordView>) -> bool {
    exists|i: int| 0 <= i < records.len() && left_gpu_friendly(#[trigger] records[i])
}

fn is_gpu_friendly(record: &Record) -> (yes: bool)
    ensures
        yes == left_gpu_friendly(record@),
{
    match &record.result {
        ItemResult::Succeeded(change) => match change.class {
            Some(class) => class.is_gpu_friendly(),
            None => false,
        },
        _ => false,
    }
}

fn is_success(record: &Record) -> (yes: bool)
    ensures
        yes == has_succeeded(record@),
{
    match &record.result {
        ItemResult::Succeeded(_) => true,
        _ => false,
    }
}

/// The line of the given kind that a record gives, if it gives one.
pub fn line_of(kind: LineKind, record: &Record) -> (text: Option<String>)
    ensures
        text.deep_view() == line(kind, record@),
{
    match kind {
        LineKind::CpuSuccess => {
            if is_success(record) {
                let mut text = String::from_str("\u{2713} CPU: ");
                text.append(record.name.as_str());
                text.append(" (PID: ");
                push_decimal(&mut text, record.pid as u64);
                text.append(")");
                Some(text)
            } else {
                None
            }
        },
        LineKind::CpuWarning => {
            match &record.result {
                ItemResult::Skipped(error) => {
                    let mut text = String::from_str("\u{26a0}\u{fe0f} Skipped ");
                    text.append(record.name.as_str());
                    text.append(": ");
                    text.append(error.message().as_str());
                    Some(text)
                },
                ItemResult::Failed(error) => {
                    let mut text = String::from_str("\u{2717} CPU Failed ");
                    text.append(record.name.as_str());
                    text.append(": ");
                    text.append(error.message().as_str());
                    Some(text)
                },
                _ => None,
            }
        },
        LineKind::GpuSuccess => {
            if is_gpu_friendly(record) {
                let mut text = String::from_str("\u{2713} GPU: ");
                text.append(record.name.as_str());
                Some(text)
            } else {
                None
            }
        },
        LineKind::GpuWarning => {
            if is_success(record) && !is_gpu_friendly(record) {
                let mut text = String::from_str("\u{26a0}\u{fe0f} GPU ");
                text.append(record.name.as_str());
                text.append(": GPU optimization failed: CPU priority too low for GPU boost");
                Some(text)
            } else {
                None
            }
        },
        LineKind::RestoreWarning => {
            match &record.result {
                ItemResult::Failed(error) => {
                    let mut text = String::from_str("PID ");
                    push_decimal(&mut text, record.pid as u64);
                    text.append(": ");
                    text.append(error.message().as_str());
                    Some(text)
                },
                _ => None,
            }
        },
        LineKind::BoostedName => {
            if is_success(record) {
                Some(record.name.clone())
            } else {
                None
            }
        },
    }
}

/// Appends to `out` the lines of the given kind that the records give.
pub fn collect_lines(out: &mut Vec<String>, kind: LineKind, records: &Vec<Record>)
    ensures
        final(out).deep_view() == old(out).deep_view() + lines(kind, records.deep_view()),
{
    let ghost all = records.deep_view();
    let ghost start = out.deep_view();
    let mut i: usize = 0;
    while i < records.len()
        invariant
            i <= records.len(),
            all == records.deep_view(),
            out.deep_view() == start + lines(kind, all.take(i as int)),
        decreases records.len() - i,
    {
        assert(all.take(i + 1).drop_last() =~= all.take(i as int));
        let ghost before = out.deep_view();
        match line_of(kind, &records[i]) {
            Some(text) => {
                out.push(text);
                assert(out.deep_view() =~= before.push(text@));
            },
            None => {},
        }
        i += 1;
    }
    assert(all.take(records.len() as int) =~= all);
}

/// How many of the records are those of a session that succeeded.
pub fn count_succeeded(records: &Vec<Record>) -> (count: usize)
    ensures
        count == succeeded(records.deep_view()),
        count <= records.len(),
{
    let ghost all = records.deep_view();
    let mut count: usize = 0;
    let mut i: usize = 0;
    while i < records.len()
        invariant
            i <= records.len(),
            all == records.deep_view(),
            count == succeeded(all.take(i as int)),
            count <= i,
        decreases records.len() - i,
    {
        assert(all.take(i + 1).drop_last() =~= all.take(i as int));
        if is_success(&records[i]) {
            count += 1;
        }
        i += 1;
    }
    assert(all.take(records.len() as int) =~= all);
    count
}

fn has_gpu_friendly(records: &Vec<Record>) -> (found: bool)
    ensures
        found == any_gpu_friendly(records.deep_view()),
{
    let ghost all = records.deep_view();
    let mut i: usize = 0;
    while i < records.len()
        invariant
            i <= records.len(),
            all == records.deep_view(),
            forall|j: int| 0 <= j < i ==> !left_gpu_friendly(#[trigger] all[j]),
        decreases records.len() - i,
    {
        assert(all[i as int] == records@[i as int]@);
        if is_gpu_friendly(&records[i]) {
            return true;
        }
        i += 1;
    }
    false
}

/// The statistics that a boost leaves behind.
pub open spec fn enable_stats(config: ConfigView, records: Seq<RecordView>) -> OptimizationStats {
    OptimizationStats {
        processes_boosted: succeeded(records) as usize,
        memory_cleared: config.clear_memory_cache,
        priority_level: config.target_level(),
        gpu_boosted: config.enable_gpu_boost && any_gpu_friendly(records),
    }
}

/// The headline of a boost that reached `count` processes.
pub open spec fn enable_headline(count: nat) -> Seq<char> {
    "\u{1f680} Booster v"@ + VERSION@ + " enabled - "@ + decimal(count)
        + " process(es) optimized"@
}

/// The summary of a boost: the processes that were boosted, then, where the
/// preferences ask for them, the graphics report for each of these and the
/// note on memory; as warnings the processes that were skipped or failed,
/// then the graphics report for those left too low.
pub open spec fn enable_summary(config: ConfigView, records: Seq<RecordView>) -> SummaryView {
    let graphics = if config.enable_gpu_boost {
        lines(LineKind::GpuSuccess, records)
    } else {
        Seq::empty()
    };
    let memory = if config.clear_memory_cache {
        seq!["\u{2713} Memory optimization enabled"@]
    } else {
        Seq::empty()
    };
    let low = if config.enable_gpu_boost {
        lines(LineKind::GpuWarning, records)
    } else {
        Seq::empty()
    };
    SummaryView {
        headline: enable_headline(succeeded(records)),
        successes: lines(LineKind::CpuSuccess, records) + graphics + memory,
        warnings: lines(LineKind::CpuWarning, records) + low,
    }
}

/// What a boost returns: the summary, or `NoProcessesFound` where no
/// process was boosted.
pub open spec fn enable_result(config: ConfigView, records: Seq<RecordView>) -> Result<
    SummaryView,
    BoosterErrorView,
> {
    if succeeded(records) == 0 {
        Err(BoosterErrorView::NoProcessesFound)
    } else {
        Ok(enable_summary(config, records))
    }
}

/// A summary, or the error in its place, with the texts as character
/// sequences.
pub open spec fn result_view(result: Result<Summary, BoosterError>) -> Result<
    SummaryView,
    BoosterErrorView,
> {
    match result {
        Ok(summary) => Ok(summary@),
        Err(error) => Err(error@),
    }
}

/// A summary, where there is one, with the texts as character sequences.
pub open spec fn optional_view(summary: Option<Summary>) -> Option<SummaryView> {
    match summary {
        Some(summary) => Some(summary@),
        None => None,
    }
}

/// The statistics of a boost with the given records.
pub fn enable_statistics(config: &Config, records: &Vec<Record>) -> (stats: OptimizationStats)
    ensures
        stats == enable_stats(config@, records.deep_view()),
{
    OptimizationStats {
        processes_boosted: count_succeeded(records),
        memory_cleared: config.clear_memory_cache,
        priority_level: config.target_level(),
        gpu_boosted: config.enable_gpu_boost && has_gpu_friendly(records),
    }
}

/// What a boost with the given records returns.
pub fn enable_report(config: &Config, records: &Vec<Record>) -> (result: Result<
    Summary,
    BoosterError,
>)
    ensures
        result_view(result) == enable_result(config@, records.deep_view()),
{
    let count = count_succeeded(records);
    if count == 0 {
        return Err(BoosterError::NoProcessesFound);
    }
    let mut headline = String::from_str("\u{1f680} Booster v");
    headline.append(VERSION);
    headline.append(" enabled - ");
    push_decimal(&mut headline, count as u64);
    headline.append(" process(es) optimized");
    let mut successes: Vec<String> = Vec::new();
    let mut warnings: Vec<String> = Vec::new();
    collect_lines(&mut successes, LineKind::CpuSuccess, records);
    collect_lines(&mut warnings, LineKind::CpuWarning, records);
    if config.enable_gpu_boost {
        collect_lines(&mut successes, LineKind::GpuSuccess, records);
        collect_lines(&mut warnings, LineKind::GpuWarning, records);
    }
    if config.clear_memory_cache {
        let note = String::from_str("\u{2713} Memory optimization enabled");
        successes.push(note);
    }
    let summary = Summary { headline, successes, warnings };
    assert(summary@.successes =~= enable_summary(config@, records.deep_view()).successes);
    Ok(summary)
}

/// The summary of a restoration: how many of the tracked processes were
/// restored, and as warnings those whose restoration failed.
pub open spec fn disable_summary(records: Seq<RecordView>) -> SummaryView {
    SummaryView {
        headline: "\u{1f53b} Booster v"@ + VERSION@ + " disabled - "@ + decimal(
            succeeded(records),
        ) + "/"@ + decimal(records.len()) + " processes restored"@,
        successes: Seq::empty(),
        warnings: lines(LineKind::RestoreWarning, records),
    }
}

/// The summary of a restoration with the given records.
pub fn disable_report(records: &Vec<Record>) -> (summary: Summary)
    ensures
        summary@ == disable_summary(records.deep_view()),
{
    let mut headline = String::from_str("\u{1f53b} Booster v");
    headline.append(VERSION);
    headline.append(" disabled - ");
    push_decimal(&mut headline, count_succeeded(records) as u64);
    headline.append("/");
    push_decimal(&mut headline, records.len() as u64);
    headline.append(" processes restored");
    let successes: Vec<String> = Vec::new();
    let mut warnings: Vec<String> = Vec::new();
    collect_lines(&mut warnings, LineKind::RestoreWarning, records);
    let summary = Summary { headline, successes, warnings };
    assert(summary@.successes =~= Seq::<Seq<char>>::empty());
    summary
}

/// A summary that is a headline and nothing else.
pub open spec fn notice(headline: Seq<char>) -> SummaryView {
    SummaryView { headline, successes: Seq::empty(), warnings: Seq::empty() }
}

/// What a periodic scan reports: nothing where no process was boosted, else
/// the number and the names of the processes that were.
pub open spec fn auto_detect_result(records: Seq<RecordView>) -> Option<SummaryView> {
    let names = lines(LineKind::BoostedName, records);
    if names.len() == 0 {
        None
    } else {
        Some(
            notice(
                "\u{2713} Auto-boosted "@ + decimal(names.len()) + " process(es): "@ + joined(
                    names,
                    ", "@,
                ),
            ),
        )
    }
}

fn headline_only(headline: String) -> (summary: Summary)
    ensures
        summary@ == notice(headline@),
{
    let summary = Summary { headline, successes: Vec::new(), warnings: Vec::new() };
    assert(summary@.warnings =~= Seq::<Seq<char>>::empty());
    summary
}

/// What a periodic scan with the given records reports.
pub fn auto_detect_report(records: &Vec<Record>) -> (summary: Option<Summary>)
    ensures
        optional_view(summary) == auto_detect_result(records.deep_view()),
{
    let mut names: Vec<String> = Vec::new();
    collect_lines(&mut names, LineKind::BoostedName, records);
    if names.len() == 0 {
        return None;
    }
    let mut headline = String::from_str("\u{2713} Auto-boosted ");
    push_decimal(&mut headline, names.len() as u64);
    headline.append(" process(es): ");
    push_joined(&mut headline, &names, ", ");
    Some(headline_only(headline))
}

/// The notice that no further process can be tracked.
pub open spec fn limit_notice(held: nat, limit: nat) -> SummaryView {
    notice(
        "\u{26a0}\u{fe0f} Max processes reached ("@ + decimal(held) + "/"@ + decimal(limit)
            + ")"@,
    )
}

/// The notice that no further process can be tracked.
pub fn limit_report(held: usize, limit: usize) -> (summary: Summary)
    ensures
        summary@ == limit_notice(held as nat, limit as nat),
{
    let mut headline = String::from_str("\u{26a0}\u{fe0f} Max processes reached (");
    push_decimal(&mut headline, held as u64);
    headline.append("/");
    push_decimal(&mut headline, limit as u64);
    headline.append(")");
    headline_only(headline)
}

} // verus!
