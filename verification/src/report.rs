//! One run: the lines gathered so far, the complaints, and the exit status.
//! The caller does the reading (is the path there, what does the mount
//! table hold, what are the counters) and hands in what it found.

use vstd::prelude::*;
use vstd::string::*;
use crate::layout::{header_format_entry, header_row, render_table, rows_view, table_text};
use crate::mount::{owner, MountEntry, MountEntryView};
use crate::mtab::{find_mount, table_lines, whole_table};
use crate::usage::{
    mount_entry_to_format_entry, stat_view, usage_outcome, FormatEntry, FormatEntryView, Options,
    Outcome, OutcomeView, StatVFs,
};

verus! {

/// Why a path given on the command line is not reported.
#[derive(Debug)]
pub enum Failure {
    /// The path itself cannot be looked at.
    PathAccessError { path: String, reason: String },
    /// The mount table cannot be read, or a line of it does not read.
    MountTableReadFailure { reason: String },
    /// The path lies under no mount point of the table.
    MountNotFound { path: String },
}

/// A failure over texts.
pub ghost enum FailureView {
    PathAccessError { path: Seq<char>, reason: Seq<char> },
    MountTableReadFailure { reason: Seq<char> },
    MountNotFound { path: Seq<char> },
}

impl View for Failure {
    type V = FailureView;

    open spec fn view(&self) -> FailureView {
        match self {
            Failure::PathAccessError { path, reason } => FailureView::PathAccessError {
                path: path@,
                reason: reason@,
            },
            Failure::MountTableReadFailure { reason } => FailureView::MountTableReadFailure {
                reason: reason@,
            },
            Failure::MountNotFound { path } => FailureView::MountNotFound { path: path@ },
        }
    }
}

/// The complaint that a failure is shown as.
pub open spec fn failure_text(failure: FailureView) -> Seq<char> {
    match failure {
        FailureView::PathAccessError { path, reason } => path + ": "@ + reason,
        FailureView::MountTableReadFailure { reason } => reason,
        FailureView::MountNotFound { path } => path + ": Can't find mount entry"@,
    }
}

impl Failure {
    /// Words the failure as one line for the error stream.
    pub fn diagnostic(&self) -> (text: String)
        ensures
            text@ == failure_text(self@),
    {
        match self {
            Failure::PathAccessError { path, reason } => {
                let mut text: String = path.clone();
                text.append(": ");
                text.append(reason.as_str());
                text
            },
            Failure::MountTableReadFailure { reason } => reason.clone(),
            Failure::MountNotFound { path } => {
                let mut text: String = path.clone();
                text.append(": Can't find mount entry");
                text
            },
        }
    }
}

/// What the caller found when it looked for a path and for the mount table.
#[derive(Debug)]
pub enum Probe {
    /// The path cannot be looked at, for this reason.
    Inaccessible(String),
    /// The path is there, but the mount table cannot be read, for this reason.
    TableUnreadable(String),
    /// The path is there, and these are the bytes of the mount table.
    Table(Vec<u8>),
}

/// A probe over texts and bytes.
pub ghost enum ProbeView {
    Inaccessible(Seq<char>),
    TableUnreadable(Seq<char>),
    Table(Seq<u8>),
}

impl View for Probe {
    type V = ProbeView;

    open spec fn view(&self) -> ProbeView {
        match self {
            Probe::Inaccessible(reason) => ProbeView::Inaccessible(reason@),
            Probe::TableUnreadable(reason) => ProbeView::TableUnreadable(reason@),
            Probe::Table(bytes) => ProbeView::Table(bytes@),
        }
    }
}

/// The filesystem to report for `path`, or why there is none: the path must
/// be there, the table must read whole, and one of its entries must own the
/// path.
pub open spec fn located(path: Seq<char>, probe: ProbeView) -> Result<MountEntryView, FailureView> {
    match probe {
        ProbeView::Inaccessible(reason) => Err(FailureView::PathAccessError { path, reason }),
        ProbeView::TableUnreadable(reason) => Err(FailureView::MountTableReadFailure { reason }),
        ProbeView::Table(bytes) => match whole_table(table_lines(bytes)) {
            Err(reason) => Err(FailureView::MountTableReadFailure { reason }),
            Ok(mounts) => match owner(path, mounts) {
                Some(i) => Ok(mounts[i]),
                None => Err(FailureView::MountNotFound { path }),
            },
        },
    }
}

/// Finds the filesystem to report for a path given on the command line.
pub fn locate_mount(path: &str, probe: &Probe) -> (found: Result<MountEntry, Failure>)
    ensures
        match located(path@, probe@) {
            Ok(entry) => found matches Ok(e) && e@ == entry,
            Err(failure) => found matches Err(f) && f@ == failure,
        },
{
    match probe {
        Probe::Inaccessible(reason) => Err(
            Failure::PathAccessError { path: String::from_str(path), reason: reason.clone() },
        ),
        Probe::TableUnreadable(reason) => Err(
            Failure::MountTableReadFailure { reason: reason.clone() },
        ),
        Probe::Table(bytes) => match find_mount(path, bytes.as_slice()) {
            Err(error) => Err(Failure::MountTableReadFailure { reason: error.desc }),
            Ok(Some(entry)) => Ok(entry),
            Ok(None) => Err(Failure::MountNotFound { path: String::from_str(path) }),
        },
    }
}

/// The state of one run.
#[derive(Debug)]
pub struct Report {
    pub opts: Options,
    /// The lines of the table so far, the heading first.
    pub format_entries: Vec<FormatEntry>,
    /// The complaints so far, in the order in which they arose.
    pub diagnostics: Vec<String>,
    /// The exit status so far: 0, or 1 once anything has failed.
    pub status: i32,
}

/// The state of a run over texts.
pub ghost struct ReportView {
    pub kilo_flag: bool,
    pub rows: Seq<FormatEntryView>,
    pub diagnostics: Seq<Seq<char>>,
    pub status: int,
}

/// Texts of strings.
pub open spec fn texts(strings: Seq<String>) -> Seq<Seq<char>> {
    strings.map_values(|s: String| s@)
}

impl View for Report {
    type V = ReportView;

    open spec fn view(&self) -> ReportView {
        ReportView {
            kilo_flag: self.opts.kilo_flag,
            rows: rows_view(self.format_entries@),
            diagnostics: texts(self.diagnostics@),
            status: self.status as int,
        }
    }
}

/// A run at its start: the heading, no complaint, status 0.
pub open spec fn fresh(kilo_flag: bool) -> ReportView {
    ReportView {
        kilo_flag,
        rows: seq![header_row(kilo_flag)],
        diagnostics: Seq::<Seq<char>>::empty(),
        status: 0,
    }
}

/// What holds of a run at every moment: the heading is the first line, and
/// the exit status is 1 where there is a complaint and 0 where there is none.
pub open spec fn well_formed(report: ReportView) -> bool {
    &&& report.rows.len() >= 1
    &&& report.rows[0] == header_row(report.kilo_flag)
    &&& report.status == if report.diagnostics.len() > 0 {
        1int
    } else {
        0int
    }
}

/// A run after a complaint: the complaint is added, the status is 1, the
/// lines are as they were.
pub open spec fn complained(report: ReportView, text: Seq<char>) -> ReportView {
    ReportView { diagnostics: report.diagnostics.push(text), status: 1, ..report }
}

/// A run after an outcome: a line is added to the table, nothing changes, or
/// the complaint is added and the status is 1.
pub open spec fn recorded(report: ReportView, outcome: OutcomeView) -> ReportView {
    match outcome {
        OutcomeView::Row(row) => ReportView { rows: report.rows.push(row), ..report },
        OutcomeView::Skip => report,
        OutcomeView::QueryFailed(text) => complained(report, text),
    }
}

/// A run keeps its form through every complaint and every outcome.
pub proof fn lemma_form_is_kept(report: ReportView, text: Seq<char>, outcome: OutcomeView)
    requires
        well_formed(report),
    ensures
        well_formed(fresh(report.kilo_flag)),
        well_formed(complained(report, text)),
        well_formed(recorded(report, outcome)),
{
}

/// A filesystem together with what reading its counters gave.
#[derive(Debug)]
pub struct Reading {
    pub mount_entry: MountEntry,
    pub stat: Result<StatVFs, String>,
}

/// A reading over texts.
pub ghost struct ReadingView {
    pub mount_entry: MountEntryView,
    pub stat: Result<StatVFs, Seq<char>>,
}

impl View for Reading {
    type V = ReadingView;

    open spec fn view(&self) -> ReadingView {
        ReadingView { mount_entry: self.mount_entry@, stat: stat_view(self.stat) }
    }
}

/// Readings over texts.
pub open spec fn readings_view(readings: Seq<Reading>) -> Seq<ReadingView> {
    readings.map_values(|reading: Reading| reading@)
}

/// What a reading comes to in a run that lists every filesystem.
pub open spec fn listed_outcome(reading: ReadingView, kilo_flag: bool) -> OutcomeView {
    usage_outcome(reading.mount_entry, reading.stat, kilo_flag, false)
}

/// A run after a list of readings, each noted in turn as one of a listing
/// of every filesystem.
pub open spec fn recorded_all(report: ReportView, readings: Seq<ReadingView>) -> ReportView
    decreases readings.len(),
{
    if readings.len() == 0 {
        report
    } else {
        recorded(
            recorded_all(report, readings.drop_last()),
            listed_outcome(readings.last(), report.kilo_flag),
        )
    }
}

/// Noting readings never touches the unit, never takes a line or a
/// complaint away, never turns a failed run into a good one, and keeps the
/// form of the run.
pub proof fn lemma_recorded_all_grows(report: ReportView, readings: Seq<ReadingView>)
    ensures
        well_formed(report) ==> well_formed(recorded_all(report, readings)),
        recorded_all(report, readings).kilo_flag == report.kilo_flag,
        report.rows.is_prefix_of(recorded_all(report, readings).rows),
        report.diagnostics.is_prefix_of(recorded_all(report, readings).diagnostics),
        report.status == 1 ==> recorded_all(report, readings).status == 1,
    decreases readings.len(),
{
    if readings.len() > 0 {
        lemma_recorded_all_grows(report, readings.drop_last());
    }
}

/// In a listing of every filesystem, a reading that fails costs no other
/// filesystem its line: every filesystem with blocks whose counters were
/// read has its line in the table and every failed reading has its
/// complaint, in the order of the readings; and where any reading failed
/// the exit status is 1.
pub proof fn lemma_failures_cost_no_lines(report: ReportView, readings: Seq<ReadingView>, i: int)
    requires
        0 <= i < readings.len(),
    ensures
        match listed_outcome(readings[i], report.kilo_flag) {
            OutcomeView::Row(row) => recorded_all(report, readings).rows.contains(row),
            OutcomeView::Skip => true,
            OutcomeView::QueryFailed(text) => recorded_all(report, readings).status == 1
                && recorded_all(report, readings).diagnostics.contains(text),
        },
    decreases readings.len(),
{
    let before = recorded_all(report, readings.drop_last());
    let after = recorded_all(report, readings);
    lemma_recorded_all_grows(report, readings.drop_last());
    if i == readings.len() - 1 {
        match listed_outcome(readings[i], report.kilo_flag) {
            OutcomeView::Row(row) => {
                assert(after.rows[after.rows.len() - 1] == row);
            },
            OutcomeView::Skip => {},
            OutcomeView::QueryFailed(text) => {
                assert(after.diagnostics[after.diagnostics.len() - 1] == text);
            },
        }
    } else {
        assert(readings.drop_last()[i] == readings[i]);
        lemma_failures_cost_no_lines(report, readings.drop_last(), i);
        match listed_outcome(readings[i], report.kilo_flag) {
            OutcomeView::Row(row) => {
                let k = choose|k: int| 0 <= k < before.rows.len() && before.rows[k] == row;
                lemma_step_grows(before, listed_outcome(readings.last(), report.kilo_flag));
                assert(after.rows[k] == row);
            },
            OutcomeView::Skip => {},
            OutcomeView::QueryFailed(text) => {
                let k = choose|k: int|
                    0 <= k < before.diagnostics.len() && before.diagnostics[k] == text;
                lemma_step_grows(before, listed_outcome(readings.last(), report.kilo_flag));
                assert(after.diagnostics[k] == text);
            },
        }
    }
}

/// One outcome noted leaves what was there in place.
proof fn lemma_step_grows(report: ReportView, outcome: OutcomeView)
    ensures
        report.rows.is_prefix_of(recorded(report, outcome).rows),
        report.diagnostics.is_prefix_of(recorded(report, outcome).diagnostics),
        report.status == 1 ==> recorded(report, outcome).status == 1,
{
}

/// A path that no entry of a readable mount table owns gives exit status 1
/// and a complaint that begins with the path, and adds no line.
pub proof fn lemma_unowned_path_fails(report: ReportView, path: Seq<char>, table: Seq<u8>)
    requires
        whole_table(table_lines(table)) matches Ok(mounts) && owner(path, mounts) is None,
    ensures
        located(path, ProbeView::Table(table)) matches Err(failure) && ({
            let after = complained(report, failure_text(failure));
            &&& failure == (FailureView::MountNotFound { path })
            &&& after.status == 1
            &&& after.rows == report.rows
            &&& after.diagnostics.last() == path + ": Can't find mount entry"@
            &&& path.is_prefix_of(after.diagnostics.last())
        }),
{
}

impl Report {
    /// Starts a run.
    pub fn new(opts: Options) -> (report: Report)
        ensures
            report@ == fresh(opts.kilo_flag),
            well_formed(report@),
    {
        let mut format_entries: Vec<FormatEntry> = Vec::new();
        format_entries.push(header_format_entry(&opts));
        let report = Report { opts, format_entries, diagnostics: Vec::new(), status: 0 };
        assert(report@.rows =~= seq![header_row(opts.kilo_flag)]);
        assert(report@.diagnostics =~= Seq::<Seq<char>>::empty());
        report
    }

    /// Notes a complaint; the run has then failed.
    pub fn complain(&mut self, text: String)
        ensures
            final(self)@ == complained(old(self)@, text@),
    {
        self.diagnostics.push(text);
        self.status = 1;
        assert(self@.diagnostics =~= old(self)@.diagnostics.push(text@));
    }

    /// Notes what became of one filesystem.
    pub fn record(&mut self, outcome: Outcome)
        ensures
            final(self)@ == recorded(old(self)@, outcome@),
    {
        match outcome {
            Outcome::Row(row) => {
                self.format_entries.push(row);
                assert(self@.rows =~= old(self)@.rows.push(row@));
            },
            Outcome::Skip => {},
            Outcome::QueryFailed(text) => {
                self.complain(text);
            },
        }
    }

    /// Notes the filesystem `mount_entry`, given what reading its counters
    /// gave. `is_vfs` says that it was asked for by name.
    pub fn add(&mut self, mount_entry: &MountEntry, stat: &Result<StatVFs, String>, is_vfs: bool)
        ensures
            final(self)@ == recorded(
                old(self)@,
                usage_outcome(mount_entry@, stat_view(*stat), old(self)@.kilo_flag, is_vfs),
            ),
    {
        let outcome: Outcome = mount_entry_to_format_entry(mount_entry, stat, &self.opts, is_vfs);
        self.record(outcome);
    }

    /// Takes up a path given on the command line. Where a filesystem owns
    /// it, that entry comes back, for its counters to be read, and the run
    /// is as it was. Otherwise the failure is noted as a complaint, the run
    /// has failed, and no line is added.
    pub fn locate(&mut self, path: &str, probe: &Probe) -> (found: Option<MountEntry>)
        ensures
            match located(path@, probe@) {
                Ok(entry) => found matches Some(e) && e@ == entry && final(self)@ == old(self)@,
                Err(failure) => found is None && final(self)@ == complained(
                    old(self)@,
                    failure_text(failure),
                ),
            },
    {
        match locate_mount(path, probe) {
            Ok(entry) => Some(entry),
            Err(failure) => {
                self.complain(failure.diagnostic());
                None
            },
        }
    }

    /// Notes every filesystem of a listing, given what reading the counters
    /// of each gave. A filesystem without blocks is left out; a reading
    /// that failed is a complaint and does not stop the listing.
    pub fn add_all(&mut self, readings: &Vec<Reading>)
        ensures
            final(self)@ == recorded_all(old(self)@, readings_view(readings@)),
    {
        let ghost all = readings_view(readings@);
        let mut i: usize = 0;
        assert(all.take(0) =~= Seq::<ReadingView>::empty());
        while i < readings.len()
            invariant
                i <= readings.len(),
                all == readings_view(readings@),
                self@ == recorded_all(old(self)@, all.take(i as int)),
                self@.kilo_flag == old(self)@.kilo_flag,
            decreases readings.len() - i,
        {
            proof {
                assert(all.take(i + 1).drop_last() =~= all.take(i as int));
                assert(all.take(i + 1).last() == readings[i as int]@);
            }
            self.add(&readings[i].mount_entry, &readings[i].stat, false);
            i += 1;
        }
        assert(all.take(i as int) =~= all);
    }

    /// The table to show: nothing where no line follows the heading.
    pub fn output(&self) -> (text: String)
        ensures
            text@ == table_text(self@.rows),
            self@.rows.len() <= 1 ==> text@.len() == 0,
    {
        render_table(self.format_entries.as_slice())
    }

    /// The exit status of the run.
    pub fn exit_status(&self) -> (status: i32)
        ensures
            status == self@.status,
    {
        self.status
    }
}

} // verus!
