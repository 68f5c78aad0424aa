//! What an inspection says of a deliverable, and what the validators of
//! logs and QC reports say of a file.

use vstd::prelude::*;

verus! {

/// The outcome of a check.
#[derive(Debug, Clone, PartialEq)]
pub enum Status {
    Pass,
    Failed(String),
    Missing,
    NotStart,
}

/// The mathematical content of a [`Status`].
pub enum StatusView {
    Pass,
    Failed(Seq<char>),
    Missing,
    NotStart,
}

impl View for Status {
    type V = StatusView;

    open spec fn view(&self) -> StatusView {
        match *self {
            Status::Pass => StatusView::Pass,
            Status::Failed(reason) => StatusView::Failed(reason@),
            Status::Missing => StatusView::Missing,
            Status::NotStart => StatusView::NotStart,
        }
    }
}

/// The view of a status that may not be there.
pub open spec fn status_of(s: Option<Status>) -> Option<StatusView> {
    match s {
        Some(s) => Some(s@),
        None => None,
    }
}

impl Status {
    pub fn is_pass(&self) -> (r: bool)
        ensures
            r == (self@ == StatusView::Pass),
    {
        match *self {
            Status::Pass => true,
            _ => false,
        }
    }

    /// A copy of this status.
    pub fn duplicate(&self) -> (r: Status)
        ensures
            r@ == self@,
    {
        match self {
            Status::Pass => Status::Pass,
            Status::Failed(reason) => Status::Failed(reason.clone()),
            Status::Missing => Status::Missing,
            Status::NotStart => Status::NotStart,
        }
    }
}

/// What was found of one track of a deliverable.
#[derive(Debug, Clone)]
pub struct IndividualResult {
    /// Whether the program was edited after it was created.
    pub start_coding: bool,
    pub log: Status,
    pub sequence: Status,
}

/// The mathematical content of an [`IndividualResult`].
pub struct IndividualView {
    pub start_coding: bool,
    pub log: StatusView,
    pub sequence: StatusView,
}

impl View for IndividualResult {
    type V = IndividualView;

    open spec fn view(&self) -> IndividualView {
        IndividualView {
            start_coding: self.start_coding,
            log: self.log@,
            sequence: self.sequence@,
        }
    }
}

/// What was found of a deliverable.
#[derive(Debug, Clone)]
pub struct InspectionResult {
    pub item: String,
    pub qc: Status,
    pub qc_supp: Option<Status>,
    pub production_result: IndividualResult,
    pub validation_result: IndividualResult,
}

/// The mathematical content of an [`InspectionResult`].
pub struct InspectionView {
    pub item: Seq<char>,
    pub qc: StatusView,
    pub qc_supp: Option<StatusView>,
    pub production_result: IndividualView,
    pub validation_result: IndividualView,
}

impl View for InspectionResult {
    type V = InspectionView;

    open spec fn view(&self) -> InspectionView {
        InspectionView {
            item: self.item@,
            qc: self.qc@,
            qc_supp: status_of(self.qc_supp),
            production_result: self.production_result@,
            validation_result: self.validation_result@,
        }
    }
}

/// The views of a list of inspection results.
pub open spec fn inspections_of(list: Seq<InspectionResult>) -> Seq<InspectionView> {
    list.map_values(|r: InspectionResult| r@)
}

/// What a validator makes of a file.
#[derive(Debug, Clone)]
pub enum ReportResult {
    Pass,
    Unknown,
    Fail(String),
}

/// The mathematical content of a [`ReportResult`].
pub enum ReportView {
    Pass,
    Unknown,
    Fail(Seq<char>),
}

impl View for ReportResult {
    type V = ReportView;

    open spec fn view(&self) -> ReportView {
        match *self {
            ReportResult::Pass => ReportView::Pass,
            ReportResult::Unknown => ReportView::Unknown,
            ReportResult::Fail(reason) => ReportView::Fail(reason@),
        }
    }
}

/// The status that a validator's report amounts to; a report without a
/// reason fails for the reason `unknown`.
pub open spec fn reported(report: ReportView, unknown: Seq<char>) -> StatusView {
    match report {
        ReportView::Pass => StatusView::Pass,
        ReportView::Unknown => StatusView::Failed(unknown),
        ReportView::Fail(reason) => StatusView::Failed(reason),
    }
}

/// The status that a validator's report amounts to.
pub fn report_status(report: &ReportResult, unknown: &str) -> (r: Status)
    ensures
        r@ == reported(report@, unknown@),
{
    match report {
        ReportResult::Pass => Status::Pass,
        ReportResult::Unknown => Status::Failed(unknown.to_owned()),
        ReportResult::Fail(reason) => Status::Failed(reason.clone()),
    }
}

/// A row of a log that the validator points at.
#[derive(Debug, Clone)]
pub struct FailedRow {
    pub row: usize,
    pub content: String,
    pub pass: bool,
}

/// A row of a log in the result of a check.
#[derive(Debug, Clone)]
pub struct LogRow {
    pub row: usize,
    pub content: String,
    pub pass: bool,
}

/// The mathematical content of a row of a log.
pub struct RowView {
    pub row: usize,
    pub content: Seq<char>,
    pub pass: bool,
}

impl View for FailedRow {
    type V = RowView;

    open spec fn view(&self) -> RowView {
        RowView { row: self.row, content: self.content@, pass: self.pass }
    }
}

impl View for LogRow {
    type V = RowView;

    open spec fn view(&self) -> RowView {
        RowView { row: self.row, content: self.content@, pass: self.pass }
    }
}

/// The views of the rows that a validator points at.
pub open spec fn failed_rows_of(rows: Seq<FailedRow>) -> Seq<RowView> {
    rows.map_values(|r: FailedRow| r@)
}

/// The views of the rows of a result.
pub open spec fn log_rows_of(rows: Seq<LogRow>) -> Seq<RowView> {
    rows.map_values(|r: LogRow| r@)
}

impl LogRow {
    /// The row of a result for a row that the validator points at.
    pub fn from(value: &FailedRow) -> (r: LogRow)
        ensures
            r@ == value@,
    {
        LogRow { row: value.row, content: value.content.clone(), pass: value.pass }
    }
}

/// What the validator of logs makes of a log.
#[derive(Debug, Clone)]
pub struct ValidatedLog {
    pub status: ReportResult,
    pub details: Vec<FailedRow>,
}

/// The mathematical content of a [`ValidatedLog`].
pub struct ValidatedView {
    pub status: ReportView,
    pub details: Seq<RowView>,
}

impl View for ValidatedLog {
    type V = ValidatedView;

    open spec fn view(&self) -> ValidatedView {
        ValidatedView { status: self.status@, details: failed_rows_of(self.details@) }
    }
}

/// The result of the check of a log.
#[derive(Debug, Clone)]
pub struct LogResult {
    pub status: Status,
    pub details: Vec<LogRow>,
}

/// The mathematical content of a [`LogResult`].
pub struct LogView {
    pub status: StatusView,
    pub details: Seq<RowView>,
}

impl View for LogResult {
    type V = LogView;

    open spec fn view(&self) -> LogView {
        LogView { status: self.status@, details: log_rows_of(self.details@) }
    }
}

/// What it says when a validator gives no reason.
pub const UNKNOWN_ERROR: &'static str = "Unknown error";

impl LogResult {
    /// The result of the check of a log, from what the validator made of
    /// the log.
    pub fn from(value: &ValidatedLog) -> (r: LogResult)
        ensures
            r@ == (LogView {
                status: reported(value@.status, UNKNOWN_ERROR@),
                details: value@.details,
            }),
    {
        let status = report_status(&value.status, UNKNOWN_ERROR);
        let mut details: Vec<LogRow> = Vec::new();
        let mut i: usize = 0;
        while i < value.details.len()
            invariant
                i <= value.details.len(),
                log_rows_of(details@) == failed_rows_of(value.details@).take(i as int),
            decreases value.details.len() - i,
        {
            let ghost before = log_rows_of(details@);
            details.push(LogRow::from(&value.details[i]));
            proof {
                let all = failed_rows_of(value.details@);
                assert(log_rows_of(details@) =~= before.push(all[i as int]));
                assert(all.take(i + 1) =~= all.take(i as int).push(all[i as int]));
            }
            i = i + 1;
        }
        proof {
            let all = failed_rows_of(value.details@);
            assert(all.take(value.details.len() as int) =~= all);
        }
        LogResult { status, details }
    }
}

/// The result of the check of a QC report.
#[derive(Debug, Clone)]
pub struct QcResult {
    /// `main` for the report of the deliverable itself, `supp` for that of
    /// its supplementary domain.
    pub item_type: String,
    pub status: Status,
}

/// The mathematical content of a [`QcResult`].
pub struct QcView {
    pub item_type: Seq<char>,
    pub status: StatusView,
}

impl View for QcResult {
    type V = QcView;

    open spec fn view(&self) -> QcView {
        QcView { item_type: self.item_type@, status: self.status@ }
    }
}

/// What a validator made of the file at a path. `None` stands for a file
/// that the validator could not work on.
#[derive(Debug, Clone)]
pub struct Checked {
    pub filepath: String,
    pub result: Option<ValidatedLog>,
}

/// The mathematical content of a [`Checked`].
pub struct CheckedView {
    pub filepath: Seq<char>,
    pub result: Option<ValidatedView>,
}

impl View for Checked {
    type V = CheckedView;

    open spec fn view(&self) -> CheckedView {
        CheckedView {
            filepath: self.filepath@,
            result: match self.result {
                Some(v) => Some(v@),
                None => None,
            },
        }
    }
}

/// The views of a list of checks.
pub open spec fn checks_of(list: Seq<Checked>) -> Seq<CheckedView> {
    list.map_values(|c: Checked| c@)
}

/// What the validator made of the file at `filepath`, by the first check
/// of that file at or after index `from`. `None` when the validator could
/// not work on the file, or was never run on it.
pub open spec fn check_of(checks: Seq<CheckedView>, filepath: Seq<char>, from: int) -> Option<
    ValidatedView,
>
    decreases checks.len() - from,
{
    if from < 0 || from >= checks.len() {
        None
    } else if checks[from].filepath == filepath {
        checks[from].result
    } else {
        check_of(checks, filepath, from + 1)
    }
}

/// What the validator made of the file at `filepath`.
pub fn find_check<'a>(checks: &'a Vec<Checked>, filepath: &str) -> (r: Option<&'a ValidatedLog>)
    ensures
        r is Some <==> check_of(checks_of(checks@), filepath@, 0) is Some,
        r matches Some(v) ==> Some(v@) == check_of(checks_of(checks@), filepath@, 0),
{
    let mut i: usize = 0;
    while i < checks.len()
        invariant
            i <= checks.len(),
            check_of(checks_of(checks@), filepath@, 0) == check_of(
                checks_of(checks@),
                filepath@,
                i as int,
            ),
        decreases checks.len() - i,
    {
        assert(checks_of(checks@)[i as int] == checks@[i as int]@);
        if crate::text::same(checks[i].filepath.as_str(), filepath) {
            return match &checks[i].result {
                Some(v) => Some(v),
                None => None,
            };
        }
        i = i + 1;
    }
    None
}

impl ReportResult {
    /// A copy of this report.
    pub fn duplicate(&self) -> (r: ReportResult)
        ensures
            r@ == self@,
    {
        match self {
            ReportResult::Pass => ReportResult::Pass,
            ReportResult::Unknown => ReportResult::Unknown,
            ReportResult::Fail(reason) => ReportResult::Fail(reason.clone()),
        }
    }
}

impl FailedRow {
    /// A copy of this row.
    pub fn duplicate(&self) -> (r: FailedRow)
        ensures
            r@ == self@,
    {
        FailedRow { row: self.row, content: self.content.clone(), pass: self.pass }
    }
}

impl ValidatedLog {
    /// A copy of what the validator made of a log.
    pub fn duplicate(&self) -> (r: ValidatedLog)
        ensures
            r@ == self@,
    {
        let mut details: Vec<FailedRow> = Vec::new();
        let mut i: usize = 0;
        while i < self.details.len()
            invariant
                i <= self.details.len(),
                failed_rows_of(details@) == failed_rows_of(self.details@).take(i as int),
            decreases self.details.len() - i,
        {
            let ghost before = failed_rows_of(details@);
            details.push(self.details[i].duplicate());
            proof {
                let all = failed_rows_of(self.details@);
                assert(failed_rows_of(details@) =~= before.push(all[i as int]));
                assert(all.take(i + 1) =~= all.take(i as int).push(all[i as int]));
            }
            i = i + 1;
        }
        proof {
            let all = failed_rows_of(self.details@);
            assert(all.take(self.details.len() as int) =~= all);
        }
        ValidatedLog { status: self.status.duplicate(), details }
    }
}

impl Checked {
    /// A copy of this check.
    pub fn duplicate(&self) -> (r: Checked)
        ensures
            r@ == self@,
    {
        Checked {
            filepath: self.filepath.clone(),
            result: match &self.result {
                Some(v) => Some(v.duplicate()),
                None => None,
            },
        }
    }
}

/// A copy of a list of checks.
pub fn copy_checks(checks: &Vec<Checked>) -> (r: Vec<Checked>)
    ensures
        checks_of(r@) == checks_of(checks@),
{
    let mut r: Vec<Checked> = Vec::new();
    let mut i: usize = 0;
    while i < checks.len()
        invariant
            i <= checks.len(),
            checks_of(r@) == checks_of(checks@).take(i as int),
        decreases checks.len() - i,
    {
        let ghost before = checks_of(r@);
        r.push(checks[i].duplicate());
        proof {
            let all = checks_of(checks@);
            assert(checks_of(r@) =~= before.push(all[i as int]));
            assert(all.take(i + 1) =~= all.take(i as int).push(all[i as int]));
        }
        i = i + 1;
    }
    proof {
        let all = checks_of(checks@);
        assert(all.take(checks.len() as int) =~= all);
    }
    r
}

} // verus!
