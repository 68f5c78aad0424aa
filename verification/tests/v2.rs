use inspector::sheet::{Cell, Sheet, Workbook};
use inspector::v2::category::{FileType, Group, Kind};
use inspector::v2::config::reader::{Config, ConfigReader};
use inspector::v2::config::sdtm::{detect_supp_domain, SdtmConfigReader};
use inspector::v2::config::tfl::{validation, TflConfigReader};
use inspector::v2::config::adam::AdamConfigReader;
use inspector::v2::error::Error;
use inspector::v2::inspect::inspector::{Evidence, Inspector, SdtmInspector, TflInspector, AdamInspector};
use inspector::v2::inspect::result::{
    Checked, FailedRow, LogResult, LogRow, ReportResult, Status, ValidatedLog,
};
use inspector::v2::investigator::investigator::{Seen, Timestamp};
use inspector::v2::investigator::utils::{filename, system_time_to_chrono};
use inspector::v2::product::{fetch_product, valid_product_name};
use inspector::v2::purpose::{fetch_purpose, list_purposes, Entry, Folder};
use inspector::v2::sequence::audit::{auditing, total_status, SequenceAuditor, SequenceResult};
use inspector::v2::sequence::adam::AdamSequenceAuditor;
use inspector::v2::sequence::sdtm::SdtmSequenceAuditor;
use inspector::v2::sequence::tfl::TflSequenceAuditor;
use inspector::v2::trial::{fetch_trial, list_trials};
use inspector::v2::{
    inspect, list_products, log_detail, qc_detail, read_config, sequence_detail, Investigator,
    InvestigatorParam,
};

fn text(s: &str) -> Cell {
    Cell::Text(s.into())
}

fn row_with(col: usize, cell: Cell) -> Vec<Cell> {
    let mut row = vec![Cell::Empty; col];
    row.push(cell);
    row
}

fn detail_sheet(name: &str, allocations: &[&str]) -> Sheet {
    let mut rows = vec![vec![text("x")]; 12];
    rows.push(vec![text("name"), text("label"), text(" 变量归属 ")]);
    for a in allocations {
        rows.push(vec![text("v"), text("l"), text(a)]);
    }
    Sheet { name: name.into(), rows }
}

fn sdtm_book(count: usize) -> Workbook {
    let mut content = vec![vec![text("title")]; 6];
    let mut sheets = vec![];
    for i in 0..count {
        let name = format!("d{:02}", i);
        content.push(vec![text(&name)]);
        if i == 0 {
            content.push(vec![text("SUPPD00")]);
            sheets.push(detail_sheet("D00", &["D00", " SUPP ", "D00"]));
        } else {
            sheets.push(detail_sheet(&name.to_uppercase(), &["AE", "", "SUPP"]));
        }
    }
    content.push(vec![Cell::Empty]);
    content.push(vec![text("behind")]);
    sheets.insert(0, Sheet { name: "CONTENT".into(), rows: content });
    Workbook { sheets }
}

fn adam_book(count: usize) -> Workbook {
    let mut content = vec![vec![text("title")]; 6];
    for i in 0..count {
        content.push(vec![text(&format!("ADX{}", i))]);
    }
    Workbook { sheets: vec![Sheet { name: "CONTENT".into(), rows: content }] }
}

fn tfl_book(count: usize) -> Workbook {
    let mut rows = vec![vec![text("level"), text(""), text(""), text(""), text("name")]];
    for i in 0..count {
        let level = match i % 3 {
            0 => text("3"),
            1 => Cell::Float { text: "3".into(), whole: Some(3) },
            _ => Cell::Int { text: "3".into() },
        };
        rows.push(vec![level, Cell::Empty, Cell::Empty, Cell::Empty, text(&format!("t-{}", i))]);
        if i == 1 {
            rows.push(vec![text("3")]);
        }
    }
    Workbook { sheets: vec![Sheet { name: "top".into(), rows }] }
}

fn param() -> InvestigatorParam {
    InvestigatorParam {
        product: "ak112".into(),
        trial: "303".into(),
        purpose: "CSR".into(),
        root: r"D:\Studies".into(),
    }
}

fn seen(path: &str, created: u64, modified: u64) -> Seen {
    Seen {
        filepath: path.into(),
        created_secs: created,
        created_nanos: 0,
        modified_secs: modified,
        modified_nanos: 0,
    }
}

fn checked(path: &str, status: Option<ReportResult>) -> Checked {
    Checked {
        filepath: path.into(),
        result: status.map(|status| ValidatedLog { status, details: vec![] }),
    }
}

const CSR: &str = r"D:\Studies\ak112\303\stats\CSR";

fn at(tail: &str) -> String {
    format!(r"{}\{}", CSR, tail)
}

#[test]
fn test_read_config() {
    let kind = Kind::SDTM;
    let config = read_config(&sdtm_book(37), &kind).unwrap();
    assert_eq!(config.len(), 37);

    let kind = Kind::ADaM;
    let config = read_config(&adam_book(17), &kind).unwrap();
    assert_eq!(config.len(), 17);

    let kind = Kind::TFLs;
    let config = read_config(&tfl_book(152), &kind).unwrap();
    assert_eq!(config.len(), 152);
}

#[test]
fn config_readers_fill_every_field() {
    let sdtm = SdtmConfigReader::new().read(&sdtm_book(3)).unwrap();
    assert_eq!(sdtm[0].name, "d00");
    assert!(sdtm[0].supp && sdtm[0].qc);
    assert_eq!(sdtm[0].order, 6);
    assert!(!sdtm[1].supp);
    assert_eq!(sdtm[1].order, 8);
    let adam = AdamConfigReader::new().read(&adam_book(2)).unwrap();
    assert_eq!(adam[1].name, "ADX1");
    assert_eq!(adam[1].order, 7);
    assert!(adam[1].qc && !adam[1].supp);
    let tfl = TflConfigReader::new().read(&tfl_book(4)).unwrap();
    assert_eq!(tfl.len(), 4);
    assert!(tfl[0].qc && tfl[1].qc && !tfl[2].qc && tfl[3].qc);
    assert_eq!(tfl[2].order, 4);
    let d = Config::default();
    assert!(d.name.is_empty() && !d.supp && d.qc && d.order == 0);
}

#[test]
fn config_readers_fail_without_their_sheets() {
    let none = Workbook { sheets: vec![] };
    for kind in [Kind::SDTM, Kind::ADaM, Kind::TFLs] {
        assert!(matches!(read_config(&none, &kind), Err(Error::ReadConfigFailed)));
    }
    let mut book = sdtm_book(3);
    book.sheets.pop();
    assert!(matches!(read_config(&book, &Kind::SDTM), Err(Error::ReadConfigFailed)));
    assert_eq!(Error::ReadConfigFailed.message(), "Failed to read config file");
    assert_eq!(Error::ListProjectFailed.message(), "Failed to list projects");
    assert_eq!(Error::InvalidProjectDir.message(), "Invalid project directory");
    assert_eq!(Error::FetchMetadataFailed.message(), "Failed to fetch metadata");
    assert_eq!(Error::QcFailed.message(), "Failed in qc result validation");
    assert_eq!(Error::LogFailed("ae".into()).message(), "Failed in ae log validation");
}

#[test]
fn supplementary_domain_is_detected_below_the_headers() {
    assert!(detect_supp_domain(&detail_sheet("AE", &["AE", "SUPP"])));
    assert!(!detect_supp_domain(&detail_sheet("AE", &["AE", "", "SUPP"])));
    assert!(!detect_supp_domain(&detail_sheet("AE", &[])));
    assert!(!detect_supp_domain(&Sheet { name: "AE".into(), rows: vec![vec![text("SUPP")]; 12] }));
    let mut other_header = detail_sheet("AE", &["SUPP"]);
    other_header.rows[12][2] = text("allocation");
    assert!(!detect_supp_domain(&other_header));
    let mut short_row = detail_sheet("AE", &["AE", "SUPP"]);
    short_row.rows.insert(13, vec![text("v")]);
    assert!(detect_supp_domain(&short_row));
}

#[test]
fn validation_level_three_asks_for_qc() {
    assert!(validation(Some(&text("3"))));
    assert!(!validation(Some(&text("3.0"))));
    assert!(validation(Some(&Cell::Float { text: "3".into(), whole: Some(3) })));
    assert!(!validation(Some(&Cell::Float { text: "3.5".into(), whole: None })));
    assert!(!validation(Some(&Cell::Float { text: "2".into(), whole: Some(2) })));
    assert!(!validation(Some(&Cell::Int { text: "3".into() })));
    assert!(!validation(Some(&Cell::Empty)));
    assert!(!validation(None));
}

fn evidence() -> Evidence {
    Evidence {
        seen: vec![
            seen(&at(r"product\program\sdtm\d00.sas"), 1, 5),
            seen(&at(r"product\program\sdtm\d00.log"), 1, 9),
            seen(&at(r"validation\program\sdtm\v-d00.sas"), 4, 4),
            seen(&at(r"validation\qc-result\sdtm\v_d00.rtf"), 1, 7),
            seen(&at(r"validation\qc-result\sdtm\v_suppd00.rtf"), 1, 8),
            seen(&at(r"product\program\adam\adx0.log"), 1, 9),
            seen(&at(r"validation\qc-result\tfl\v_t_0.rtf"), 1, 9),
        ],
        checks: vec![
            checked(&at(r"product\program\sdtm\d00.log"), Some(ReportResult::Pass)),
            checked(&at(r"validation\qc-result\sdtm\v_d00.rtf"), Some(ReportResult::Pass)),
            checked(
                &at(r"validation\qc-result\sdtm\v_suppd00.rtf"),
                Some(ReportResult::Fail("row 2".into())),
            ),
            checked(&at(r"product\program\adam\adx0.log"), Some(ReportResult::Unknown)),
            checked(&at(r"validation\qc-result\tfl\v_t_0.rtf"), Some(ReportResult::Unknown)),
        ],
    }
}

#[test]
fn test_inspect_sdtm() {
    let kind = Kind::SDTM;
    let result = inspect(&param(), &sdtm_book(37), &kind, evidence());
    assert!(result.is_ok());
    let result = result.unwrap();
    assert_eq!(result.len(), 37);
    let first = &result[0];
    assert_eq!(first.item, "d00");
    assert_eq!(first.qc, Status::Pass);
    assert_eq!(first.qc_supp, Some(Status::Failed("row 2".into())));
    assert!(first.production_result.start_coding);
    assert!(!first.validation_result.start_coding);
    assert_eq!(first.production_result.log, Status::Pass);
    assert_eq!(first.validation_result.log, Status::Missing);
    assert_eq!(first.production_result.sequence, Status::Failed("".into()));
    assert_eq!(result[1].qc, Status::Missing);
    assert_eq!(result[1].qc_supp, None);
    assert!(!result[1].production_result.start_coding);
}

#[test]
fn test_inspect_adam() {
    let kind = Kind::ADaM;
    let result = inspect(&param(), &adam_book(17), &kind, evidence());
    assert!(result.is_ok());
    let result = result.unwrap();
    assert_eq!(result.len(), 17);
    assert_eq!(result[0].item, "ADX0");
    assert_eq!(result[0].production_result.log, Status::Failed("Unknown error".into()));
    assert_eq!(result[0].qc_supp, None);
}

#[test]
fn test_inspect_tfl() {
    let kind = Kind::TFLs;
    let result = inspect(&param(), &tfl_book(152), &kind, evidence());
    assert!(result.is_ok());
    let result = result.unwrap();
    assert_eq!(result.len(), 152);
    assert_eq!(result[0].qc, Status::Failed("Unknown error".into()));
    assert_eq!(result[1].qc, Status::Missing);
}

#[test]
fn inspection_fails_where_a_log_could_not_be_checked() {
    let mut unchecked_log = evidence();
    unchecked_log.checks.remove(0);
    assert!(matches!(
        inspect(&param(), &sdtm_book(2), &Kind::SDTM, unchecked_log),
        Err(Error::LogFailed(item)) if item == "d00"
    ));
    assert!(matches!(
        inspect(&param(), &Workbook { sheets: vec![] }, &Kind::SDTM, evidence()),
        Err(Error::ReadConfigFailed)
    ));
}

#[test]
fn report_that_the_validator_cannot_read_fails_and_ends_nothing() {
    let unread = Status::Failed("Failed in qc result validation".into());
    let mut failed_qc = evidence();
    failed_qc.checks[1] = checked(&at(r"validation\qc-result\sdtm\v_d00.rtf"), None);
    let result = inspect(&param(), &sdtm_book(3), &Kind::SDTM, failed_qc).unwrap();
    assert_eq!(result.len(), 3);
    assert_eq!(result[0].qc, unread);
    assert_eq!(result[0].qc_supp, Some(Status::Failed("row 2".into())));
    assert_eq!(result[1].qc, Status::Missing);
    let mut unchecked_supp = evidence();
    unchecked_supp.checks.remove(2);
    let result = inspect(&param(), &sdtm_book(2), &Kind::SDTM, unchecked_supp).unwrap();
    assert_eq!(result[0].qc, Status::Pass);
    assert_eq!(result[0].qc_supp, Some(unread.clone()));
    let mut none = evidence();
    none.checks.clear();
    let tfl = inspect(&param(), &tfl_book(2), &Kind::TFLs, none).unwrap();
    assert_eq!(tfl[0].qc, unread);
    assert_eq!(tfl[1].qc, Status::Missing);
}

#[test]
fn inspectors_answer_for_single_deliverables() {
    let e = evidence();
    let config = read_config(&sdtm_book(2), &Kind::SDTM).unwrap();
    let i = SdtmInspector::new(Investigator::new(&param()).with_seen(e.seen.clone()), &config, &e.checks);
    assert_eq!(i.qc_main("d00").unwrap(), Status::Pass);
    assert_eq!(i.qc_supp("d00").unwrap(), Status::Failed("row 2".into()));
    assert_eq!(i.qc("d01", false).unwrap(), Status::Missing);
    assert!(i.start_coding("d00", Group::Production));
    assert!(!i.start_coding("d00", Group::Validation));
    assert_eq!(i.validate_log("d00", &Group::Production).unwrap(), Status::Pass);
    assert_eq!(i.sequence(&config[0]).0, Status::Failed("".into()));
    assert_eq!(i.inspect().unwrap().len(), 2);
    let t = TflInspector::new(Investigator::new(&param()).with_seen(e.seen.clone()), &vec![], &e.checks);
    assert_eq!(t.qc("t-0").unwrap(), Status::Failed("Unknown error".into()));
    assert_eq!(t.sequence("t-0").1, Status::Failed("".into()));
    assert!(!t.start_coding("t-0", &Group::Production));
    assert_eq!(t.validate_log("t-0", &Group::Validation).unwrap(), Status::Missing);
    assert!(t.inspect().unwrap().is_empty());
    let a = AdamInspector::new(Investigator::new(&param()).with_seen(e.seen), &vec![], &e.checks);
    assert_eq!(a.qc("adx0").unwrap(), Status::Missing);
    assert_eq!(
        a.validate_log("ADX0", &Group::Production).unwrap(),
        Status::Failed("Unknown error".into())
    );
}

#[test]
fn details_of_logs_and_qc_reports() {
    let mut e = evidence();
    e.checks[0] = Checked {
        filepath: at(r"product\program\sdtm\d00.log"),
        result: Some(ValidatedLog {
            status: ReportResult::Fail("2 rows".into()),
            details: vec![
                FailedRow { row: 3, content: "ERROR: x".into(), pass: false },
                FailedRow { row: 9, content: "WARNING: y".into(), pass: true },
            ],
        }),
    };
    let log = log_detail(&param(), "d00", &Kind::SDTM, &Group::Production, e.clone()).unwrap();
    assert_eq!(log.status, Status::Failed("2 rows".into()));
    assert_eq!(log.details.len(), 2);
    assert_eq!(log.details[1].row, 9);
    assert_eq!(log.details[1].content, "WARNING: y");
    assert!(log.details[1].pass && !log.details[0].pass);
    let missing = log_detail(&param(), "d00", &Kind::SDTM, &Group::Validation, e.clone()).unwrap();
    assert_eq!(missing.status, Status::Missing);
    assert!(missing.details.is_empty());
    let mut unchecked_log = e.clone();
    unchecked_log.checks.remove(0);
    assert!(matches!(
        log_detail(&param(), "d00", &Kind::SDTM, &Group::Production, unchecked_log),
        Err(Error::LogFailed(item)) if item == "d00"
    ));
    let qc = qc_detail(&param(), "d00", &Kind::SDTM, e.clone()).unwrap();
    assert_eq!(qc.len(), 2);
    assert_eq!(qc[0].item_type, "main");
    assert_eq!(qc[0].status, Status::Pass);
    assert_eq!(qc[1].item_type, "supp");
    assert_eq!(qc[1].status, Status::Failed("row 2".into()));
    let tfl = qc_detail(&param(), "t-0", &Kind::TFLs, e.clone()).unwrap();
    assert_eq!(tfl.len(), 1);
    assert_eq!(tfl[0].status, Status::Failed("Unknown Reason".into()));
    let adam = qc_detail(&param(), "adx0", &Kind::ADaM, e.clone()).unwrap();
    assert_eq!(adam[0].status, Status::Missing);
    let mut failed = e.clone();
    failed.checks[2] = checked(&at(r"validation\qc-result\sdtm\v_suppd00.rtf"), None);
    let qc = qc_detail(&param(), "d00", &Kind::SDTM, failed).unwrap();
    assert_eq!(qc[0].status, Status::Pass);
    assert_eq!(qc[1].status, Status::Failed("Failed in qc result validation".into()));
    let audits = sequence_detail(&param(), "d00", true, &Kind::SDTM, e.seen);
    assert_eq!(audits.len(), 2);
    assert_eq!(audits[0].sequences.len(), 6);
    assert_eq!(audits[0].sequences[0].status, Status::Pass);
    assert_eq!(audits[0].sequences[0].modified_at, Some(Timestamp { secs: 5, nanos: 0 }));
}

#[test]
fn log_result_from_what_the_validator_made() {
    let r = LogResult::from(&ValidatedLog { status: ReportResult::Unknown, details: vec![] });
    assert_eq!(r.status, Status::Failed("Unknown error".into()));
    let r = LogResult::from(&ValidatedLog { status: ReportResult::Pass, details: vec![] });
    assert!(r.status.is_pass());
    let row = LogRow::from(&FailedRow { row: 1, content: "c".into(), pass: true });
    assert!(row.row == 1 && row.content == "c" && row.pass);
    assert!(!Status::Missing.is_pass() && !Status::NotStart.is_pass());
    assert!(!Status::Failed("".into()).is_pass());
}

#[test]
fn test_investigator_sdtm() {
    let inv = Investigator::new(&param())
        .with_seen(vec![seen(r"D:\Studies\ak112\303\stats\CSR\product\program\sdtm\ae.sas", 1, 2)]);
    assert_eq!(
        inv.sdtm_code_production("ae").unwrap().filepath,
        r"D:\Studies\ak112\303\stats\CSR\product\program\sdtm\ae.sas"
    );
    assert_eq!(inv.root(), CSR);
    assert!(inv.sdtm_code_validation("ae").is_none());
    assert!(Investigator::new(&param()).sdtm_code_production("ae").is_none());
}

#[test]
fn investigator_knows_every_path() {
    let inv = Investigator::new(&param());
    let p = |group, dir: &str, item: &str, kind| inv.path_of(group, dir, item, kind);
    assert_eq!(p(Group::Production, r"dataset\sdtm", "AE", FileType::Data), at(r"product\dataset\sdtm\ae.sas7bdat"));
    assert_eq!(p(Group::Validation, r"dataset\sdtm", "suppae", FileType::Data), at(r"validation\dataset\sdtm\v_suppae.sas7bdat"));
    assert_eq!(p(Group::Validation, r"qc-result\tfl", "t-1", FileType::Qc), at(r"validation\qc-result\tfl\v_t_1.rtf"));
    let files = vec![
        (r"product\program\sdtm\ae.sas", 0),
        (r"validation\program\sdtm\v-ae.sas", 1),
        (r"product\dataset\sdtm\ae.sas7bdat", 2),
        (r"validation\dataset\sdtm\v_ae.sas7bdat", 3),
        (r"product\dataset\sdtm\suppae.sas7bdat", 4),
        (r"validation\dataset\sdtm\v_suppae.sas7bdat", 5),
        (r"product\dataset\sdtm\ae.xpt", 6),
        (r"product\dataset\sdtm\suppae.xpt", 7),
        (r"product\program\sdtm\ae.log", 8),
        (r"validation\qc-result\sdtm\v_ae.rtf", 9),
        (r"validation\qc-result\sdtm\v_suppae.rtf", 10),
        (r"validation\program\adam\v-ae.sas", 11),
        (r"validation\dataset\adam\v_ae.sas7bdat", 12),
        (r"product\dataset\adam\ae.xpt", 13),
        (r"product\program\adam\ae.log", 14),
        (r"validation\qc-result\adam\v_ae.rtf", 15),
        (r"product\program\tfl\ae.sas", 16),
        (r"product\dataset\tfl\ae.sas7bdat", 17),
        (r"validation\program\tfl\v-ae.log", 18),
        (r"validation\qc-result\tfl\v_ae.rtf", 19),
        (r"product\output\ae.rtf", 20),
    ];
    let inv = Investigator::new(&param())
        .with_seen(files.iter().map(|(p, t)| seen(&at(p), 0, *t)).collect());
    let t = |f: Option<inspector::v2::investigator::investigator::File>| f.unwrap().modified_at.secs;
    assert_eq!(t(inv.sdtm_code_production("ae")), 0);
    assert_eq!(t(inv.sdtm_code_validation("ae")), 1);
    assert_eq!(t(inv.sdtm_data_main_production("ae")), 2);
    assert_eq!(t(inv.sdtm_data_main_validation("ae")), 3);
    assert_eq!(t(inv.sdtm_data_supp_production("ae")), 4);
    assert_eq!(t(inv.sdtm_data_supp_validation("ae")), 5);
    assert_eq!(t(inv.sdtm_xpt_main("ae")), 6);
    assert_eq!(t(inv.sdtm_xpt_supp("ae")), 7);
    assert_eq!(t(inv.sdtm_log("ae", &Group::Production)), 8);
    assert_eq!(t(inv.sdtm_qc_main("ae")), 9);
    assert_eq!(t(inv.sdtm_qc_supp("ae")), 10);
    assert_eq!(t(inv.adam_code("ae", &Group::Validation)), 11);
    assert_eq!(t(inv.adam_data("ae", &Group::Validation)), 12);
    assert_eq!(t(inv.adam_xpt("ae")), 13);
    assert_eq!(t(inv.adam_log("ae", &Group::Production)), 14);
    assert_eq!(t(inv.adam_qc_result("ae")), 15);
    assert_eq!(t(inv.tfl_code("ae", &Group::Production)), 16);
    assert_eq!(t(inv.tfl_data("ae", &Group::Production)), 17);
    assert_eq!(t(inv.tfl_log("ae", &Group::Validation)), 18);
    assert_eq!(t(inv.tfl_qc_result("ae")), 19);
    assert_eq!(t(inv.tfl_output("ae", &Group::Production)), 20);
    assert_eq!(inv.sdtm_xpt_main("ae").unwrap().name, "ae.xpt");
    assert_eq!(inv.seen().len(), 21);
    assert_eq!(Group::Production.group_dir(), "product");
    assert_eq!(Group::Validation.group_dir(), "validation");
}

#[test]
fn filename_by_group_and_kind() {
    assert_eq!(filename("AE", &Group::Production, &FileType::Code), "ae.sas");
    assert_eq!(filename("ae", &Group::Validation, &FileType::Code), "v-ae.sas");
    assert_eq!(filename("ae", &Group::Validation, &FileType::Data), "v_ae.sas7bdat");
    assert_eq!(filename("a-e", &Group::Production, &FileType::Xpt), "a_e.xpt");
    assert_eq!(filename("a-e", &Group::Validation, &FileType::Qc), "v_a_e.rtf");
    assert_eq!(filename("t-14-01", &Group::Validation, &FileType::Qc), "v_t_14_01.rtf");
    assert_eq!(filename("t-14-01", &Group::Production, &FileType::Qc), "t_14_01.rtf");
    assert_eq!(filename("t-14-01", &Group::Validation, &FileType::Output), "v-t-14-01.rtf");
    assert_eq!(filename("a-e", &Group::Production, &FileType::Output), "a-e.rtf");
    assert_eq!(filename("a-e", &Group::Validation, &FileType::Log), "v-a-e.log");
}

#[test]
fn times_within_and_beyond_the_calendar() {
    assert_eq!(system_time_to_chrono(1431648000, 5), Timestamp { secs: 1431648000, nanos: 5 });
    assert_eq!(system_time_to_chrono(0, 0), Timestamp { secs: 0, nanos: 0 });
    assert_eq!(system_time_to_chrono(1 << 62, 7), Timestamp { secs: 0, nanos: 0 });
    assert_eq!(system_time_to_chrono(10, 2_000_000_000), Timestamp { secs: 0, nanos: 0 });
    assert_eq!(system_time_to_chrono(u64::MAX, 1), Timestamp { secs: -1, nanos: 1 });
    assert_eq!(system_time_to_chrono(59, 1_999_999_999), Timestamp { secs: 59, nanos: 1_999_999_999 });
    assert_eq!(system_time_to_chrono(58, 1_000_000_000), Timestamp { secs: 0, nanos: 0 });
    assert_eq!(system_time_to_chrono(60, 1_000_000_000), Timestamp { secs: 0, nanos: 0 });
    assert_eq!(system_time_to_chrono(119, 1_000_000_000), Timestamp { secs: 119, nanos: 1_000_000_000 });
    assert_eq!(system_time_to_chrono(59, 2_000_000_000), Timestamp { secs: 0, nanos: 0 });
    assert_eq!(system_time_to_chrono((-1i64) as u64, 1_000_000_000), Timestamp { secs: -1, nanos: 1_000_000_000 });
    assert_eq!(system_time_to_chrono((-2i64) as u64, 1_000_000_000), Timestamp { secs: 0, nanos: 0 });
    let last = 8_210_266_876_799u64;
    assert_eq!(system_time_to_chrono(last, 999_999_999), Timestamp { secs: last as i64, nanos: 999_999_999 });
    assert_eq!(system_time_to_chrono(last, 1_999_999_999), Timestamp { secs: last as i64, nanos: 1_999_999_999 });
    assert_eq!(system_time_to_chrono(last + 1, 0), Timestamp { secs: 0, nanos: 0 });
    let first = -8_334_601_228_800i64;
    assert_eq!(system_time_to_chrono(first as u64, 0), Timestamp { secs: first, nanos: 0 });
    assert_eq!(system_time_to_chrono((first - 1) as u64, 0), Timestamp { secs: 0, nanos: 0 });
    assert_eq!(system_time_to_chrono((first - 1) as u64, 999_999_999), Timestamp { secs: 0, nanos: 0 });
    assert_eq!(system_time_to_chrono(i64::MAX as u64, 0), Timestamp { secs: 0, nanos: 0 });
    assert_eq!(system_time_to_chrono(i64::MIN as u64, 0), Timestamp { secs: 0, nanos: 0 });
    let a = Timestamp { secs: 1, nanos: 5 };
    assert!(a.ge(&a));
    assert!(a.ge(&Timestamp { secs: 1, nanos: 4 }) && a.ge(&Timestamp { secs: 0, nanos: 9 }));
    assert!(!a.ge(&Timestamp { secs: 1, nanos: 6 }) && !a.ge(&Timestamp { secs: 2, nanos: 0 }));
    let found = inspector::v2::investigator::utils::file(r"a\b.sas", &vec![seen(r"a\c.sas", 1, 2), seen(r"a\b.sas", 3, 4), seen(r"a\b.sas", 5, 6)]);
    let found = found.unwrap();
    assert_eq!(found.name, "b.sas");
    assert_eq!(found.created_at.secs, 3);
    assert_eq!(found.duplicate().modified_at.secs, 4);
    assert!(inspector::v2::investigator::utils::file(r"\", &vec![seen(r"\", 1, 2)]).is_none());
    assert!(inspector::v2::investigator::utils::file("x", &vec![]).is_none());
}

fn found(t: i64) -> inspector::v2::investigator::investigator::File {
    inspector::v2::investigator::investigator::File {
        name: "f".into(),
        filepath: "f".into(),
        created_at: Timestamp { secs: 0, nanos: 0 },
        modified_at: Timestamp { secs: t, nanos: 0 },
    }
}

#[test]
fn auditing_holds_a_file_against_the_one_before_it() {
    assert_eq!(auditing(None, None, "m"), Status::Missing);
    assert_eq!(auditing(None, Some(&found(1)), "m"), Status::Missing);
    assert_eq!(auditing(Some(&found(1)), None, "m"), Status::Pass);
    assert_eq!(auditing(Some(&found(2)), Some(&found(1)), "m"), Status::Pass);
    assert_eq!(auditing(Some(&found(1)), Some(&found(1)), "m"), Status::Failed("m".into()));
    assert_eq!(auditing(Some(&found(1)), Some(&found(2)), "m"), Status::Failed("m".into()));
    let result = |status| SequenceResult {
        name: "n".into(),
        kind: FileType::Code,
        status,
        group: Group::Production,
        modified_at: None,
    };
    assert_eq!(total_status(&vec![]), Status::Pass);
    assert_eq!(total_status(&vec![result(Status::Pass), result(Status::Pass)]), Status::Pass);
    assert_eq!(
        total_status(&vec![result(Status::Pass), result(Status::Missing)]),
        Status::Failed("".into())
    );
    assert_eq!(
        total_status(&vec![result(Status::Failed("x".into()))]),
        Status::Failed("".into())
    );
}

#[test]
fn test_sdtm_sequeuce() {
    let invest = Investigator::new(&param());
    let sequencer = SdtmSequenceAuditor::new("ae", true, &invest);
    let result = sequencer.audit();
    assert_eq!(result.len(), 2);
    assert_eq!(result[0].sequences.len(), 6);
    assert_eq!(result[1].sequences.len(), 6);
    assert_eq!(result[0].status, Status::Failed("".into()));
    assert_eq!(result[1].status, Status::Failed("".into()));
}

#[test]
fn sdtm_sequence_in_order_passes() {
    let production = vec![
        (r"product\program\sdtm\ae.sas", 1),
        (r"product\dataset\sdtm\ae.sas7bdat", 2),
        (r"product\dataset\sdtm\ae.xpt", 3),
        (r"product\dataset\sdtm\suppae.sas7bdat", 4),
        (r"product\dataset\sdtm\suppae.xpt", 5),
        (r"product\program\sdtm\ae.log", 6),
        (r"validation\program\sdtm\v-ae.sas", 1),
        (r"validation\dataset\sdtm\v_ae.sas7bdat", 2),
        (r"validation\qc-result\sdtm\v_ae.rtf", 3),
        (r"validation\dataset\sdtm\v_suppae.sas7bdat", 4),
        (r"validation\qc-result\sdtm\v_suppae.rtf", 5),
        (r"validation\program\sdtm\v-ae.log", 5),
    ];
    let invest = Investigator::new(&param())
        .with_seen(production.iter().map(|(p, t)| seen(&at(p), 0, *t)).collect());
    let result = SdtmSequenceAuditor::new("ae", true, &invest).audit();
    assert_eq!(result[0].status, Status::Pass);
    let names: Vec<&str> = result[0].sequences.iter().map(|s| s.name.as_str()).collect();
    assert_eq!(
        names,
        vec!["ae.sas", "ae.sas7bdat", "ae.xpt", "suppae.sas7bdat", "suppae.xpt", "ae.log"]
    );
    assert_eq!(result[1].status, Status::Failed("".into()));
    assert_eq!(result[1].sequences[5].status, Status::Failed("QcResult later than log".into()));
    assert_eq!(result[1].sequences[3].modified_at, Some(Timestamp { secs: 4, nanos: 0 }));
    let plain = SdtmSequenceAuditor::new("ae", false, &invest).audit();
    assert_eq!(plain[0].sequences.len(), 4);
    assert_eq!(plain[1].sequences.len(), 4);
    assert_eq!(plain[1].status, Status::Pass);
}

#[test]
fn test_tfls_sequeuce() {
    let invest = Investigator::new(&param());
    let sequencer = TflSequenceAuditor::new("f-14-02-02-03-os-for-fas", &invest);
    let result = sequencer.audit();
    assert_eq!(result.len(), 2);
    assert_eq!(result[0].sequences.len(), 4);
    assert_eq!(result[1].sequences.len(), 4);
    assert_eq!(result[0].status, Status::Failed("".into()));
    assert_eq!(result[1].status, Status::Failed("".into()));
}

#[test]
fn adam_and_tfl_sequences_name_what_is_out_of_order() {
    let files = vec![
        (r"product\program\adam\adsl.sas", 3),
        (r"product\dataset\adam\adsl.sas7bdat", 2),
        (r"product\dataset\adam\adsl.xpt", 4),
        (r"product\program\adam\adsl.log", 4),
        (r"validation\program\adam\v-adsl.sas", 1),
        (r"validation\dataset\adam\v_adsl.sas7bdat", 9),
        (r"validation\qc-result\adam\v_adsl.rtf", 5),
        (r"validation\program\adam\v-adsl.log", 6),
        (r"product\program\tfl\t-1.sas", 3),
        (r"product\output\t-1.rtf", 2),
        (r"product\program\tfl\t-1.log", 1),
    ];
    let invest = Investigator::new(&param())
        .with_seen(files.iter().map(|(p, t)| seen(&at(p), 0, *t)).collect());
    let adam = AdamSequenceAuditor::new("adsl", &invest).audit();
    let statuses: Vec<Status> = adam[0].sequences.iter().map(|s| s.status.clone()).collect();
    assert_eq!(
        statuses,
        vec![
            Status::Pass,
            Status::Failed("Code later than data".into()),
            Status::Pass,
            Status::Failed("Xpt later than log".into()),
        ]
    );
    assert_eq!(adam[1].sequences[2].status, Status::Pass);
    assert_eq!(adam[1].sequences[2].name, "v_adsl.rtf");
    assert_eq!(adam[1].sequences[3].status, Status::Pass);
    assert_eq!(adam[1].status, Status::Pass);
    let tfl = TflSequenceAuditor::new("t-1", &invest).audit();
    assert_eq!(tfl[0].sequences[1].status, Status::Missing);
    assert_eq!(tfl[0].sequences[2].status, Status::Failed("Code later than output".into()));
    assert_eq!(tfl[0].sequences[3].status, Status::Failed("Output later than log".into()));
    assert_eq!(tfl[1].sequences[2].status, Status::Missing);
}

fn dir(path: &str) -> Entry {
    Entry { path: path.into(), is_file: false }
}

fn plain_file(path: &str) -> Entry {
    Entry { path: path.into(), is_file: true }
}

fn studies() -> Vec<Folder> {
    let mut products: Vec<Entry> =
        (101..=110).map(|n| dir(&format!(r"D:\Studies\AK{}", n))).collect();
    products.push(dir(r"D:\Studies\archive"));
    products.push(plain_file(r"D:\Studies\ak999"));
    let mut tree = vec![Folder { path: r"D:\Studies".into(), entries: products }];
    for n in 101..=110 {
        let entries = if n == 101 {
            vec![dir(r"D:\Studies\AK101\202"), dir(r"D:\Studies\AK101\303"), plain_file(r"D:\Studies\AK101\notes.txt")]
        } else {
            vec![]
        };
        tree.push(Folder { path: format!(r"D:\Studies\AK{}", n), entries });
    }
    tree.push(Folder { path: r"D:\Studies\ak101".into(), entries: vec![dir(r"D:\Studies\ak101\202"), dir(r"D:\Studies\ak101\303")] });
    tree.push(Folder {
        path: r"D:\Studies\ak101\202\stats".into(),
        entries: vec![
            dir(r"D:\Studies\ak101\202\stats\CSR"),
            dir(r"D:\Studies\ak101\202\stats\IA"),
            plain_file(r"D:\Studies\ak101\202\stats\readme.md"),
            dir(r"D:\Studies\ak101\202\stats\DSUR"),
            dir(r"D:\Studies\ak101\202\stats\adhoc"),
        ],
    });
    tree
}

#[test]
fn test_list_products() {
    let products = list_products(r"D:\Studies", &studies()).unwrap();
    assert_eq!(products.len(), 10);
    assert_eq!(products[0].id, "ak101");
    assert_eq!(products[0].name, "ak101");
    assert_eq!(products[0].trials.len(), 2);
    assert_eq!(products[0].trials[1].id, "ak101-303");
    assert!(products[1].trials.is_empty());
}

#[test]
fn listing_fails_where_a_folder_was_not_listed() {
    assert!(matches!(list_products(r"D:\Nowhere", &studies()), Err(Error::ListProjectFailed)));
    let mut tree = studies();
    tree.remove(3);
    assert!(matches!(list_products(r"D:\Studies", &tree), Err(Error::ListProjectFailed)));
    assert!(matches!(list_trials("ak101", r"D:\Nowhere", &studies()), Err(Error::ListProjectFailed)));
    assert!(matches!(fetch_product(r"D:\Studies\ak777", &studies()), Err(Error::ListProjectFailed)));
}

#[test]
fn test_fetch_product() {
    let product = fetch_product(r"D:\Studies\ak101", &studies()).unwrap();
    assert!(product.is_some());
    let product = product.unwrap();
    assert_eq!(product.trials[0].purposes.len(), 4);
    assert!(fetch_product(r"D:\Studies\archive", &studies()).unwrap().is_none());
}

#[test]
fn test_valid_product_name() {
    let name = "ak101";
    assert!(valid_product_name(name));
    let name = "bk101";
    assert!(!valid_product_name(name));
    let name = "";
    assert!(!valid_product_name(name));
}

#[test]
fn product_names_by_the_pattern() {
    assert!(valid_product_name("ak1012"));
    assert!(valid_product_name("ak101-x"));
    assert!(!valid_product_name("ak10"));
    assert!(!valid_product_name("xak101"));
    assert!(!valid_product_name("AK101"));
    assert!(!valid_product_name("^ak\\d{3}"));
}

#[test]
fn test_list_purposes() {
    let root = r"D:\Studies\ak101\202\stats";
    let parent = "ak101-202";
    let purposes = list_purposes(parent, root, &studies()).unwrap();
    assert_eq!(purposes.len(), 4);
    assert_eq!(purposes[0].id, "ak101-202-CSR");
    assert_eq!(purposes[3].name, "adhoc");
    assert!(list_purposes(parent, r"D:\Studies\ak101\303\stats", &studies()).unwrap().is_empty());
    let p = fetch_purpose("a", r"x\y").unwrap();
    assert!(p.id == "a-y" && p.name == "y");
    assert_eq!(fetch_purpose("a", "").unwrap().id, "a-");
}

#[test]
fn test_list_trials() {
    let root = r"D:\Studies\ak101";
    let parent = "ak101";
    let purposes = list_trials(parent, root, &studies()).unwrap();
    assert_eq!(purposes.len(), 2);
    assert_eq!(purposes[0].id, "ak101-202");
    assert_eq!(purposes[0].name, "202");
    assert_eq!(purposes[0].purposes.len(), 4);
    assert!(purposes[1].purposes.is_empty());
    let t = fetch_trial("ak101", r"D:\Studies\ak101\202", &studies()).unwrap();
    assert_eq!(t.purposes[1].id, "ak101-202-IA");
}
