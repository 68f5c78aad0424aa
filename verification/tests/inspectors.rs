use inspector::api::{inspect_adam, inspect_sdtm, inspect_tfls, split_filename};
use inspector::error::InspectError;
use inspector::module::{FileKind, FileStatus, GroupKind, GroupStatus, Paths};
use inspector::qc::Verdict;
use inspector::sdtm::inspect::DomainKind;
use inspector::sdtm::spec::skip_supp;
use inspector::sheet::{Cell, Sheet, Workbook};
use inspector::snapshot::{latest_timestamp, Entry, Judgement, Snapshot};
use inspector::tfls::inspect::file_name_convert;
use inspector::track::Scan;

fn entry(name: &str, size: u64, t: u64) -> Entry {
    Entry { name: name.into(), size, modified_at: t }
}

fn empty_scan() -> Scan {
    Scan {
        upstream: vec![],
        dev_program: vec![],
        qc_program: vec![],
        dev_data: vec![],
        qc_data: vec![],
        dev_output: vec![],
        qc_files: vec![],
        judgements: vec![],
    }
}

fn text(s: &str) -> Cell {
    Cell::Text(s.into())
}

fn row_with(col: usize, cell: Cell) -> Vec<Cell> {
    let mut row = vec![Cell::Empty; col];
    row.push(cell);
    row
}

fn content_sheet(name: &str, skipped: usize, names: &[&str]) -> Sheet {
    let mut rows = vec![vec![text("title")]; skipped];
    for n in names {
        rows.push(vec![text(n)]);
    }
    Sheet { name: name.into(), rows }
}

fn sdtm_book(count: usize) -> Workbook {
    let names: Vec<String> = (0..count).map(|i| format!("D{:02}", i)).collect();
    let mut listed: Vec<&str> = names.iter().map(|s| s.as_str()).collect();
    listed.insert(3, "SUPPD00");
    let mut sheets = vec![content_sheet("CONTENT", 6, &listed)];
    for (i, n) in names.iter().enumerate() {
        let mut rows = vec![row_with(9, text("variable")), row_with(9, Cell::Empty)];
        if i == 5 {
            rows.push(row_with(9, text("SUPP")));
            rows.push(row_with(9, text("AE")));
        } else if i != 36 {
            rows.push(row_with(9, text("AE")));
        }
        sheets.push(Sheet { name: n.clone(), rows });
    }
    Workbook { sheets }
}

#[test]
fn skip_supp_test() {
    assert!(skip_supp("SUPPAE"));
    assert!(!skip_supp("AE"));
}

#[test]
fn convert_test() {
    let name = "t-14-01-01-01-disp-scr";
    assert_eq!(
        "t_14_01_01_01_disp_scr",
        file_name_convert(name, FileKind::SasData)
    );
    assert_eq!(name, file_name_convert(name, FileKind::SasCode));
}

#[test]
fn spec_read_spec_test() {
    let result = inspector::sdtm::read_spec(&sdtm_book(37)).unwrap();
    assert_eq!(37, result.len());
    assert!(result.get(5).unwrap().1);
    assert!(!result.get(36).unwrap().1);
    assert_eq!(result[0].0, "d00");
}

#[test]
fn adam_read_spec_test() {
    let names: Vec<String> = (0..17).map(|i| format!("ADX{}", i)).collect();
    let listed: Vec<&str> = names.iter().map(|s| s.as_str()).collect();
    let mut sheet = content_sheet("CONTENT", 6, &listed);
    sheet.rows.push(vec![Cell::Empty]);
    sheet.rows.push(vec![text("BEHIND")]);
    let result = inspector::adam::read_spec(&Workbook { sheets: vec![sheet] }).unwrap();
    assert_eq!(17, result.len());
    assert_eq!(result[16], "adx16");
}

#[test]
fn read_top_test() {
    let mut rows = vec![vec![text("level"), text(""), text(""), text(""), text("name")]];
    for i in 0..144 {
        let level = if i % 2 == 0 {
            text("3")
        } else {
            Cell::Float { text: "2".into(), whole: Some(2) }
        };
        rows.push(vec![level, Cell::Empty, Cell::Empty, Cell::Empty, text(&format!("t-{}", i))]);
    }
    let book = Workbook { sheets: vec![Sheet { name: "top".into(), rows }] };
    let result = inspector::tfls::read_top(&book).unwrap();
    assert_eq!(144, result.len());
    assert_eq!(result[0], ("t-0".to_string(), true));
    assert_eq!(result[1], ("t-1".to_string(), false));
}

#[test]
fn readers_fail_without_their_sheet_or_on_unreadable_cells() {
    let none = Workbook { sheets: vec![] };
    assert_eq!(inspector::sdtm::read_spec(&none).unwrap_err(), InspectError::MissingSheet);
    assert_eq!(inspector::adam::read_spec(&none).unwrap_err(), InspectError::MissingSheet);
    assert_eq!(inspector::tfls::read_top(&none).unwrap_err(), InspectError::MissingSheet);
    let mut sheet = content_sheet("CONTENT", 6, &["AE"]);
    sheet.rows.push(vec![Cell::Other]);
    let book = Workbook { sheets: vec![sheet] };
    assert_eq!(inspector::adam::read_spec(&book).unwrap_err(), InspectError::UnreadableCell);
    assert_eq!(inspector::sdtm::read_spec(&book).unwrap_err(), InspectError::UnreadableCell);
    assert_eq!(InspectError::MissingSheet.message(), "Error: worksheet not found");
    assert_eq!(
        InspectError::InvalidFileKind(GroupKind::Dev).message(),
        "Error: invalid filetype for dev group"
    );
    assert_eq!(
        InspectError::InvalidFileKind(GroupKind::Qc).message(),
        "Error: invalid filetype for qc group"
    );
    assert_eq!(InspectError::InvalidProjectDir.message(), "Error: invalid project directory");
    assert_eq!(
        InspectError::UnreadableCell.message(),
        "Error: cell holds neither text nor number"
    );
}

#[test]
fn sdtm_domain_without_sheet_has_no_supplement() {
    let book = Workbook { sheets: vec![content_sheet("CONTENT", 6, &["AE", "SUPPAE", "DM"])] };
    let result = inspector::sdtm::read_spec(&book).unwrap();
    assert_eq!(result, vec![("ae".to_string(), false), ("dm".to_string(), false)]);
}

#[test]
fn snapshot_keeps_the_wanted_files_and_the_latest_record() {
    let listing =
        vec![entry("ae.sas", 10, 1), entry("ae.txt", 10, 2), entry("ae.log", 5, 3), entry("ae.sas", 20, 4)];
    let s = inspector::sdtm::Inspector::program_files_map(&listing);
    assert_eq!(s.get("ae.sas"), Some((20, 4)));
    assert_eq!(s.get("ae.log"), Some((5, 3)));
    assert_eq!(s.get("ae.txt"), None);
    let data = vec![entry("ae.sas7bdat", 1, 1), entry("ae.xpt", 2, 2)];
    assert_eq!(inspector::adam::Inspector::datasets_files_map(&data).get("ae.xpt"), Some((2, 2)));
    assert_eq!(inspector::tfls::Inspector::datasets_files_map(&data).get("ae.xpt"), None);
    assert_eq!(
        inspector::tfls::Inspector::datasets_files_map(&data).get("ae.sas7bdat"),
        Some((1, 1))
    );
    let reports = vec![entry("v_ae.rtf", 1, 1), entry("v_ae.pdf", 1, 1)];
    assert_eq!(inspector::sdtm::Inspector::qc_files_map(&reports).get("v_ae.rtf"), Some((1, 1)));
    assert_eq!(inspector::tfls::Inspector::outputs_files_map(&reports).get("v_ae.pdf"), None);
    let mut own = Snapshot::new();
    assert_eq!(own.get("a"), None);
    own.insert("a", 1, 2);
    own.insert("a", 3, 4);
    assert_eq!(own.get("a"), Some((3, 4)));
    assert_eq!(latest_timestamp(&listing), 4);
    assert_eq!(latest_timestamp(&vec![]), 0);
}

fn adam_scan() -> Scan {
    let mut scan = empty_scan();
    scan.upstream = vec![entry("ae.sas7bdat", 1, 5), entry("dm.sas7bdat", 1, 3)];
    scan.dev_program = vec![entry("adsl.sas", 3000, 10), entry("adsl.log", 1, 40)];
    scan.dev_data = vec![entry("adsl.sas7bdat", 1, 20), entry("adsl.xpt", 1, 30)];
    scan.qc_program = vec![entry("v-adsl.sas", 3000, 11), entry("v-adsl.log", 1, 31)];
    scan.qc_data = vec![entry("v_adsl.sas7bdat", 1, 21)];
    scan.qc_files = vec![entry("v_adsl.rtf", 1, 50)];
    scan.judgements = vec![Judgement { name: "v_adsl.rtf".into(), verdict: Some(Verdict::Match) }];
    scan
}

#[test]
fn inspect_inspect_test() {
    let specs = vec!["adsl".to_string(), "adae".to_string()];
    let i = inspector::adam::Inspector::new(specs.clone(), Paths::new(r"D:\CSR"), adam_scan());
    let m = i.module().unwrap();
    assert_eq!(specs.len(), m.items().len());
    assert_eq!(i.latest_sdtm_data(), 5);
    let adsl = &m.items()[0];
    assert_eq!(adsl.name(), "adsl");
    assert_eq!(adsl.dev().status(), GroupStatus::Ready);
    assert_eq!(adsl.qc().status(), GroupStatus::Pass);
    assert_eq!(adsl.qc().get_file_copies(FileKind::QcResult).0.status(), FileStatus::Fine);
    let adae = &m.items()[1];
    assert_eq!(adae.dev().status(), GroupStatus::Building);
    assert_eq!(adae.qc().status(), GroupStatus::Building);
    assert!(adae.qc().get_file_copies(FileKind::QcResult).0.is_missing());
}

#[test]
fn adam_qc_stage_follows_the_report() {
    let specs = vec!["adsl".to_string()];
    let mut late_data = adam_scan();
    late_data.dev_data = vec![entry("adsl.sas7bdat", 1, 60), entry("adsl.xpt", 1, 70)];
    late_data.dev_program = vec![entry("adsl.sas", 3000, 10), entry("adsl.log", 1, 80)];
    let m = inspector::adam::Inspector::new(specs.clone(), Paths::new("r"), late_data)
        .module()
        .unwrap();
    assert_eq!(m.items()[0].qc().status(), GroupStatus::Unexpected);
    assert_eq!(
        m.items()[0].qc().get_file_copies(FileKind::QcResult).0.status(),
        FileStatus::Unexpected
    );
    let mut mismatch = adam_scan();
    mismatch.judgements =
        vec![Judgement { name: "v_adsl.rtf".into(), verdict: Some(Verdict::Mismatch("n".into())) }];
    let m =
        inspector::adam::Inspector::new(specs.clone(), Paths::new("r"), mismatch).module().unwrap();
    assert_eq!(m.items()[0].qc().status(), GroupStatus::NotMatch);
    let mut unread = adam_scan();
    unread.judgements = vec![Judgement { name: "v_adsl.rtf".into(), verdict: None }];
    let m =
        inspector::adam::Inspector::new(specs.clone(), Paths::new("r"), unread).module().unwrap();
    assert_eq!(m.items()[0].qc().status(), GroupStatus::NotMatch);
    let mut unstarted = adam_scan();
    unstarted.qc_program = vec![entry("v-adsl.sas", 2900, 11), entry("v-adsl.log", 1, 31)];
    let m = inspector::adam::Inspector::new(specs, Paths::new("r"), unstarted).module().unwrap();
    assert_eq!(m.items()[0].qc().status(), GroupStatus::NotStart);
    assert_eq!(
        m.items()[0].qc().get_file_copies(FileKind::QcResult).0.status(),
        FileStatus::Unexpected
    );
    assert_eq!(inspector::adam::inspect::init_size(false), 2750);
    assert_eq!(inspector::adam::inspect::init_size(true), 2900);
    assert_eq!(inspector::tfls::inspect::init_size(false), 2300);
    assert_eq!(inspector::tfls::inspect::init_size(true), 2700);
}

fn tfl_scan() -> Scan {
    let mut scan = empty_scan();
    scan.upstream = vec![entry("adsl.sas7bdat", 1, 5)];
    scan.dev_program = vec![entry("t-14-01.sas", 3000, 10), entry("t-14-01.log", 1, 40)];
    scan.dev_data = vec![entry("t_14_01.sas7bdat", 1, 20)];
    scan.dev_output = vec![entry("t-14-01.rtf", 1, 30)];
    scan.qc_program = vec![entry("v-t-14-01.sas", 3000, 11), entry("v-t-14-01.log", 1, 31)];
    scan.qc_data = vec![entry("v_t_14_01.sas7bdat", 1, 21)];
    scan.qc_files = vec![entry("v_t_14_01.rtf", 1, 50)];
    scan.judgements =
        vec![Judgement { name: "v_t_14_01.rtf".into(), verdict: Some(Verdict::Match) }];
    scan
}

#[test]
fn scenario_output_without_qc_is_not_applicable() {
    let tops = vec![("t-14-01".to_string(), false), ("t-14-01".to_string(), true)];
    let i = inspector::tfls::Inspector::new(tops, Paths::new("r"), tfl_scan());
    assert_eq!(i.latest_adam_data(), 5);
    let m = i.module().unwrap();
    let without = &m.items()[0];
    assert_eq!(without.dev().status(), GroupStatus::Ready);
    assert_eq!(without.qc().status(), GroupStatus::NotApplicable);
    assert_eq!(without.qc().get_file_copies(FileKind::SasCode).0.status(), FileStatus::Fine);
    assert!(!without.qc().get_file_copies(FileKind::QcResult).0.is_required());
    let with = &m.items()[1];
    assert_eq!(with.qc().status(), GroupStatus::Pass);
    assert!(with.qc().get_file_copies(FileKind::QcResult).0.is_required());
}

fn sdtm_scan() -> Scan {
    let mut scan = empty_scan();
    scan.upstream = vec![entry("ae.csv", 1, 0)];
    scan.dev_program = vec![entry("ae.sas", 3000, 1), entry("ae.log", 1, 6)];
    scan.dev_data = vec![
        entry("ae.sas7bdat", 1, 2),
        entry("suppae.sas7bdat", 1, 3),
        entry("ae.xpt", 1, 4),
        entry("suppae.xpt", 1, 5),
    ];
    scan.qc_program = vec![entry("v-ae.sas", 3000, 1), entry("v-ae.log", 1, 4)];
    scan.qc_data = vec![entry("v_ae.sas7bdat", 1, 2), entry("v_suppae.sas7bdat", 1, 3)];
    scan.qc_files = vec![entry("v_ae.rtf", 1, 7), entry("v_suppae.rtf", 1, 8)];
    scan.judgements = vec![
        Judgement { name: "v_ae.rtf".into(), verdict: Some(Verdict::Match) },
        Judgement { name: "v_suppae.rtf".into(), verdict: Some(Verdict::Mismatch("x".into())) },
    ];
    scan
}

#[test]
fn sdtm_inspect_test() {
    let specs = vec![("ae".to_string(), true)];
    let i = inspector::sdtm::Inspector::new(specs.clone(), Paths::new("r"), sdtm_scan());
    let m = i.module().unwrap();
    assert_eq!(specs.len(), m.items().len());
    assert_eq!(i.latest_rawdata(), 0);
    let ae = &m.items()[0];
    assert_eq!(ae.dev().status(), GroupStatus::Ready);
    assert_eq!(ae.qc().status(), GroupStatus::Pass);
    assert_eq!(ae.qc_supp(), Some(GroupStatus::NotMatch));
    assert_eq!(ae.qc().get_file_copies(FileKind::QcResult).1.status(), FileStatus::NotMatch);
    let f = i.file("AE", FileKind::SasData, GroupKind::Dev, DomainKind::Supp).unwrap();
    assert_eq!(f.name(), "suppae.sas7bdat");
    assert!(f.is_supp() && f.is_required());
    assert_eq!(f.modified_at(), 3);
    assert_eq!(
        i.file("ae", FileKind::QcResult, GroupKind::Dev, DomainKind::Main).unwrap_err(),
        InspectError::InvalidFileKind(GroupKind::Dev)
    );
    assert_eq!(
        i.file("ae", FileKind::Output, GroupKind::Qc, DomainKind::Main).unwrap_err(),
        InspectError::InvalidFileKind(GroupKind::Qc)
    );
}

#[test]
fn scenario_missing_supplement_forces_building_before_qc() {
    let mut scan = sdtm_scan();
    scan.qc_data = vec![entry("v_ae.sas7bdat", 1, 2)];
    let i = inspector::sdtm::Inspector::new(vec![("ae".to_string(), true)], Paths::new("r"), scan);
    let m = i.module().unwrap();
    let ae = &m.items()[0];
    assert_eq!(ae.qc().status(), GroupStatus::Building);
    assert_eq!(ae.qc_supp(), Some(GroupStatus::Building));
    assert!(ae.qc().get_file_copies(FileKind::SasData).1.is_missing());
    assert_eq!(ae.qc().get_file_copies(FileKind::QcResult).0.status(), FileStatus::Unexpected);
    assert_eq!(ae.qc().get_file_copies(FileKind::QcResult).1.status(), FileStatus::Unexpected);
    let without = inspector::sdtm::Inspector::new(
        vec![("ae".to_string(), false)],
        Paths::new("r"),
        {
            let mut s = sdtm_scan();
            s.qc_data = vec![entry("v_ae.sas7bdat", 1, 2)];
            s
        },
    );
    let m = without.module().unwrap();
    assert_eq!(m.items()[0].qc().status(), GroupStatus::Pass);
    assert_eq!(m.items()[0].qc_supp(), None);
}

#[test]
fn tfls_inspect_test() {
    let tops = vec![("t-14-01".to_string(), true)];
    let i = inspector::tfls::Inspector::new(tops.clone(), Paths::new("r"), tfl_scan());
    let m = i.module().unwrap();
    assert_eq!(tops.len(), m.items().len());
    let (status, marked) = i.update_status(
        &vec![i.file("t-14-01", FileKind::SasCode, GroupKind::Dev).unwrap()],
        false,
    );
    assert_eq!(status, GroupStatus::Ready);
    assert_eq!(marked[0].name(), "t-14-01.sas");
}

#[test]
fn api_split_filename() {
    assert_eq!(split_filename("ae.xpt"), ("ae".to_string(), "xpt".to_string()));
    assert_eq!(split_filename("a.b.c"), ("a.b".to_string(), "c".to_string()));
    assert_eq!(split_filename(".bashrc"), (".bashrc".to_string(), "".to_string()));
    assert_eq!(split_filename("readme"), ("readme".to_string(), "".to_string()));
    assert_eq!(split_filename("a."), ("a".to_string(), "".to_string()));
    assert_eq!(split_filename(""), ("".to_string(), "".to_string()));
}

#[test]
fn adam_report_lists_tracks_and_timeline() {
    let book = Workbook { sheets: vec![content_sheet("CONTENT", 6, &["ADSL", "ADAE"])] };
    let report = inspect_adam(&book, r"D:\CSR", adam_scan()).unwrap();
    assert_eq!(report.items.len(), 2);
    let adsl = &report.items[0];
    assert_eq!(adsl.name, "ADSL");
    assert_eq!(adsl.groups.len(), 2);
    assert_eq!(adsl.groups[0].status, GroupStatus::Ready);
    assert_eq!(adsl.groups[1].status, GroupStatus::Pass);
    let dev: Vec<&str> = adsl.groups[0].files.iter().map(|f| f.name.as_str()).collect();
    assert_eq!(dev, vec!["adsl", "adsl", "adsl", "adsl"]);
    let kinds: Vec<FileKind> = adsl.groups[1].files.iter().map(|f| f.kind).collect();
    assert_eq!(
        kinds,
        vec![FileKind::SasCode, FileKind::SasData, FileKind::SasLog, FileKind::QcResult]
    );
    let times: Vec<u64> = adsl.timeline.iter().map(|f| f.modified_at).collect();
    assert_eq!(times, vec![10, 11, 20, 21, 30, 31, 40, 50]);
    assert_eq!(adsl.timeline[0].name, "adsl");
    assert_eq!(adsl.timeline[0].kind, FileKind::SasCode);
    assert_eq!(adsl.timeline[1].name, "v-adsl");
    assert!(adsl.timeline.iter().all(|f| f.kind != FileKind::Input));
    let adae = &report.items[1];
    assert!(adae.timeline.is_empty());
    assert_eq!(adae.groups[0].files.len(), 4);
    assert_eq!(adae.groups[0].files[0].status, FileStatus::Missing);
    assert_eq!(
        inspect_adam(&Workbook { sheets: vec![] }, "r", adam_scan()).unwrap_err(),
        InspectError::MissingSheet
    );
}

#[test]
fn tfls_report_keeps_names_and_leaves_out_what_is_not_required() {
    let rows = vec![
        vec![text("level"), text(""), text(""), text(""), text("name")],
        vec![text("3"), Cell::Empty, Cell::Empty, Cell::Empty, text("t-14-01")],
        vec![text("1"), Cell::Empty, Cell::Empty, Cell::Empty, text("t-14-01")],
    ];
    let book = Workbook { sheets: vec![Sheet { name: "top".into(), rows }] };
    let report = inspect_tfls(&book, "r", tfl_scan()).unwrap();
    assert_eq!(report.items[0].name, "t-14-01");
    assert_eq!(report.items[0].groups[1].files.len(), 4);
    assert_eq!(report.items[0].groups[1].files[2].kind, FileKind::QcResult);
    assert_eq!(report.items[0].timeline.len(), 8);
    assert_eq!(report.items[0].timeline[0].name, "t-14-01");
    assert_eq!(report.items[1].groups[1].status, GroupStatus::NotApplicable);
    assert_eq!(report.items[1].groups[1].files.len(), 3);
    assert_eq!(report.items[1].timeline.len(), 7);
}

#[test]
fn sdtm_report_shows_supplementary_files_only_where_there_are_any() {
    let book = Workbook { sheets: vec![content_sheet("CONTENT", 6, &["AE"])] };
    let report = inspect_sdtm(&book, "r", sdtm_scan()).unwrap();
    assert_eq!(report.items[0].name, "AE");
    assert_eq!(report.items[0].groups[0].files.len(), 4);
    assert_eq!(report.items[0].groups[1].files.len(), 4);
    assert_eq!(report.items[0].timeline.len(), 8);
    assert_eq!(report.items[0].timeline[0].modified_at, 1);
    let with = sdtm_book(6);
    let mut scan = sdtm_scan();
    scan.dev_data.push(entry("suppd05.sas7bdat", 1, 9));
    let report = inspector::inspect_sdtm(&with, "r", scan).unwrap();
    assert_eq!(report.items[5].name, "D05");
    assert_eq!(report.items[5].groups[0].files.len(), 6);
    assert_eq!(report.items[5].groups[1].files.len(), 6);
    assert_eq!(report.items[5].timeline.len(), 1);
    assert_eq!(report.items[5].timeline[0].name, "suppd05");
    assert_eq!(report.items[4].groups[0].files.len(), 4);
}

#[test]
fn sdtm_test() {
    let result = inspect_sdtm(&sdtm_book(37), r"D:\CSR", sdtm_scan()).unwrap();
    assert_eq!(result.items.len(), 37);
}

#[test]
fn tfls_test() {
    let rows = vec![
        vec![text("level"), text(""), text(""), text(""), text("name")],
        vec![text("3"), Cell::Empty, Cell::Empty, Cell::Empty, text("t-14-01")],
    ];
    let book = Workbook { sheets: vec![Sheet { name: "top".into(), rows }] };
    let result = inspect_tfls(&book, r"D:\CSR", tfl_scan()).unwrap();
    assert_eq!(result.items.len(), 1);
}

#[test]
fn timeline_of_files_of_one_time_keeps_the_order_of_the_tracks() {
    let mut scan = adam_scan();
    scan.qc_program = vec![entry("v-adsl.sas", 3000, 10), entry("v-adsl.log", 1, 31)];
    let book = Workbook { sheets: vec![content_sheet("CONTENT", 6, &["ADSL"])] };
    let report = inspect_adam(&book, "r", scan).unwrap();
    let names: Vec<&str> = report.items[0].timeline.iter().map(|f| f.name.as_str()).collect();
    assert_eq!(names[..3], ["adsl", "v-adsl", "adsl"]);
}

#[test]
fn reports_whose_verdicts_are_read() {
    let sdtm = vec![("AE".to_string(), true), ("dm".to_string(), false)];
    assert_eq!(
        inspector::sdtm::inspect::judged_reports(&sdtm),
        vec!["v_ae.rtf", "v_suppae.rtf", "v_dm.rtf"]
    );
    let adam = vec!["adsl".to_string(), "ad-ae".to_string()];
    assert_eq!(inspector::adam::inspect::judged_reports(&adam), vec!["v_adsl.rtf", "v_ad_ae.rtf"]);
    let tfls = vec![("t-1".to_string(), false), ("t-2".to_string(), true)];
    assert_eq!(inspector::tfls::inspect::judged_reports(&tfls), vec!["v_t_2.rtf"]);
    assert!(inspector::tfls::inspect::judged_reports(&vec![]).is_empty());
}
