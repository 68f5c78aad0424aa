use inspector::chain::{audit_chain, Rules};
use inspector::module::{File, FileKind, FileStatus, GroupStatus};
use inspector::order::sort_order;
use inspector::qc::{judge_status, resolve_qc, Verdict};

fn present(name: &str, kind: FileKind, t: u64, size: u64) -> File {
    let mut f = File::new(name);
    f.require().set_kind(kind).update_modified_at(t).set_size(size).fine();
    f
}

fn absent(name: &str, kind: FileKind) -> File {
    let mut f = File::new(name);
    f.require().set_kind(kind).missing();
    f
}

fn statuses(files: &Vec<File>) -> Vec<FileStatus> {
    files.iter().map(|f| f.status()).collect()
}

fn rules(watermark: u64) -> Rules {
    Rules { watermark, init_size: Some(2750) }
}

#[test]
fn sort_order_is_stable_and_ascending() {
    assert_eq!(sort_order(&vec![]), Vec::<usize>::new());
    assert_eq!(sort_order(&vec![5]), vec![0]);
    assert_eq!(sort_order(&vec![3, 1, 2]), vec![1, 2, 0]);
    assert_eq!(sort_order(&vec![2, 1, 2, 1]), vec![1, 3, 0, 2]);
    assert_eq!(sort_order(&vec![1, 2, 3, 4]), vec![0, 1, 2, 3]);
    assert_eq!(sort_order(&vec![u64::MAX, 0, u64::MAX]), vec![1, 0, 2]);
}

#[test]
fn scenario_domain_in_order_is_ready() {
    let files = vec![
        present("ae.sas", FileKind::SasCode, 1, 3000),
        present("ae.sas7bdat", FileKind::SasData, 2, 10),
        present("ae.xpt", FileKind::Xpt, 3, 10),
        present("ae.log", FileKind::SasLog, 4, 10),
    ];
    let (status, marked) = audit_chain(&files, &rules(0));
    assert_eq!(status, GroupStatus::Ready);
    assert_eq!(statuses(&marked), vec![FileStatus::Fine; 4]);
    assert_eq!(marked[2].name(), "ae.xpt");
    assert_eq!(marked[2].modified_at(), 3);
}

#[test]
fn scenario_untouched_program_is_not_started() {
    let files = vec![
        present("ae.sas", FileKind::SasCode, 1, 500),
        absent("ae.sas7bdat", FileKind::SasData),
        absent("ae.xpt", FileKind::Xpt),
        absent("ae.log", FileKind::SasLog),
    ];
    let (status, marked) = audit_chain(&files, &rules(0));
    assert_eq!(status, GroupStatus::NotStart);
    assert_eq!(
        statuses(&marked),
        vec![FileStatus::Fine, FileStatus::Missing, FileStatus::Missing, FileStatus::Missing]
    );
}

#[test]
fn not_started_even_with_fresh_files_behind_the_program() {
    let files = vec![
        present("ae.sas", FileKind::SasCode, 1, 2750),
        present("ae.sas7bdat", FileKind::SasData, 2, 10),
        present("ae.log", FileKind::SasLog, 3, 10),
    ];
    let (status, marked) = audit_chain(&files, &rules(0));
    assert_eq!(status, GroupStatus::NotStart);
    assert_eq!(
        statuses(&marked),
        vec![FileStatus::Fine, FileStatus::Unexpected, FileStatus::Unexpected]
    );
    let edited = vec![
        present("ae.sas", FileKind::SasCode, 1, 2751),
        present("ae.sas7bdat", FileKind::SasData, 2, 10),
        present("ae.log", FileKind::SasLog, 3, 10),
    ];
    assert_eq!(audit_chain(&edited, &rules(0)).0, GroupStatus::Ready);
}

#[test]
fn size_is_not_looked_at_without_a_threshold() {
    let files = vec![
        present("ae.sas", FileKind::SasCode, 1, 0),
        present("ae.sas7bdat", FileKind::SasData, 2, 0),
    ];
    let r = Rules { watermark: 0, init_size: None };
    assert_eq!(audit_chain(&files, &r).0, GroupStatus::Ready);
}

#[test]
fn missing_file_means_building_whatever_the_times() {
    let files = vec![
        present("ae.sas", FileKind::SasCode, 9, 3000),
        present("ae.sas7bdat", FileKind::SasData, 2, 10),
        absent("ae.xpt", FileKind::Xpt),
        present("ae.log", FileKind::SasLog, 1, 10),
    ];
    let (status, marked) = audit_chain(&files, &rules(5));
    assert_eq!(status, GroupStatus::Building);
    assert_eq!(
        statuses(&marked),
        vec![
            FileStatus::Unexpected,
            FileStatus::Unexpected,
            FileStatus::Missing,
            FileStatus::Unexpected
        ]
    );
    let in_order = vec![
        present("ae.sas", FileKind::SasCode, 1, 3000),
        present("ae.sas7bdat", FileKind::SasData, 2, 10),
        absent("ae.log", FileKind::SasLog),
    ];
    let (status, marked) = audit_chain(&in_order, &rules(0));
    assert_eq!(status, GroupStatus::Building);
    assert_eq!(
        statuses(&marked),
        vec![FileStatus::Fine, FileStatus::Fine, FileStatus::Missing]
    );
}

#[test]
fn stale_file_means_changed_and_marks_the_rest() {
    let files = vec![
        present("ae.sas", FileKind::SasCode, 1, 3000),
        present("ae.sas7bdat", FileKind::SasData, 4, 10),
        present("ae.xpt", FileKind::Xpt, 6, 10),
        present("ae.log", FileKind::SasLog, 7, 10),
    ];
    let (status, marked) = audit_chain(&files, &rules(5));
    assert_eq!(status, GroupStatus::Changed);
    assert_eq!(
        statuses(&marked),
        vec![
            FileStatus::Fine,
            FileStatus::Unexpected,
            FileStatus::Unexpected,
            FileStatus::Unexpected
        ]
    );
    let at_watermark = vec![
        present("ae.sas", FileKind::SasCode, 1, 3000),
        present("ae.sas7bdat", FileKind::SasData, 5, 10),
    ];
    assert_eq!(audit_chain(&at_watermark, &rules(5)).0, GroupStatus::Ready);
}

#[test]
fn stale_file_with_a_missing_one_is_building() {
    let files = vec![
        present("ae.sas", FileKind::SasCode, 5, 3000),
        present("ae.sas7bdat", FileKind::SasData, 1, 10),
        absent("ae.log", FileKind::SasLog),
    ];
    let (status, marked) = audit_chain(&files, &rules(3));
    assert_eq!(status, GroupStatus::Building);
    assert_eq!(
        statuses(&marked),
        vec![FileStatus::Unexpected, FileStatus::Unexpected, FileStatus::Missing]
    );
}

#[test]
fn files_out_of_order_are_unexpected() {
    let files = vec![
        present("ae.sas", FileKind::SasCode, 1, 3000),
        present("ae.sas7bdat", FileKind::SasData, 4, 10),
        present("ae.xpt", FileKind::Xpt, 3, 10),
        present("ae.log", FileKind::SasLog, 5, 10),
    ];
    let (status, marked) = audit_chain(&files, &rules(0));
    assert_eq!(status, GroupStatus::Unexpected);
    assert_eq!(
        statuses(&marked),
        vec![
            FileStatus::Fine,
            FileStatus::Unexpected,
            FileStatus::Unexpected,
            FileStatus::Unexpected
        ]
    );
}

#[test]
fn dataset_older_than_untouched_program_is_unexpected() {
    let files = vec![
        present("ae.sas", FileKind::SasCode, 5, 500),
        present("ae.sas7bdat", FileKind::SasData, 1, 10),
    ];
    assert_eq!(audit_chain(&files, &rules(0)).0, GroupStatus::Unexpected);
}

#[test]
fn files_of_one_time_keep_their_order() {
    let files = vec![
        present("ae.sas", FileKind::SasCode, 7, 3000),
        present("ae.sas7bdat", FileKind::SasData, 7, 10),
        present("ae.log", FileKind::SasLog, 7, 10),
    ];
    assert_eq!(audit_chain(&files, &rules(7)).0, GroupStatus::Ready);
}

#[test]
fn empty_chain_is_ready() {
    let (status, marked) = audit_chain(&vec![], &rules(0));
    assert_eq!(status, GroupStatus::Ready);
    assert!(marked.is_empty());
}

fn report(t: u64, verdict: Option<Verdict>) -> File {
    let mut f = present("v_ae.rtf", FileKind::QcResult, t, 10);
    match judge_status(&verdict) {
        FileStatus::Fine => f.fine(),
        _ => f.not_match(),
    };
    f
}

#[test]
fn verdicts_decide_whether_a_report_is_fine() {
    assert_eq!(judge_status(&Some(Verdict::Match)), FileStatus::Fine);
    assert_eq!(judge_status(&Some(Verdict::Mismatch("row 3".into()))), FileStatus::NotMatch);
    assert_eq!(judge_status(&Some(Verdict::Unknown)), FileStatus::NotMatch);
    assert_eq!(judge_status(&None), FileStatus::NotMatch);
}

#[test]
fn old_report_is_unexpected_whatever_the_verdict() {
    for verdict in [Some(Verdict::Match), Some(Verdict::Mismatch("x".into())), None] {
        let (status, marked) = resolve_qc(GroupStatus::Ready, 10, &report(9, verdict));
        assert_eq!(status, GroupStatus::Unexpected);
        assert_eq!(marked.status(), FileStatus::Unexpected);
    }
}

#[test]
fn verdict_passes_through_for_a_report_that_is_not_older() {
    let (status, marked) = resolve_qc(GroupStatus::Ready, 10, &report(10, Some(Verdict::Match)));
    assert_eq!(status, GroupStatus::Pass);
    assert_eq!(marked.status(), FileStatus::Fine);
    let (status, marked) =
        resolve_qc(GroupStatus::Ready, 10, &report(11, Some(Verdict::Mismatch("x".into()))));
    assert_eq!(status, GroupStatus::NotMatch);
    assert_eq!(marked.status(), FileStatus::NotMatch);
    let (status, _) = resolve_qc(GroupStatus::Ready, 10, &report(11, Some(Verdict::Unknown)));
    assert_eq!(status, GroupStatus::NotMatch);
    let (status, _) = resolve_qc(GroupStatus::Ready, 10, &report(11, None));
    assert_eq!(status, GroupStatus::NotMatch);
}

#[test]
fn unready_track_keeps_its_status_and_marks_the_report() {
    for base in [
        GroupStatus::Building,
        GroupStatus::Changed,
        GroupStatus::Unexpected,
        GroupStatus::NotStart,
    ] {
        let (status, marked) = resolve_qc(base, 0, &report(11, Some(Verdict::Match)));
        assert_eq!(status, base);
        assert_eq!(marked.status(), FileStatus::Unexpected);
        let (status, marked) = resolve_qc(base, 0, &absent("v_ae.rtf", FileKind::QcResult));
        assert_eq!(status, base);
        assert_eq!(marked.status(), FileStatus::Missing);
    }
}

#[test]
fn report_that_was_not_found_on_a_ready_track() {
    let gone = absent("v_ae.rtf", FileKind::QcResult);
    let (status, marked) = resolve_qc(GroupStatus::Ready, 10, &gone);
    assert_eq!(status, GroupStatus::Unexpected);
    assert_eq!(marked.status(), FileStatus::Missing);
    let (status, marked) = resolve_qc(GroupStatus::Ready, 0, &gone);
    assert_eq!(status, GroupStatus::NotMatch);
    assert_eq!(marked.status(), FileStatus::Missing);
}
