use inspector::module::file::slot_filename;
use inspector::module::{File, FileKind, FileStatus, Group, GroupKind, GroupStatus, Item, Module, Paths};

#[test]
fn create_file_test() {
    let filename = "ae";
    let mut f = File::new(filename);
    assert_eq!(filename, f.name());
    assert!(!f.is_required());
    assert!(f.is_missing());
    assert!(f.kind().eq(&FileKind::Other));
    assert_eq!(0, f.modified_at());
    let timestamp = 1000;
    f.set_kind(FileKind::SasCode)
        .fine()
        .require()
        .update_modified_at(timestamp);
    assert!(f.is_required());
    assert!(f.kind().eq(&FileKind::SasCode));
    assert_eq!(timestamp, f.modified_at());
    assert!(!f.is_supp());
    assert!(f.supp().is_supp());
}

#[test]
fn filename_test() {
    let name = "ae";
    assert_eq!(FileKind::SasCode.filename(name, GroupKind::Dev), "ae.sas");
    assert_eq!(FileKind::SasCode.filename(name, GroupKind::Qc), "v-ae.sas");
    assert_eq!(FileKind::SasLog.filename(name, GroupKind::Qc), "v-ae.log");
    assert_eq!(
        FileKind::SasData.filename(name, GroupKind::Qc),
        "v_ae.sas7bdat"
    );
}

#[test]
fn filename_of_every_kind() {
    assert_eq!(FileKind::SasData.filename("ae", GroupKind::Dev), "ae.sas7bdat");
    assert_eq!(FileKind::SasLog.filename("ae", GroupKind::Dev), "ae.log");
    assert_eq!(FileKind::Output.filename("ae", GroupKind::Dev), "ae.rtf");
    assert_eq!(FileKind::QcResult.filename("ae", GroupKind::Dev), "ae.rtf");
    assert_eq!(FileKind::Xpt.filename("ae", GroupKind::Dev), "ae.xpt");
    assert_eq!(FileKind::Input.filename("ae", GroupKind::Dev), "ae");
    assert_eq!(FileKind::Other.filename("ae", GroupKind::Qc), "ae");
    assert_eq!(FileKind::Output.filename("ae", GroupKind::Qc), "v-ae.rtf");
    assert_eq!(FileKind::QcResult.filename("ae", GroupKind::Qc), "v_ae.rtf");
    assert_eq!(FileKind::Xpt.filename("ae", GroupKind::Qc), "v_ae.xpt");
}

#[test]
fn slot_filename_lowers_and_marks_supplement() {
    assert_eq!(slot_filename("AE", GroupKind::Dev, FileKind::SasCode, false), "ae.sas");
    assert_eq!(slot_filename("AE", GroupKind::Dev, FileKind::SasData, true), "suppae.sas7bdat");
    assert_eq!(slot_filename("AE", GroupKind::Qc, FileKind::QcResult, true), "v_suppae.rtf");
    assert_eq!(slot_filename("Ae", GroupKind::Qc, FileKind::SasLog, false), "v-ae.log");
}

#[test]
fn slot_filename_keeps_hyphens_of_code_and_output() {
    let id = "T-14-01-01";
    assert_eq!(slot_filename(id, GroupKind::Dev, FileKind::SasCode, false), "t-14-01-01.sas");
    assert_eq!(slot_filename(id, GroupKind::Dev, FileKind::Output, false), "t-14-01-01.rtf");
    assert_eq!(slot_filename(id, GroupKind::Qc, FileKind::SasCode, false), "v-t-14-01-01.sas");
    assert_eq!(slot_filename(id, GroupKind::Dev, FileKind::SasData, false), "t_14_01_01.sas7bdat");
    assert_eq!(slot_filename(id, GroupKind::Qc, FileKind::SasData, false), "v_t_14_01_01.sas7bdat");
    assert_eq!(slot_filename(id, GroupKind::Qc, FileKind::QcResult, false), "v_t_14_01_01.rtf");
}

#[test]
fn file_defaults_and_equal() {
    assert_eq!(FileKind::default(), FileKind::Other);
    assert_eq!(FileStatus::default(), FileStatus::Missing);
    assert_eq!(GroupStatus::default(), GroupStatus::Unknown);
    let mut a = File::new("ae.sas");
    let mut b = File::new("ae.sas");
    assert!(!a.equal(&b));
    a.set_kind(FileKind::SasCode).fine();
    b.set_kind(FileKind::SasCode).fine();
    assert!(a.equal(&b));
    b.set_kind(FileKind::SasLog);
    assert!(!a.equal(&b));
    b.set_kind(FileKind::SasCode).missing();
    assert!(!a.equal(&b));
    a.set_size(10);
    assert!(a.start_edit(9));
    assert!(!a.start_edit(10));
    a.not_match();
    assert!(a.is_not_match());
    a.unexpected();
    assert_eq!(a.status(), FileStatus::Unexpected);
    a.not_require();
    assert!(!a.is_required());
    let c = a.duplicate();
    assert_eq!(c.name(), "ae.sas");
    assert_eq!(c.size(), 10);
}

#[test]
fn create_item_test() {
    let name = "ae";
    let mut i = Group::new();
    let mut data = File::new(name);
    let mut code = File::new(name);
    code.set_kind(FileKind::SasCode);
    data.set_kind(FileKind::SasData);
    i.set_files(vec![code, data]);
    let mut code = i.get_file_copies(FileKind::SasCode).0;
    code.fine();
    assert!(i.get_file_copies(FileKind::SasCode).0.is_missing());
    i.set_file(code);
    assert_eq!(i.get_file_copies(FileKind::SasCode).0.status(), FileStatus::Fine);
    let mut data = i.get_file_copies(FileKind::SasData).0;
    data.fine();
    assert!(i.get_file_copies(FileKind::SasData).0.is_missing());
    i.set_file(data);
    assert_eq!(i.get_file_copies(FileKind::SasData).0.status(), FileStatus::Fine);
}

#[test]
fn group_places_supplementary_files() {
    let mut g = Group::new();
    assert_eq!(g.status(), GroupStatus::Unknown);
    let mut supp = File::new("suppae.xpt");
    supp.set_kind(FileKind::Xpt).supp();
    let mut main = File::new("ae.xpt");
    main.set_kind(FileKind::Xpt);
    let mut qc = File::new("v_suppae.rtf");
    qc.set_kind(FileKind::QcResult).supp();
    let other = File::new("notes.txt");
    g.set_file(supp).set_file(main).set_file(qc).set_file(other);
    let xpt = g.get_file_copies(FileKind::Xpt);
    assert_eq!(xpt.0.name(), "ae.xpt");
    assert_eq!(xpt.1.name(), "suppae.xpt");
    assert_eq!(g.get_file_copies(FileKind::QcResult).1.name(), "v_suppae.rtf");
    assert_eq!(g.get_file_copies(FileKind::QcResult).0.name(), "");
    assert_eq!(g.get_file_copies(FileKind::Other).0.name(), "");
    assert_eq!(g.get_file_copies(FileKind::SasLog).1.name(), "");
    g.set_status(GroupStatus::Ready);
    assert_eq!(g.duplicate().status(), GroupStatus::Ready);
}

#[test]
fn item_and_module_hold_what_they_are_given() {
    let mut item = Item::new("ae");
    assert_eq!(item.name(), "ae");
    assert_eq!(item.qc_supp(), None);
    let mut dev = Group::new();
    dev.set_status(GroupStatus::Ready);
    let mut qc = Group::new();
    qc.set_status(GroupStatus::Pass);
    item.set_dev(dev).set_qc(qc).set_qc_supp(Some(GroupStatus::NotMatch));
    assert_eq!(item.dev().status(), GroupStatus::Ready);
    assert_eq!(item.qc().status(), GroupStatus::Pass);
    assert_eq!(item.qc_supp(), Some(GroupStatus::NotMatch));
    let mut m = Module::new();
    assert_eq!(m.items().len(), 0);
    m.set_item(item).set_item(Item::new("dm"));
    assert_eq!(m.items().len(), 2);
    assert_eq!(m.items()[1].name(), "dm");
}

#[test]
fn paths_test() {
    let root = r"\\180.0.0.1\Studies\ak112\303\stats\CSR";
    let p = Paths::new(root);
    assert_eq!(
        r"\\180.0.0.1\Studies\ak112\303\stats\CSR\rawdata",
        p.raw()
    );
    assert_eq!(
        r"\\180.0.0.1\Studies\ak112\303\stats\CSR\product\program\adam",
        p.adam_code(GroupKind::Dev)
    );
    assert_eq!(
        r"\\180.0.0.1\Studies\ak112\303\stats\CSR\product\dataset\sdtm",
        p.sdtm_dataset(GroupKind::Dev)
    );
    assert_eq!(
        r"\\180.0.0.1\Studies\ak112\303\stats\CSR\product\output",
        p.tfls_output()
    );
}

#[test]
fn paths_of_every_folder() {
    let p = Paths::new(r"D:\CSR");
    assert_eq!(p.sdtm_code(GroupKind::Dev), r"D:\CSR\product\program\sdtm");
    assert_eq!(p.sdtm_code(GroupKind::Qc), r"D:\CSR\validation\program\sdtm");
    assert_eq!(p.sdtm_dataset(GroupKind::Qc), r"D:\CSR\validation\dataset\sdtm");
    assert_eq!(p.sdtm_qc(), r"D:\CSR\validation\qc-result\sdtm");
    assert_eq!(p.adam_code(GroupKind::Qc), r"D:\CSR\validation\program\adam");
    assert_eq!(p.adam_dataset(GroupKind::Dev), r"D:\CSR\product\dataset\adam");
    assert_eq!(p.adam_dataset(GroupKind::Qc), r"D:\CSR\validation\dataset\adam");
    assert_eq!(p.adam_qc(), r"D:\CSR\validation\qc-result\adam");
    assert_eq!(p.tfls_code(GroupKind::Dev), r"D:\CSR\product\program\tfl");
    assert_eq!(p.tfls_code(GroupKind::Qc), r"D:\CSR\validation\program\tfl");
    assert_eq!(p.tfls_dataset(GroupKind::Dev), r"D:\CSR\product\dataset\tfl");
    assert_eq!(p.tfls_dataset(GroupKind::Qc), r"D:\CSR\validation\dataset\tfl");
    assert_eq!(p.tfls_qc(), r"D:\CSR\validation\qc-result\tfl");
    let q = Paths::new("D:\\");
    assert_eq!(q.raw(), r"D:\rawdata");
}
