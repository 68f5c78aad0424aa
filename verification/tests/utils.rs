use inspector::error::InspectError;
use inspector::inspector::inspector::Listed;
use inspector::inspector::{split_filename, Inspector};
use inspector::text;
use inspector::utils::infer::ConfigFileKind;
use inspector::ProjectDirInfer;

#[test]
fn prject_dir_infer_test() {
    let i = ProjectDirInfer::new(r"D:\Studies\ak112\303\stats\CSR").unwrap().confirmed(true, true).unwrap();
    assert_eq!(i.specs(), r"D:\Studies\ak112\303\documents\specs");
    let specs = vec![
        "AK112-303 SDTM Specification v0.4.xlsx".to_string(),
        "AK112-303 ADaM Specification v0.2.xlsx".to_string(),
        "AK112-303 SDTM Specification v0.3.docx".to_string(),
    ];
    let utility = vec!["top-ak112-303-CSR.xlsx".to_string(), "macros.sas".to_string()];
    let sdtm = i.sdtm(&specs).unwrap();
    assert_eq!(sdtm.config.len(), 1);
    assert_eq!(r"D:\Studies\ak112\303\stats\CSR", sdtm.root);
    let adam = i.adam(&specs).unwrap();
    assert_eq!(adam.config.len(), 1);
    let tops = i.tfl(&utility).unwrap();
    assert_eq!(tops.config.len(), 1);
    assert_eq!(
        sdtm.config[0],
        r"D:\Studies\ak112\303\documents\specs\AK112-303 SDTM Specification v0.4.xlsx"
    );
    assert_eq!(adam.config[0], r"D:\Studies\ak112\303\documents\specs\AK112-303 ADaM Specification v0.2.xlsx");
    assert_eq!(tops.config[0], r"D:\Studies\ak112\303\stats\CSR\utility\top-ak112-303-CSR.xlsx");
}

#[test]
fn project_dir_below_the_project_and_its_folders() {
    let i = ProjectDirInfer::new(r"\\host\Studies\ak112\303\stats\CSR\product\program").unwrap();
    assert_eq!(i.root(), r"\\host\Studies\ak112\303\stats\CSR");
    assert_eq!(i.study(), r"\\host\Studies\ak112\303");
    assert_eq!(i.documents(), r"\\host\Studies\ak112\303\documents");
    assert_eq!(i.utility(), r"\\host\Studies\ak112\303\stats\CSR\utility");
    assert!(i.filter_files(ConfigFileKind::TOP, &vec!["stop.xlsx".to_string()]).len() == 1);
    assert!(i.filter_files(ConfigFileKind::TOP, &vec!["top.xls".to_string()]).is_empty());
    let j = ProjectDirInfer::new(r"D:\Studies\Studies\a\b\c").unwrap();
    assert_eq!(j.root(), r"D:\Studies\Studies\a\b\c");
}

#[test]
fn project_dir_that_is_none() {
    for p in [
        "",
        r"D:\Projects\ak112\303\stats\CSR",
        r"D:\Studies\ak112\303\stats",
        r"D:\Studies\",
        r"D:\Studies",
        r"Studies\a\b\c",
    ] {
        assert_eq!(ProjectDirInfer::new(p).unwrap_err(), InspectError::InvalidProjectDir);
    }
    assert!(ProjectDirInfer::new(r"Studies\a\b\c\d").is_ok());
}

#[test]
fn project_dir_is_confirmed_only_where_both_directories_exist() {
    let p = r"D:\Studies\ak112\303\stats\CSR";
    let confirmed = ProjectDirInfer::new(p).unwrap().confirmed(true, true).unwrap();
    assert_eq!(confirmed.root(), p);
    assert_eq!(confirmed.study(), r"D:\Studies\ak112\303");
    for (study, project) in [(false, true), (true, false), (false, false)] {
        assert_eq!(
            ProjectDirInfer::new(p).unwrap().confirmed(study, project).unwrap_err(),
            InspectError::InvalidDir
        );
    }
    assert_eq!(InspectError::InvalidDir.message(), "Error: invalid directory");
}

#[test]
fn test_split_filename() {
    let p = r"钉钉办公常用功能小指引-DM-20210930.pdf";
    let result = split_filename(p);
    assert_eq!("pdf", result.1);
    assert_eq!("钉钉办公常用功能小指引-DM-20210930", result.0);
}

#[test]
fn split_filename_at_the_last_dot() {
    assert_eq!(split_filename("a.b.c"), ("a.b".to_string(), "c".to_string()));
    assert_eq!(split_filename(".bashrc"), ("".to_string(), "bashrc".to_string()));
    assert_eq!(split_filename("readme"), ("readme".to_string(), "".to_string()));
    assert_eq!(split_filename(""), ("".to_string(), "".to_string()));
}

#[test]
fn test() {
    let dir = r"D:\网页下载文件\dingtalk\test-lyh";
    let mut r = Inspector::new();
    r.collect(
        dir,
        &vec![
            Listed { file_name: "a.pdf".into(), created_at: 1, modified_at: 5 },
            Listed { file_name: "b.docx".into(), created_at: 2, modified_at: 9 },
        ],
    );
    r.collect(
        r"D:\网页下载文件\dingtalk\test-lyh\sub",
        &vec![
            Listed { file_name: "c".into(), created_at: 3, modified_at: 9 },
            Listed { file_name: "d.tar.gz".into(), created_at: 4, modified_at: 1 },
        ],
    );
    let result = r.status();
    assert!(result.len() > 0);
    let names: Vec<&str> = result.iter().map(|f| f.name.as_str()).collect();
    assert_eq!(names, vec!["b", "c", "a", "d.tar"]);
    assert_eq!(result[0].extention, "docx");
    assert_eq!(result[0].directory, dir);
    assert_eq!(result[1].directory, r"D:\网页下载文件\dingtalk\test-lyh\sub");
    assert_eq!(result[3].created_at, 4);
}

#[test]
fn text_helpers() {
    assert_eq!(text::chars_of("aé"), vec!['a', 'é']);
    assert_eq!(text::concat("a", "b"), "ab");
    assert_eq!(text::concat3("a", "b", "c"), "abc");
    assert!(text::same("a", "a") && !text::same("a", "b"));
    assert!(text::starts_with("abc", "ab") && !text::starts_with("abc", "bc"));
    assert!(text::starts_with("abc", "") && !text::starts_with("a", "ab"));
    assert!(text::ends_with("abc", "bc") && !text::ends_with("abc", "ab"));
    assert!(text::ends_with("abc", "") && !text::ends_with("c", "bc"));
    assert!(text::contains("abc", "b") && text::contains("abc", "") && text::contains("", ""));
    assert!(!text::contains("abc", "d") && !text::contains("", "a") && text::contains("abc", "abc"));
    assert_eq!(text::dashes_to_underscores("a-b-é"), "a_b_é");
    assert_eq!(text::join_path("a", "b"), r"a\b");
    assert_eq!(text::join_path(r"a\", "b"), r"a\b");
    assert_eq!(text::join_path("a/", "b"), "a/b");
    assert_eq!(text::join_path("", "b"), "b");
    assert_eq!(text::split_path(r"a\b/c"), vec!["a", "b", "c"]);
    assert_eq!(text::split_path(r"\\a\\b\"), vec!["a", "b"]);
    assert!(text::split_path("").is_empty());
    assert_eq!(text::trim("  a b\t\n"), "a b");
    assert_eq!(text::trim("\u{3000}\u{a0}"), "");
    assert_eq!(text::trim("a"), "a");
    assert_eq!(text::rfind(&vec!['a', '.', 'b', '.'], '.', 0), Some(3));
    assert_eq!(text::rfind(&vec!['.', 'b'], '.', 1), None);
    assert_eq!(text::find_inner(&vec!['a', 'b', 'a', 'b', 'c'], &vec!['a', 'b']), Some(0));
    assert_eq!(text::find_inner(&vec!['c', 'a', 'b'], &vec!['a', 'b']), None);
    for c in ['\u{9}', ' ', '\u{85}', '\u{1680}', '\u{2000}', '\u{200a}', '\u{2028}', '\u{202f}', '\u{205f}'] {
        assert!(text::char_is_whitespace(c) && c.is_whitespace());
    }
    for c in ['a', '\u{8}', '\u{e}', '\u{200b}', '\u{1f}', '0'] {
        assert!(!text::char_is_whitespace(c) && !c.is_whitespace());
    }
}
