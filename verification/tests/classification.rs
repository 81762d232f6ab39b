use report_manifest::category::{Category, ResultKind};
use report_manifest::error::Error;
use report_manifest::layout::{crate_dir, crates_dir, CRATES, MANIFEST, ROOT};
use report_manifest::outcome::{builds, needs_report, BuildResult};
use report_manifest::text::str_eq;

const ALL: [(&str, Category, ResultKind); 10] = [
    ("fixed", Category::Fixed, ResultKind::Success),
    ("test-pass", Category::TestPass, ResultKind::Success),
    ("spurious-fixed", Category::SpuriousFixed, ResultKind::Success),
    ("broken", Category::Broken, ResultKind::BuildFail),
    ("build-fail", Category::BuildFail, ResultKind::BuildFail),
    ("error", Category::Error, ResultKind::BuildFail),
    ("regressed", Category::Regressed, ResultKind::BuildFail),
    ("spurious-regressed", Category::SpuriousRegressed, ResultKind::BuildFail),
    ("test-fail", Category::TestFail, ResultKind::TestFail),
    ("test-skipped", Category::TestSkipped, ResultKind::TestSkipped),
];

#[test]
fn every_name_is_recognized_as_its_category() {
    for (name, category, _) in ALL {
        assert_eq!(Category::from_name(name), Some(category));
    }
}

#[test]
fn every_category_gives_its_name_back() {
    for (name, category, _) in ALL {
        assert_eq!(category.as_str(), name);
        assert_eq!(Category::from_name(category.as_str()), Some(category));
    }
}

#[test]
fn every_category_has_its_kind() {
    for (_, category, kind) in ALL {
        assert_eq!(category.kind(), kind);
    }
}

#[test]
fn names_outside_the_ten_are_not_recognized() {
    for name in ["", "Fixed", "fixed ", "test_pass", "testpass", "unknown", "reg", "fixe", "fixedd"] {
        assert_eq!(Category::from_name(name), None);
    }
}

#[test]
fn success_categories_need_no_report() {
    assert!(!needs_report("fixed"));
    assert!(!needs_report("test-pass"));
    assert!(!needs_report("spurious-fixed"));
}

#[test]
fn every_other_name_needs_a_report() {
    for name in [
        "broken",
        "build-fail",
        "error",
        "regressed",
        "spurious-regressed",
        "test-fail",
        "test-skipped",
        "bogus",
        "",
    ] {
        assert!(needs_report(name));
    }
}

#[test]
fn success_categories_are_a_success_whatever_was_found() {
    for name in ["fixed", "test-pass", "spurious-fixed"] {
        assert_eq!(builds(name, "foo", None), Ok(BuildResult::Success));
        assert_eq!(builds(name, "foo", Some(String::from("ignored"))), Ok(BuildResult::Success));
        assert_eq!(builds(name, "", Some(String::new())), Ok(BuildResult::Success));
    }
}

#[test]
fn fixed_crate_with_an_empty_directory_is_a_success() {
    assert!(!needs_report("fixed"));
    assert_eq!(builds("fixed", "foo", None), Ok(BuildResult::Success));
}

#[test]
fn build_failure_categories_carry_the_report() {
    for name in ["broken", "build-fail", "error", "regressed", "spurious-regressed"] {
        let text = format!("error[E0308]: mismatched types in {name}\n");
        assert_eq!(
            builds(name, "foo", Some(text.clone())),
            Ok(BuildResult::BuildFail { output: text })
        );
    }
}

#[test]
fn test_fail_carries_the_report() {
    assert_eq!(
        builds("test-fail", "bar", Some(String::from("panic at line 4"))),
        Ok(BuildResult::TestFail { output: String::from("panic at line 4") })
    );
}

#[test]
fn test_skipped_carries_the_report() {
    assert_eq!(
        builds("test-skipped", "bar", Some(String::from("skipped: no tests"))),
        Ok(BuildResult::TestSkipped { output: String::from("skipped: no tests") })
    );
}

#[test]
fn report_text_is_kept_byte_for_byte() {
    let text = String::from("  tabs\tand\r\nnewlines \u{1F950} caf\u{e9}\0 \n");
    match builds("error", "foo", Some(text.clone())) {
        Ok(BuildResult::BuildFail { output }) => assert_eq!(output.as_bytes(), text.as_bytes()),
        other => panic!("unexpected result {other:?}"),
    }
}

#[test]
fn empty_report_is_kept_empty() {
    assert_eq!(
        builds("test-fail", "foo", Some(String::new())),
        Ok(BuildResult::TestFail { output: String::new() })
    );
}

#[test]
fn unrecognized_category_is_rejected_by_name() {
    assert_eq!(
        builds("flaky", "foo", Some(String::from("whatever"))),
        Err(Error::InvalidCategory { category: String::from("flaky") })
    );
    assert_eq!(
        builds("", "foo", Some(String::new())),
        Err(Error::InvalidCategory { category: String::new() })
    );
}

#[test]
fn crate_without_a_version_is_rejected_under_every_other_name() {
    for name in [
        "broken",
        "build-fail",
        "error",
        "regressed",
        "spurious-regressed",
        "test-fail",
        "test-skipped",
        "flaky",
        "",
    ] {
        let result = builds(name, "foo", None);
        assert_eq!(
            result,
            Err(Error::NoVersionFound { category: String::from(name), krate: String::from("foo") })
        );
        assert_eq!(result.unwrap_err().message(), "no version found");
    }
}

#[test]
fn classification_keeps_nothing_from_an_earlier_call() {
    let fail = Ok(BuildResult::BuildFail { output: String::from("boom") });

    let first = builds("fixed", "baz", None);
    let second = builds("build-fail", "baz", Some(String::from("boom")));
    assert_eq!(first, Ok(BuildResult::Success));
    assert_eq!(second, fail);

    let first = builds("build-fail", "baz", Some(String::from("boom")));
    let second = builds("fixed", "baz", None);
    assert_eq!(first, fail);
    assert_eq!(second, Ok(BuildResult::Success));
}

#[test]
fn results_report_their_kind() {
    assert_eq!(BuildResult::Success.kind(), ResultKind::Success);
    assert_eq!(BuildResult::TestFail { output: String::new() }.kind(), ResultKind::TestFail);
    assert_eq!(BuildResult::TestSkipped { output: String::new() }.kind(), ResultKind::TestSkipped);
    assert_eq!(BuildResult::BuildFail { output: String::new() }.kind(), ResultKind::BuildFail);
}

#[test]
fn error_messages() {
    assert_eq!(Error::CategoryNotText.message(), "category name is invalid utf8");
    assert_eq!(
        Error::CrateNotText { category: String::from("fixed") }.message(),
        "crate_name is invalid utf8"
    );
    assert_eq!(
        Error::NoVersionFound { category: String::from("error"), krate: String::from("foo") }
            .message(),
        "no version found"
    );
    assert_eq!(
        Error::InvalidCategory { category: String::from("flaky") }.message(),
        "invalid directory type: flaky"
    );
    assert_eq!(Error::UnexpectedEvent.message(), "event does not fit the state of the walk");
}

#[test]
fn strings_compare_by_their_characters() {
    assert!(str_eq("", ""));
    assert!(str_eq("fixed", "fixed"));
    assert!(str_eq("caf\u{e9} \u{1F950}", "caf\u{e9} \u{1F950}"));
    assert!(!str_eq("fixed", "fixes"));
    assert!(!str_eq("fixed", "fixe"));
    assert!(!str_eq("fixe", "fixed"));
    assert!(!str_eq("", "a"));
    assert!(!str_eq("caf\u{e9}", "cafe\u{301}"));
    assert!(!str_eq("Fixed", "fixed"));
}

#[test]
fn layout_of_the_report_tree() {
    assert_eq!(ROOT, "report");
    assert_eq!(CRATES, "reg");
    assert_eq!(MANIFEST, "output.json");
    assert_eq!(crates_dir("test-fail"), vec!["report", "test-fail", "reg"]);
    assert_eq!(crate_dir("test-fail", "bar"), vec!["report", "test-fail", "reg", "bar"]);
    assert_eq!(crate_dir("", ""), vec!["report", "", "reg", ""]);
}
