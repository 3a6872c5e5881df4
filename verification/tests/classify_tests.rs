use outdated_report::classify::{classify, NoticeKind, PackageRecord};

fn rec(name: &str, current: &str, latest: &str) -> PackageRecord {
    PackageRecord {
        name: name.to_string(),
        current_version: current.to_string(),
        latest_version: latest.to_string(),
    }
}

#[test]
fn scenario_mixed_records() {
    let records = vec![
        rec("a", "1.0.0", "2.0.0"),
        rec("b", "1.0.0", "1.0.0"),
        rec("c", "1.2.3", "1.2.4"),
        rec("d", "x.y.z", "1.0.0"),
    ];
    let (result, notices) = classify(&records);
    assert_eq!(result.outdated_major, vec!["a".to_string()]);
    assert_eq!(result.outdated_minor, Vec::<String>::new());
    assert_eq!(result.outdated_patch, vec!["c".to_string()]);
    assert_eq!(result.total_count, 4);
    assert_eq!(notices.len(), 2);
    assert_eq!(notices[0].kind, NoticeKind::UpToDate);
    assert_eq!(notices[0].name, "b");
    assert_eq!(notices[1].kind, NoticeKind::BadCurrentVersion);
    assert_eq!(notices[1].name, "d");
    assert!(!notices[1].detail.is_empty());
}

#[test]
fn bucket_is_most_significant_differing_component() {
    let records = vec![
        rec("wide", "1.0.0", "2.1.1"),
        rec("mid", "1.2.0", "1.3.1"),
        rec("small", "1.2.3", "1.2.4"),
    ];
    let (result, notices) = classify(&records);
    assert_eq!(result.outdated_major, vec!["wide".to_string()]);
    assert_eq!(result.outdated_minor, vec!["mid".to_string()]);
    assert_eq!(result.outdated_patch, vec!["small".to_string()]);
    assert_eq!(result.total_count, 3);
    assert_eq!(notices.len(), 0);
}

#[test]
fn textual_equality_wins_over_parsing() {
    let records = vec![rec("odd", "not-a-version", "not-a-version")];
    let (result, notices) = classify(&records);
    assert!(result.outdated_major.is_empty());
    assert!(result.outdated_minor.is_empty());
    assert!(result.outdated_patch.is_empty());
    assert_eq!(result.total_count, 1);
    assert_eq!(notices.len(), 1);
    assert_eq!(notices[0].kind, NoticeKind::UpToDate);
    assert_eq!(notices[0].name, "odd");
}

#[test]
fn two_component_version_fails_to_parse() {
    let records = vec![rec("short", "1.0", "1.0.0")];
    let (result, notices) = classify(&records);
    assert!(result.outdated_major.is_empty());
    assert!(result.outdated_minor.is_empty());
    assert!(result.outdated_patch.is_empty());
    assert_eq!(result.total_count, 1);
    assert_eq!(notices.len(), 1);
    assert_eq!(notices[0].kind, NoticeKind::BadCurrentVersion);
    assert_eq!(notices[0].name, "short");
}

#[test]
fn semantically_equal_pair_is_silently_unclassified() {
    let records = vec![
        rec("build", "1.2.3", "1.2.3+build1"),
        rec("pre", "1.0.0-alpha", "1.0.0-beta"),
    ];
    let (result, notices) = classify(&records);
    assert!(result.outdated_major.is_empty());
    assert!(result.outdated_minor.is_empty());
    assert!(result.outdated_patch.is_empty());
    assert_eq!(result.total_count, 2);
    assert_eq!(notices.len(), 0);
}

#[test]
fn parse_failure_does_not_abort_later_records() {
    let records = vec![
        rec("bad-latest", "1.0.0", "newest"),
        rec("fine", "1.0.0", "3.0.0"),
        rec("bad-current", "oops", "1.0.0"),
        rec("also-fine", "2.5.0", "2.6.0"),
    ];
    let (result, notices) = classify(&records);
    assert_eq!(result.outdated_major, vec!["fine".to_string()]);
    assert_eq!(result.outdated_minor, vec!["also-fine".to_string()]);
    assert!(result.outdated_patch.is_empty());
    assert_eq!(result.total_count, 4);
    assert_eq!(notices.len(), 2);
    assert_eq!(notices[0].kind, NoticeKind::BadLatestVersion);
    assert_eq!(notices[0].name, "bad-latest");
    assert_eq!(notices[1].kind, NoticeKind::BadCurrentVersion);
    assert_eq!(notices[1].name, "bad-current");
}

#[test]
fn total_count_counts_every_record() {
    let records = vec![
        rec("up-to-date", "0.1.0", "0.1.0"),
        rec("broken", "abc", "0.2.0"),
        rec("old", "0.1.0", "0.2.0"),
    ];
    let (result, _notices) = classify(&records);
    assert_eq!(result.total_count, 3);
    assert_eq!(
        result.outdated_major.len() + result.outdated_minor.len() + result.outdated_patch.len(),
        1
    );
}

#[test]
fn bucket_order_follows_input_order() {
    let records = vec![
        rec("zeta", "1.0.0", "2.0.0"),
        rec("alpha", "3.0.0", "4.0.0"),
        rec("mu", "0.9.0", "5.0.0"),
    ];
    let (result, _notices) = classify(&records);
    assert_eq!(
        result.outdated_major,
        vec!["zeta".to_string(), "alpha".to_string(), "mu".to_string()]
    );
}

#[test]
fn notice_lines_match_the_sink_texts() {
    let records = vec![
        rec("b", "1.0.0", "1.0.0"),
        rec("d", "x.y.z", "1.0.0"),
        rec("e", "1.0.0", "y"),
    ];
    let (_result, notices) = classify(&records);
    assert_eq!(notices.len(), 3);
    assert_eq!(notices[0].to_line(), "Package b is up-to-date. Skipping...");
    let current_line = notices[1].to_line();
    assert!(current_line.starts_with("Error parsing current version for package d: "));
    assert!(current_line.len() > "Error parsing current version for package d: ".len());
    let latest_line = notices[2].to_line();
    assert!(latest_line.starts_with("Error parsing latest version for package e: "));
}

#[test]
fn empty_input_gives_zero_total() {
    let records: Vec<PackageRecord> = Vec::new();
    let (result, notices) = classify(&records);
    assert_eq!(result.total_count, 0);
    assert!(result.outdated_major.is_empty());
    assert!(result.outdated_minor.is_empty());
    assert!(result.outdated_patch.is_empty());
    assert!(notices.is_empty());
}
