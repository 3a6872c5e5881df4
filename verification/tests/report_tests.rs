use outdated_report::classify::{classify, ClassificationResult, PackageRecord};
use outdated_report::report::{render, EmptyReportError};

fn rec(name: &str, current: &str, latest: &str) -> PackageRecord {
    PackageRecord {
        name: name.to_string(),
        current_version: current.to_string(),
        latest_version: latest.to_string(),
    }
}

#[test]
fn renders_the_fixed_width_table() {
    let records = vec![
        rec("a", "1.0.0", "2.0.0"),
        rec("b", "1.0.0", "1.0.0"),
        rec("c", "1.2.3", "1.2.4"),
        rec("d", "x.y.z", "1.0.0"),
    ];
    let (result, _notices) = classify(&records);
    let table = render(&result).unwrap();
    let expected = "         | count |  % \n----------------------\n   major |     1 | 25 \n   minor |     0 |  0 \n   patch |     1 | 25 \n----------------------\n overall |     4 | 50 \n";
    assert_eq!(table, expected);
}

#[test]
fn overall_row_reaches_one_hundred_percent() {
    let records = vec![
        rec("a", "1.0.0", "2.0.0"),
        rec("b", "1.0.0", "1.1.0"),
        rec("c", "1.0.0", "1.0.1"),
    ];
    let (result, _notices) = classify(&records);
    let table = render(&result).unwrap();
    let expected = "         | count |  % \n----------------------\n   major |     1 | 33 \n   minor |     1 | 33 \n   patch |     1 | 33 \n----------------------\n overall |     3 | 100\n";
    assert_eq!(table, expected);
}

#[test]
fn percentages_round_to_nearest_with_halves_up() {
    let result = ClassificationResult {
        outdated_major: vec!["one".to_string()],
        outdated_minor: Vec::new(),
        outdated_patch: Vec::new(),
        total_count: 8,
    };
    let table = render(&result).unwrap();
    let expected = "         | count |  % \n----------------------\n   major |     1 | 13 \n   minor |     0 |  0 \n   patch |     0 |  0 \n----------------------\n overall |     8 | 13 \n";
    assert_eq!(table, expected);
}

#[test]
fn empty_report_is_refused() {
    let records: Vec<PackageRecord> = Vec::new();
    let (result, _notices) = classify(&records);
    assert_eq!(render(&result), Err(EmptyReportError));
}

#[test]
fn classify_and_render_twice_give_identical_bytes() {
    let records = vec![
        rec("a", "1.0.0", "2.0.0"),
        rec("b", "1.0.0", "1.0.0"),
        rec("c", "1.2.3", "1.2.4"),
        rec("d", "x.y.z", "1.0.0"),
    ];
    let (first, _) = classify(&records);
    let (second, _) = classify(&records);
    let once = render(&first).unwrap();
    let twice = render(&second).unwrap();
    assert_eq!(once.as_bytes(), twice.as_bytes());
}
