use reports_filter::pipeline::{
    capped_sample_size, commit_for_repo, output_file_name, report_text, sample_reports, sampled_reports, MAX_SAMPLE,
};
use reports_filter::text::{after_first_of, decimal_string, join, labeled, last_split_piece_of};

#[test]
fn commits_of_benchmark_projects() {
    assert_eq!(commit_for_repo("jsoup"), Some("acafbcf3cb71ea0a04188c8f6257e3d395fa7c36".to_string()));
    assert_eq!(commit_for_repo("OpenOLAT"), Some("df53b85db5c27935e7467b9d39eaac7aebf50d4a".to_string()));
    assert_eq!(commit_for_repo("bitlbee"), Some("8af06ca5362445ff6379aca028b79c607ed77f90".to_string()));
    assert_eq!(commit_for_repo("ImageMagick"), Some("3bf1076d748a5ec40073685ce71ca9222cf0b00c".to_string()));
}

#[test]
fn unknown_project_has_no_commit() {
    assert_eq!(commit_for_repo("imagemagick"), None);
    assert_eq!(commit_for_repo(""), None);
    assert_eq!(commit_for_repo("jsoup/"), None);
}

#[test]
fn sample_size_is_capped() {
    assert_eq!(MAX_SAMPLE, 300);
    assert_eq!(capped_sample_size(0), 0);
    assert_eq!(capped_sample_size(299), 299);
    assert_eq!(capped_sample_size(300), 300);
    assert_eq!(capped_sample_size(1200), 300);
}

#[test]
fn report_text_joins_lines() {
    let report = vec!["Rule ID: a".to_string(), "Message: b".to_string()];
    assert_eq!(report_text(&report), "Rule ID: a\nMessage: b");
    assert_eq!(report_text(&vec![]), "");
}

#[test]
fn output_file_names() {
    assert_eq!(output_file_name("report"), "validated_v3_report.json");
    assert_eq!(output_file_name(""), "validated_v3_.json");
}

#[test]
fn decimal_numerals() {
    assert_eq!(decimal_string(0), "0");
    assert_eq!(decimal_string(7), "7");
    assert_eq!(decimal_string(10), "10");
    assert_eq!(decimal_string(1234567890), "1234567890");
    assert_eq!(decimal_string(u64::MAX), u64::MAX.to_string());
}

#[test]
fn joining_and_labelling() {
    let items = vec!["a".to_string(), "b".to_string(), "c".to_string()];
    assert_eq!(join(&items, "; "), "a; b; c");
    assert_eq!(join(&vec!["x".to_string()], "; "), "x");
    assert_eq!(join(&vec![], "; "), "");
    assert_eq!(labeled("Key: ", "value"), "Key: value");
}

#[test]
fn splitting_like_str_split() {
    for s in ["a--b--c", "--", "a---b", "abc", "", "----"] {
        assert_eq!(last_split_piece_of(s, "--"), s.split("--").last().unwrap_or(""));
        assert_eq!(after_first_of(s, '-'), s.split('-').skip(1).collect::<Vec<&str>>().join("-"));
    }
    assert_eq!(last_split_piece_of("héllo wörld", "ö"), "rld");
}

fn reports(n: usize) -> Vec<Vec<String>> {
    (0..n).map(|i| vec![format!("Rule ID: {i}"), "Message: m".to_string()]).collect()
}

#[test]
fn sampled_reports_follow_the_sample() {
    let data = reports(5);
    let picked = sampled_reports(&data, &vec![3, 0]);
    assert_eq!(picked, vec![(3, "Rule ID: 3\nMessage: m".to_string()), (0, "Rule ID: 0\nMessage: m".to_string())]);
}

#[test]
fn samples_are_distinct_and_capped() {
    let data = reports(400);
    let picked = sample_reports(&data, 1000);
    assert_eq!(picked.len(), 300);
    let mut seen = std::collections::HashSet::new();
    for (idx, text) in picked.iter() {
        assert!(*idx < 400);
        assert!(seen.insert(*idx));
        assert_eq!(*text, report_text(&data[*idx]));
    }
    assert_eq!(sample_reports(&data, 7).len(), 7);
    assert_eq!(sample_reports(&reports(3), 10).len(), 3);
    assert_eq!(sample_reports(&reports(0), 10).len(), 0);
}
