use astgen::cli_types::OutputFormat;
use astgen::output::{format_summary, json_pretty_text, summary_doc, OutputWriter};
use astgen::parsing::json_text;

#[test]
fn test_format_summary_json() {
    let summary = format_summary(5, 2, &OutputFormat::Json);
    let json: serde_json::Value = serde_json::from_str(&summary).unwrap();
    assert_eq!(json["summary"]["files_processed"], 5);
    assert_eq!(json["summary"]["errors"], 2);
    assert_eq!(json["summary"]["total"], 7);
}

#[test]
fn test_format_summary_yaml() {
    let summary = format_summary(3, 1, &OutputFormat::Yaml);
    assert!(summary.contains("files_processed: 3"));
    assert!(summary.contains("errors: 1"));
    assert!(summary.contains("total: 4"));
}

#[test]
fn summary_yaml_is_exact() {
    assert_eq!(
        format_summary(12, 30, &OutputFormat::Yaml),
        "summary:\n  files_processed: 12\n  errors: 30\n  total: 42"
    );
    assert_eq!(
        format_summary(0, 0, &OutputFormat::Yaml),
        "summary:\n  files_processed: 0\n  errors: 0\n  total: 0"
    );
}

#[test]
fn summary_pretty_is_indented_json() {
    let summary = format_summary(5, 2, &OutputFormat::PrettyJson);
    assert!(summary.contains('\n'));
    let json: serde_json::Value = serde_json::from_str(&summary).unwrap();
    assert_eq!(json["summary"]["total"], 7);
    assert_eq!(json_pretty_text(&summary_doc(5, 2)).unwrap(), summary);
    assert_eq!(json_text(&summary_doc(5, 2)).unwrap(), format_summary(5, 2, &OutputFormat::Json));
}

#[test]
fn writer_hands_out_whole_lines_in_order() {
    let mut writer = OutputWriter::new();
    assert_eq!(writer.flush(), "");
    writer.write_result("{\"a\":1}");
    writer.write_result("");
    writer.write_result("x");
    assert_eq!(writer.flush(), "{\"a\":1}\n\nx\n");
    assert_eq!(writer.flush(), "");
    writer.write_result("y");
    assert_eq!(writer.flush(), "y\n");
}
