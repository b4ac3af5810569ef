use worker_supervisor::settings::Settings;
use worker_supervisor::strutil::{fmt_i64, fmt_u64, is_blank, trim_ws};
use worker_supervisor::types::{ModelInputType, ModelMetaShort, ModelOutputType};

#[test]
fn trim_strips_both_ends() {
    assert_eq!(trim_ws("  boom occurred \n"), "boom occurred");
    assert_eq!(trim_ws("no-edges"), "no-edges");
    assert_eq!(trim_ws("\t\r\n"), "");
    assert_eq!(trim_ws(""), "");
    assert_eq!(trim_ws(" inner  space "), "inner  space");
}

#[test]
fn blankness_of_captured_text() {
    assert!(is_blank(""));
    assert!(is_blank(" \t\r\n"));
    assert!(!is_blank(" x "));
}

#[test]
fn decimal_rendering_unsigned() {
    assert_eq!(fmt_u64(0), "0");
    assert_eq!(fmt_u64(7), "7");
    assert_eq!(fmt_u64(10), "10");
    assert_eq!(fmt_u64(12345), "12345");
    assert_eq!(fmt_u64(u64::MAX), "18446744073709551615");
}

#[test]
fn decimal_rendering_signed() {
    assert_eq!(fmt_i64(0), "0");
    assert_eq!(fmt_i64(-1), "-1");
    assert_eq!(fmt_i64(137), "137");
    assert_eq!(fmt_i64(i64::MIN), "-9223372036854775808");
}

#[test]
fn default_settings_have_no_projects_directory() {
    let s = Settings::default();
    assert_eq!(s.projects_directory, "");
}

#[test]
fn metadata_types_hold_plain_values() {
    let short = ModelMetaShort {
        project_name: String::from("demo"),
        model_id: String::from("m-1"),
        model_name: String::from("Demo"),
        description: String::from("a demo model"),
        description_short: String::from("demo"),
        tags: None,
    };
    assert_eq!(short.project_name, "demo");
    assert_eq!(short.model_id, "m-1");
    assert_eq!(ModelInputType::Float, ModelInputType::Float);
    assert!(ModelOutputType::Int != ModelOutputType::Boolean);
}
