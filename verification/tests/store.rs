use chronicle::store::{
    preferred_report_dir, resolve_output_dir, OutputDir, DEFAULT_APP_DIRECTORY,
    DEFAULT_REPORT_DIRECTORY, PREFERENCE_KEY,
};

#[test]
fn preference_file_names_the_report_directory() {
    let text = "{\n  \"report_dir\": \"/data/reports\"\n}";
    assert_eq!(preferred_report_dir(text).as_deref(), Some("/data/reports"));
}

#[test]
fn preference_is_read_among_other_members() {
    let text = "{\"theme\":\"dark\",\"report_dir\":\"C:\\\\Users\\\\a\\\\日报\",\"n\":1}";
    assert_eq!(preferred_report_dir(text).as_deref(), Some("C:\\Users\\a\\日报"));
}

#[test]
fn escapes_in_the_preference_are_resolved() {
    let text = "{\"report_dir\":\"\\u65e5\\u62a5\\/x\"}";
    assert_eq!(preferred_report_dir(text).as_deref(), Some("日报/x"));
}

#[test]
fn preference_files_without_a_directory_name_none() {
    for text in [
        "",
        "{}",
        "null",
        "[]",
        "\"/data/reports\"",
        "{\"report_dir\":null}",
        "{\"report_dir\":7}",
        "{\"report_dir\":[\"/data\"]}",
        "{\"report_dir\":{\"path\":\"/data\"}}",
        "{\"Report_Dir\":\"/data\"}",
        "{\"report_dir\":\"/data\"",
        "{\"report_dir\":\"/data\"} trailing",
        "{report_dir:\"/data\"}",
    ] {
        assert_eq!(preferred_report_dir(text), None, "{:?}", text);
    }
}

#[test]
fn empty_preference_is_still_a_preference() {
    assert_eq!(preferred_report_dir("{\"report_dir\":\"\"}").as_deref(), Some(""));
}

#[test]
fn usable_preference_wins() {
    assert_eq!(
        resolve_output_dir(Some("/data/reports"), true, Some("/home/a/Documents")),
        Some(OutputDir::Preferred { path: "/data/reports".to_string() })
    );
    assert_eq!(
        resolve_output_dir(Some("/data/reports"), true, None),
        Some(OutputDir::Preferred { path: "/data/reports".to_string() })
    );
}

#[test]
fn unusable_preference_falls_back_to_the_default() {
    assert_eq!(
        resolve_output_dir(Some("/data/reports"), false, Some("/home/a/Documents")),
        Some(OutputDir::Default { documents: "/home/a/Documents".to_string() })
    );
}

#[test]
fn missing_preference_falls_back_to_the_default() {
    assert_eq!(
        resolve_output_dir(None, false, Some("/home/a/Documents")),
        Some(OutputDir::Default { documents: "/home/a/Documents".to_string() })
    );
    assert_eq!(
        resolve_output_dir(None, true, Some("/home/a/Documents")),
        Some(OutputDir::Default { documents: "/home/a/Documents".to_string() })
    );
}

#[test]
fn no_directory_where_neither_can_be_had() {
    assert_eq!(resolve_output_dir(None, false, None), None);
    assert_eq!(resolve_output_dir(None, true, None), None);
    assert_eq!(resolve_output_dir(Some("/data/reports"), false, None), None);
}

#[test]
fn default_directory_lies_below_the_application_directory() {
    assert_eq!(PREFERENCE_KEY, "report_dir");
    assert_eq!(DEFAULT_APP_DIRECTORY, "Chronicle");
    assert_eq!(DEFAULT_REPORT_DIRECTORY, "日报");
}
