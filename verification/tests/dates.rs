use chronicle::date::ReportDate;

#[test]
fn date_gives_dotted_file_name_and_dashed_form() {
    let date = ReportDate::parse("2024-03-05").unwrap();
    assert_eq!(date.file_name(), "2024.03.05.md");
    assert_eq!(date.dotted(), "2024.03.05");
    assert_eq!(date.dashed(), "2024-03-05");
}

#[test]
fn parts_of_a_date_are_read() {
    let date = ReportDate::parse("1999-12-31").unwrap();
    assert_eq!(date.year(), 1999);
    assert_eq!(date.month(), 12);
    assert_eq!(date.day(), 31);
}

#[test]
fn dashed_form_reads_back_as_the_same_date() {
    for text in ["0000-01-01", "0001-02-03", "2024-02-29", "2000-02-29", "9999-12-31", "2023-10-09"] {
        let date = ReportDate::parse(text).unwrap();
        assert_eq!(date.dashed(), text);
        assert_eq!(ReportDate::parse(&date.dashed()), Some(date));
        assert_eq!(date.dotted(), text.replace('-', "."));
    }
}

#[test]
fn days_that_the_calendar_lacks_are_refused() {
    for text in [
        "2024-02-30",
        "2023-02-29",
        "1900-02-29",
        "2100-02-29",
        "2024-04-31",
        "2024-06-31",
        "2024-09-31",
        "2024-11-31",
        "2024-01-32",
        "2024-13-01",
        "2024-00-10",
        "2024-01-00",
    ] {
        assert!(ReportDate::parse(text).is_none(), "{}", text);
    }
}

#[test]
fn last_days_of_months_are_accepted() {
    for text in [
        "2024-01-31",
        "2023-02-28",
        "2024-02-29",
        "2024-03-31",
        "2024-04-30",
        "2024-05-31",
        "2024-06-30",
        "2024-07-31",
        "2024-08-31",
        "2024-09-30",
        "2024-10-31",
        "2024-11-30",
        "2024-12-31",
    ] {
        assert!(ReportDate::parse(text).is_some(), "{}", text);
    }
}

#[test]
fn texts_of_another_shape_are_refused() {
    for text in [
        "",
        "2024",
        "2024-3-5",
        "2024-03-5",
        "24-03-05",
        "2024/03/05",
        "2024.03.05",
        "2024-03-05 ",
        " 2024-03-05",
        "2024-03-050",
        "abcd-03-05",
        "2024-0a-05",
        "2024-03-0x",
        "+024-03-05",
        "２０２４-03-05",
        "2024-03-05\n",
        "../../x.md",
    ] {
        assert!(ReportDate::parse(text).is_none(), "{:?}", text);
    }
}
