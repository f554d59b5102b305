use shell_commander::{
    filter_templates, ignore_url, split_lines, welcome_msg, welcome_with_date, Timestamp,
};

fn strings(v: &[&str]) -> Vec<String> {
    v.iter().map(|s| s.to_string()).collect()
}

#[test]
fn ignore_url_joins_templates() {
    let base = "https://www.toptal.com/developers/gitignore/api/";
    assert_eq!(ignore_url(base, &vec![]), None);
    assert_eq!(ignore_url(base, &strings(&["rust"])).unwrap(), format!("{base}rust"));
    assert_eq!(
        ignore_url(base, &strings(&["rust", "visualstudio", "macos"])).unwrap(),
        format!("{base}rust,visualstudio,macos")
    );
}

#[test]
fn lines_split_like_std() {
    for text in ["", "a", "a\n", "a\nb", "a\r\nb\r\n", "\n\nx", "foo\nbar\n\r\nbaz\r", "\r", "x\r\r\n"] {
        let expected: Vec<String> = text.lines().map(|l| l.to_string()).collect();
        assert_eq!(split_lines(text), expected, "text {text:?}");
    }
}

#[test]
fn templates_filtered_by_name() {
    let lines = split_lines("rust\nrust-analyzer\npython\ntrustme\n");
    assert_eq!(filter_templates(&lines, &None), strings(&["rust", "rust-analyzer", "python", "trustme"]));
    assert_eq!(
        filter_templates(&lines, &Some("rust".into())),
        strings(&["rust", "rust-analyzer", "trustme"])
    );
    assert_eq!(filter_templates(&lines, &Some("go".into())), Vec::<String>::new());
    assert_eq!(filter_templates(&lines, &Some("".into())).len(), 4);
}

#[test]
fn greeting_colors_name_and_date() {
    assert_eq!(
        welcome_with_date("Ada", "Monday, March 04, 2024"),
        "Welcome \x1b[35;1mAda\x1b[0m!\nToday is \x1b[32mMonday, March 04, 2024\x1b[0m.\n\n"
    );
}

#[test]
fn greeting_writes_the_date_out() {
    let day = Timestamp { year: 2024, month: 3, day: 4, hour: 12, minute: 0, second: 0 };
    assert_eq!(
        welcome_msg("Ada", &day),
        "Welcome \x1b[35;1mAda\x1b[0m!\nToday is \x1b[32mMonday, March 04, 2024\x1b[0m.\n\n"
    );
    let leap = Timestamp { year: 2000, month: 2, day: 29, hour: 0, minute: 0, second: 0 };
    assert_eq!(
        welcome_msg("x", &leap),
        "Welcome \x1b[35;1mx\x1b[0m!\nToday is \x1b[32mTuesday, February 29, 2000\x1b[0m.\n\n"
    );
}
