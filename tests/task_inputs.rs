use shell_commander::tasks::parse_i32;
use shell_commander::{
    parent_validator, parse_yes_no, task_duration_validator, task_status_utf8,
    task_string_validator, TaskStatus,
};

#[test]
fn parse_matches_std() {
    for t in [
        "0", "7", "-7", "+7", "365", "-0", "+", "-", "", "12a", "a12", " 1", "1 ", "--1", "+-1",
        "2147483647", "2147483648", "-2147483648", "-2147483649", "00042", "99999999999999999999",
        "-99999999999999999999",
    ] {
        assert_eq!(parse_i32(t), t.parse::<i32>().ok(), "text {t:?}");
    }
}

#[test]
fn duration_limits() {
    assert_eq!(task_duration_validator("0"), Ok(0));
    assert_eq!(task_duration_validator("365"), Ok(365));
    assert_eq!(task_duration_validator("366"), Err("Duration must be less than 365 days".to_string()));
    assert_eq!(task_duration_validator("-1"), Err("Duration must be a positive integer".to_string()));
    assert_eq!(task_duration_validator("x"), Err("Duration must be an integer".to_string()));
}

#[test]
fn task_string_length_in_bytes() {
    assert!(task_string_validator("ab").is_err());
    assert_eq!(task_string_validator("abc"), Ok("abc".to_string()));
    assert!(task_string_validator(&"a".repeat(80)).is_ok());
    assert!(task_string_validator(&"a".repeat(81)).is_err());
    assert!(task_string_validator("éa").is_ok());
}

#[test]
fn parent_must_exist() {
    let ids = vec![1, 4];
    assert_eq!(parent_validator("4", &ids), Ok(4));
    assert!(parent_validator("2", &ids).is_err());
    assert!(parent_validator("-1", &ids).is_err());
    assert!(parent_validator("four", &ids).is_err());
}

#[test]
fn yes_no_replies() {
    assert_eq!(parse_yes_no("y\n"), Some(true));
    assert_eq!(parse_yes_no("  N "), Some(false));
    assert_eq!(parse_yes_no("Y"), Some(true));
    assert_eq!(parse_yes_no("yes"), None);
    assert_eq!(parse_yes_no(""), None);
}

#[test]
fn status_codes_and_symbols() {
    assert_eq!(TaskStatus::from(0), TaskStatus::InProgress);
    assert_eq!(TaskStatus::from(1), TaskStatus::Complete);
    assert_eq!(TaskStatus::from(2), TaskStatus::Incomplete);
    assert_eq!(TaskStatus::from(9), TaskStatus::Incomplete);
    assert_eq!(TaskStatus::Complete.code(), 1);
    assert_eq!(TaskStatus::InProgress.name(), "In Progress");
    assert_eq!(task_status_utf8(&TaskStatus::Complete), "✅");
    assert_eq!(task_status_utf8(&TaskStatus::InProgress), "⏳");
    assert_eq!(task_status_utf8(&TaskStatus::Incomplete), "❎");
}
