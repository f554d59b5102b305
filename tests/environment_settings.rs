use shell_commander::{get_env, reset_env, set_env, Environment, Setting, SettingSelection};

fn none() -> SettingSelection {
    SettingSelection {
        git_name: false,
        git_email: false,
        git_dir: false,
        git_ignore_url: false,
        conn_str: false,
        google_search_api_key: false,
        google_search_engine_id: false,
    }
}

fn m(label: &str) -> String {
    format!("\x1b[35m{label}\x1b[0m")
}

#[test]
fn defaults_are_fixed() {
    let e = Environment::with_defaults("db.sqlite".into());
    assert_eq!(e.git_name, "User");
    assert_eq!(e.git_email, "user.name@email.com");
    assert_eq!(e.git_dir, "~/Code");
    assert_eq!(e.git_ignore_url, "https://www.toptal.com/developers/gitignore/api/");
    assert_eq!(e.conn_str, "db.sqlite");
    assert_eq!(e.google_search_api_key, "google_search_api_key");
    assert_eq!(e.google_search_engine_id, "google_search_engine_id");
}

#[test]
fn get_lists_selected_or_all() {
    let e = Environment::with_defaults("db".into());
    let sel = SettingSelection { git_email: true, conn_str: true, ..none() };
    assert_eq!(
        get_env(&e, &sel),
        format!("{}: user.name@email.com\n{}: db\n", m("Git Email"), m("Connection String"))
    );
    let all = get_env(&e, &none());
    assert_eq!(all.lines().count(), 7);
    assert!(all.starts_with(&format!("{}: User\n", m("Git User Name"))));
    assert!(all.ends_with(&format!("{}: google_search_engine_id\n", m("Google Search Engine ID"))));
}

#[test]
fn set_updates_and_reports() {
    let mut e = Environment::with_defaults("db".into());
    let report = set_env(
        &mut e,
        &vec![(Setting::GitName, "Ada".into()), (Setting::GoogleSearchApiKey, "K".into())],
    );
    assert_eq!(e.git_name, "Ada");
    assert_eq!(e.google_search_api_key, "K");
    assert_eq!(e.google_search_engine_id, "google_search_engine_id");
    assert_eq!(
        report,
        format!(
            "Setting {0} to: Ada\n{0} set to: Ada\nSetting {1} to: K\n{1} set to: K\n",
            m("Git User Name"),
            m("Google Search API Key")
        )
    );
}

#[test]
fn reset_only_named() {
    let defaults = Environment::with_defaults("db".into());
    let mut e = defaults.clone();
    set_env(&mut e, &vec![(Setting::GitName, "Ada".into()), (Setting::GitDir, "/src".into())]);
    reset_env(&mut e, &defaults, &SettingSelection { git_dir: true, ..none() });
    assert_eq!(e.git_name, "Ada");
    assert_eq!(e.git_dir, "~/Code");
    reset_env(&mut e, &defaults, &none());
    assert_eq!(e.git_name, "Ada");
    reset_env(&mut e, &defaults, &SettingSelection { git_name: true, ..none() });
    assert_eq!(e.git_name, "User");
}
