use shell_commander::clone_target;
use shell_commander::colors::color_lookup;
use shell_commander::{
    apply_color, contains_task_id, expand_home, expand_sanitized_home, get_task_max_id,
    query_string_builder, sanitize_path, sanitize_pathbuf, Colorize, SearchParams,
};

fn arg<'a>(p: &'a SearchParams, key: &str) -> Option<&'a str> {
    p.args.iter().find(|(k, _)| k == key).map(|(_, v)| v.as_str())
}

#[test]
fn colors_wrap_text() {
    assert_eq!(apply_color("red", "hi"), "\x1b[31mhi\x1b[0m");
    assert_eq!(apply_color("cyan_bright", "x"), "\x1b[36;1mx\x1b[0m");
    assert_eq!(apply_color("purple", "hi"), "hi");
    assert_eq!("hi".green(), "\x1b[32mhi\x1b[0m");
    assert_eq!(String::from("hi").white(), "\x1b[37mhi\x1b[0m");
    assert_eq!("".black(), "\x1b[30m\x1b[0m");
    assert_eq!(color_lookup("reset"), Some("\x1b[0m"));
    assert_eq!(color_lookup("Red"), None);
}

#[test]
fn search_params_defaults_and_query() {
    let p = SearchParams::new(&"rust verus".to_string());
    assert_eq!(p.url, "https://www.google.com/search");
    assert_eq!(arg(&p, "hl"), Some("en"));
    assert_eq!(arg(&p, "gl"), Some("us"));
    assert_eq!(arg(&p, "lr"), Some("lang_en"));
    assert_eq!(arg(&p, "cr"), Some("countryUS"));
    assert_eq!(arg(&p, "q"), Some("rust verus"));
    assert_eq!(p.args.len(), 5);
}

#[test]
fn search_params_json_adds_api_data_once() {
    let mut p = SearchParams::new_json(&"q1".to_string(), "K", "E");
    assert_eq!(arg(&p, "key"), Some("K"));
    assert_eq!(arg(&p, "cx"), Some("E"));
    assert_eq!(p.args.len(), 7);
    p.add_api_data("K2", "E2");
    assert_eq!(arg(&p, "key"), Some("K2"));
    assert_eq!(arg(&p, "cx"), Some("E2"));
    assert_eq!(p.args.len(), 7);
    p.set_arg("q", "q2");
    assert_eq!(arg(&p, "q"), Some("q2"));
    assert_eq!(p.args.len(), 7);
}

#[test]
fn query_string_with_operators() {
    assert_eq!(query_string_builder("verus", &None, &None), "verus");
    assert_eq!(
        query_string_builder("verus", &Some("github.com".into()), &Some("proof".into())),
        "verus site:github.com allintext:proof"
    );
    assert_eq!(query_string_builder("v", &None, &Some("a b".into())), "v allintext:a b");
}

#[test]
fn paths_are_sanitized_and_expanded() {
    assert_eq!(sanitize_path("C:\\Users\\me\\Code"), "C:/Users/me/Code");
    assert_eq!(sanitize_pathbuf("a\\b/c".to_string()), "a/b/c");
    assert_eq!(expand_home("~/Code", "/home/me"), "/home/me/Code");
    assert_eq!(expand_home("~", "/home/me"), "/home/me/");
    assert_eq!(expand_home("~/Code", "/home/me/"), "/home/me/Code");
    assert_eq!(expand_home("~//a/./b//", "/home/me"), "/home/me/a/b");
    assert_eq!(expand_home("~/./../x", "/h"), "/h/../x");
    assert_eq!(expand_home("~/a", ""), "a");
    assert_eq!(expand_home("/tmp/x", "/home/me"), "");
    assert_eq!(expand_home("~user/x", "/home/me"), "");
    assert_eq!(expand_sanitized_home("~/a\\b", "C:\\home"), "C:/home/a/b");
}

#[test]
fn task_ids() {
    assert_eq!(get_task_max_id(&vec![]), 0);
    assert_eq!(get_task_max_id(&vec![1, 2, 7]), 7);
    assert_eq!(get_task_max_id(&vec![3, 1]), 3);
    assert_eq!(get_task_max_id(&vec![-4, -2]), -2);
    assert!(contains_task_id(&vec![1, 2, 7], 2));
    assert!(!contains_task_id(&vec![1, 2, 7], 3));
    assert!(!contains_task_id(&vec![], 0));
}

#[test]
fn clone_targets() {
    let url = "https://github.com/rust-lang/git2-rs.git";
    assert_eq!(clone_target(url, &None, "~/Code", "/home/me").unwrap(), "/home/me/Code/rust-lang/git2-rs");
    assert_eq!(clone_target(url, &Some("/tmp/x".into()), "~/Code", "/home/me").unwrap(), "/tmp/x/git2-rs");
    assert_eq!(clone_target(url, &None, "/srv/code/", "/home/me").unwrap(), "/srv/code/rust-lang/git2-rs");
    assert_eq!(clone_target("https://host/o/a.gitx.git", &None, "/c", "/h").unwrap(), "/c/o/ax");
    assert_eq!(clone_target("~\\tree", &None, "~", "C:\\h"), None);
    assert_eq!(clone_target("plain", &None, "/c", "/h"), None);
    assert_eq!(clone_target("o/r", &None, "", "/h").unwrap(), "o/r");
}

fn expand_with_std(path: &str, home: &str) -> String {
    let p = std::path::Path::new(path);
    if !p.starts_with("~") {
        return String::new();
    }
    let mut out = std::path::PathBuf::new();
    out.push(home);
    let sub: std::path::PathBuf = p.iter().skip(1).collect();
    out.push(sub);
    out.to_string_lossy().into_owned()
}

#[test]
fn home_expansion_joins_components_like_std() {
    for path in ["~", "~/", "~/a", "~//a", "~/a/", "~/./a/./b", "~/a/../b", "~///", "~/a b/c", "~x", "x/~", "", "/~/a"] {
        for home in ["/home/me", "/home/me/", "", "/", "rel/dir", "/h//x"] {
            assert_eq!(expand_home(path, home), expand_with_std(path, home), "path {path:?} home {home:?}");
        }
    }
}
