use vstd::prelude::*;

use crate::colors::{apply_color, colored};
use crate::status::views;

verus! {

/// The application's settings.
#[derive(Clone, Debug)]
pub struct Environment {
    /// Name used in commit signatures.
    pub git_name: String,
    /// Email used in commit signatures.
    pub git_email: String,
    /// Directory that repositories are cloned into.
    pub git_dir: String,
    /// Base address of the ignore-file service.
    pub git_ignore_url: String,
    /// Database connection string.
    pub conn_str: String,
    /// Key of the JSON search API.
    pub google_search_api_key: String,
    /// Engine id of the JSON search API.
    pub google_search_engine_id: String,
}

/// One setting of the environment.
#[derive(Clone, Copy, Debug, PartialEq, Eq, Structural)]
pub enum Setting {
    GitName,
    GitEmail,
    GitDir,
    GitIgnoreUrl,
    ConnStr,
    GoogleSearchApiKey,
    GoogleSearchEngineId,
}

/// Which settings a command names. A listing that names none covers all of
/// them; a reset that names none changes nothing.
#[derive(Clone, Copy, Debug, PartialEq, Eq, Structural)]
pub struct SettingSelection {
    pub git_name: bool,
    pub git_email: bool,
    pub git_dir: bool,
    pub git_ignore_url: bool,
    pub conn_str: bool,
    pub google_search_api_key: bool,
    pub google_search_engine_id: bool,
}

/// The settings in their listing order.
pub open spec fn all_settings() -> Seq<Setting> {
    seq![
        Setting::GitName,
        Setting::GitEmail,
        Setting::GitDir,
        Setting::GitIgnoreUrl,
        Setting::ConnStr,
        Setting::GoogleSearchApiKey,
        Setting::GoogleSearchEngineId,
    ]
}

impl Setting {
    pub open spec fn label_spec(self) -> Seq<char> {
        match self {
            Setting::GitName => "Git User Name"@,
            Setting::GitEmail => "Git Email"@,
            Setting::GitDir => "Git Directory"@,
            Setting::GitIgnoreUrl => "Git Ignore URL"@,
            Setting::ConnStr => "Connection String"@,
            Setting::GoogleSearchApiKey => "Google Search API Key"@,
            Setting::GoogleSearchEngineId => "Google Search Engine ID"@,
        }
    }

    /// The name the setting is shown under.
    pub fn label(&self) -> (r: &'static str)
        ensures
            r@ == self.label_spec(),
    {
        match self {
            Setting::GitName => "Git User Name",
            Setting::GitEmail => "Git Email",
            Setting::GitDir => "Git Directory",
            Setting::GitIgnoreUrl => "Git Ignore URL",
            Setting::ConnStr => "Connection String",
            Setting::GoogleSearchApiKey => "Google Search API Key",
            Setting::GoogleSearchEngineId => "Google Search Engine ID",
        }
    }
}

impl SettingSelection {
    pub open spec fn none_named(self) -> bool {
        !self.git_name && !self.git_email && !self.git_dir && !self.git_ignore_url
            && !self.conn_str && !self.google_search_api_key && !self.google_search_engine_id
    }

    pub open spec fn names(self, s: Setting) -> bool {
        match s {
            Setting::GitName => self.git_name,
            Setting::GitEmail => self.git_email,
            Setting::GitDir => self.git_dir,
            Setting::GitIgnoreUrl => self.git_ignore_url,
            Setting::ConnStr => self.conn_str,
            Setting::GoogleSearchApiKey => self.google_search_api_key,
            Setting::GoogleSearchEngineId => self.google_search_engine_id,
        }
    }

    /// Whether the command applies to the setting.
    pub open spec fn covers(self, s: Setting) -> bool {
        self.none_named() || self.names(s)
    }

    pub fn names_exec(&self, s: Setting) -> (r: bool)
        ensures
            r == self.names(s),
    {
        match s {
            Setting::GitName => self.git_name,
            Setting::GitEmail => self.git_email,
            Setting::GitDir => self.git_dir,
            Setting::GitIgnoreUrl => self.git_ignore_url,
            Setting::ConnStr => self.conn_str,
            Setting::GoogleSearchApiKey => self.google_search_api_key,
            Setting::GoogleSearchEngineId => self.google_search_engine_id,
        }
    }

    pub fn covers_exec(&self, s: Setting) -> (r: bool)
        ensures
            r == self.covers(s),
    {
        let none = !self.git_name && !self.git_email && !self.git_dir && !self.git_ignore_url
            && !self.conn_str && !self.google_search_api_key && !self.google_search_engine_id;
        none || match s {
            Setting::GitName => self.git_name,
            Setting::GitEmail => self.git_email,
            Setting::GitDir => self.git_dir,
            Setting::GitIgnoreUrl => self.git_ignore_url,
            Setting::ConnStr => self.conn_str,
            Setting::GoogleSearchApiKey => self.google_search_api_key,
            Setting::GoogleSearchEngineId => self.google_search_engine_id,
        }
    }
}

/// `<label in magenta>: <value>` and a line break.
pub open spec fn setting_line(label: Seq<char>, value: Seq<char>) -> Seq<char> {
    colored("magenta"@, label) + ": "@ + value + seq!['\n']
}

/// The lines of the settings of `order` that the selection covers.
pub open spec fn listing_of(env: Environment, sel: SettingSelection, order: Seq<Setting>) -> Seq<
    char,
>
    decreases order.len(),
{
    if order.len() == 0 {
        Seq::empty()
    } else {
        listing_of(env, sel, order.drop_last()) + if sel.covers(order.last()) {
            setting_line(order.last().label_spec(), env.value_of(order.last()))
        } else {
            Seq::empty()
        }
    }
}

/// The report of applying updates: for each, `Setting <label> to: <value>`
/// and `<label> set to: <value>`, the label in magenta.
pub open spec fn update_report(updates: Seq<(Setting, Seq<char>)>) -> Seq<char>
    decreases updates.len(),
{
    if updates.len() == 0 {
        Seq::empty()
    } else {
        let (s, v) = updates.last();
        update_report(updates.drop_last()) + "Setting "@ + colored("magenta"@, s.label_spec())
            + " to: "@ + v + seq!['\n'] + colored("magenta"@, s.label_spec()) + " set to: "@ + v
            + seq!['\n']
    }
}

/// The value each setting has after the updates, applied in order.
pub open spec fn value_after(
    start: Environment,
    updates: Seq<(Setting, Seq<char>)>,
    s: Setting,
) -> Seq<char>
    decreases updates.len(),
{
    if updates.len() == 0 {
        start.value_of(s)
    } else if updates.last().0 == s {
        updates.last().1
    } else {
        value_after(start, updates.drop_last(), s)
    }
}

pub open spec fn update_views(u: Seq<(Setting, String)>) -> Seq<(Setting, Seq<char>)> {
    u.map_values(|p: (Setting, String)| (p.0, p.1@))
}

impl Environment {
    pub open spec fn value_of(self, s: Setting) -> Seq<char> {
        match s {
            Setting::GitName => self.git_name@,
            Setting::GitEmail => self.git_email@,
            Setting::GitDir => self.git_dir@,
            Setting::GitIgnoreUrl => self.git_ignore_url@,
            Setting::ConnStr => self.conn_str@,
            Setting::GoogleSearchApiKey => self.google_search_api_key@,
            Setting::GoogleSearchEngineId => self.google_search_engine_id@,
        }
    }

    /// The settings a fresh installation starts with; the connection string
    /// names the database file of the installation.
    pub fn with_defaults(conn_str: String) -> (r: Environment)
        ensures
            r.git_name@ == "User"@,
            r.git_email@ == "user.name@email.com"@,
            r.git_dir@ == "~/Code"@,
            r.git_ignore_url@ == "https://www.toptal.com/developers/gitignore/api/"@,
            r.conn_str@ == conn_str@,
            r.google_search_api_key@ == "google_search_api_key"@,
            r.google_search_engine_id@ == "google_search_engine_id"@,
    {
        Environment {
            git_name: "User".to_owned(),
            git_email: "user.name@email.com".to_owned(),
            git_dir: "~/Code".to_owned(),
            git_ignore_url: "https://www.toptal.com/developers/gitignore/api/".to_owned(),
            conn_str,
            google_search_api_key: "google_search_api_key".to_owned(),
            google_search_engine_id: "google_search_engine_id".to_owned(),
        }
    }

    /// The value of a setting.
    pub fn value(&self, s: Setting) -> (r: &String)
        ensures
            r@ == self.value_of(s),
    {
        match s {
            Setting::GitName => &self.git_name,
            Setting::GitEmail => &self.git_email,
            Setting::GitDir => &self.git_dir,
            Setting::GitIgnoreUrl => &self.git_ignore_url,
            Setting::ConnStr => &self.conn_str,
            Setting::GoogleSearchApiKey => &self.google_search_api_key,
            Setting::GoogleSearchEngineId => &self.google_search_engine_id,
        }
    }

    /// Gives a setting a new value; the others keep theirs.
    pub fn set(&mut self, s: Setting, v: String)
        ensures
            forall|t: Setting| #[trigger]
                final(self).value_of(t) == if t == s {
                    v@
                } else {
                    old(self).value_of(t)
                },
    {
        match s {
            Setting::GitName => self.git_name = v,
            Setting::GitEmail => self.git_email = v,
            Setting::GitDir => self.git_dir = v,
            Setting::GitIgnoreUrl => self.git_ignore_url = v,
            Setting::ConnStr => self.conn_str = v,
            Setting::GoogleSearchApiKey => self.google_search_api_key = v,
            Setting::GoogleSearchEngineId => self.google_search_engine_id = v,
        }
    }
}

fn settings_in_order() -> (r: Vec<Setting>)
    ensures
        r@ == all_settings(),
{
    let r = vec![
        Setting::GitName,
        Setting::GitEmail,
        Setting::GitDir,
        Setting::GitIgnoreUrl,
        Setting::ConnStr,
        Setting::GoogleSearchApiKey,
        Setting::GoogleSearchEngineId,
    ];
    proof {
        assert(r@ =~= all_settings());
    }
    r
}

/// The listing of the selected settings (all of them where none is named),
/// one `<label>: <value>` line each, in listing order.
pub fn get_env(env: &Environment, sel: &SettingSelection) -> (r: String)
    ensures
        r@ == listing_of(*env, *sel, all_settings()),
{
    let order = settings_in_order();
    let mut out = String::new();
    let mut i: usize = 0;
    while i < order.len()
        invariant
            order@ == all_settings(),
            i <= order.len(),
            out@ == listing_of(*env, *sel, order@.subrange(0, i as int)),
        decreases order.len() - i,
    {
        proof {
            assert(order@.subrange(0, i + 1).drop_last() =~= order@.subrange(0, i as int));
        }
        let s = order[i];
        if sel.covers_exec(s) {
            out.append(apply_color("magenta", s.label()).as_str());
            out.append(": ");
            out.append(env.value(s).as_str());
            out.append("\n");
            proof {
                reveal_strlit("\n");
            }
        }
        proof {
            assert(out@ =~= listing_of(*env, *sel, order@.subrange(0, i + 1)));
        }
        i = i + 1;
    }
    proof {
        assert(order@.subrange(0, order.len() as int) =~= order@);
    }
    out
}

/// Applies updates in order and reports each one.
pub fn set_env(env: &mut Environment, updates: &Vec<(Setting, String)>) -> (r: String)
    ensures
        r@ == update_report(update_views(updates@)),
        forall|s: Setting| #[trigger]
            final(env).value_of(s) == value_after(*old(env), update_views(updates@), s),
{
    let ghost start = *env;
    let mut report = String::new();
    let mut i: usize = 0;
    while i < updates.len()
        invariant
            i <= updates.len(),
            report@ == update_report(update_views(updates@.subrange(0, i as int))),
            forall|s: Setting| #[trigger]
                env.value_of(s) == value_after(start, update_views(updates@.subrange(0, i as int)), s),
        decreases updates.len() - i,
    {
        let ghost u = update_views(updates@.subrange(0, i + 1));
        proof {
            assert(u.drop_last() =~= update_views(updates@.subrange(0, i as int)));
            assert(u.last() == (updates@[i as int].0, updates@[i as int].1@));
        }
        let s = updates[i].0;
        let v = &updates[i].1;
        let label = apply_color("magenta", s.label());
        report.append("Setting ");
        report.append(label.as_str());
        report.append(" to: ");
        report.append(v.as_str());
        report.append("\n");
        env.set(s, v.clone());
        report.append(label.as_str());
        report.append(" set to: ");
        report.append(env.value(s).as_str());
        report.append("\n");
        proof {
            reveal_strlit("\n");
            assert(report@ =~= update_report(u));
        }
        i = i + 1;
    }
    proof {
        assert(updates@.subrange(0, updates.len() as int) =~= updates@);
    }
    report
}

/// The position of a setting in the listing order.
pub open spec fn setting_index(s: Setting) -> int {
    match s {
        Setting::GitName => 0,
        Setting::GitEmail => 1,
        Setting::GitDir => 2,
        Setting::GitIgnoreUrl => 3,
        Setting::ConnStr => 4,
        Setting::GoogleSearchApiKey => 5,
        Setting::GoogleSearchEngineId => 6,
    }
}

proof fn lemma_setting_index(i: int)
    requires
        0 <= i < 7,
    ensures
        all_settings().len() == 7,
        setting_index(all_settings()[i]) == i,
{
}

/// Resets the named settings to the given defaults; the others keep their
/// values (naming none resets nothing).
pub fn reset_env(env: &mut Environment, defaults: &Environment, sel: &SettingSelection)
    ensures
        forall|s: Setting| #[trigger]
            final(env).value_of(s) == if sel.names(s) {
                defaults.value_of(s)
            } else {
                old(env).value_of(s)
            },
{
    let ghost start = *env;
    let order = settings_in_order();
    let mut i: usize = 0;
    while i < order.len()
        invariant
            order@ == all_settings(),
            i <= order.len(),
            forall|s: Setting| #[trigger]
                env.value_of(s) == if sel.names(s) && setting_index(s) < i {
                    defaults.value_of(s)
                } else {
                    start.value_of(s)
                },
        decreases order.len() - i,
    {
        let s = order[i];
        proof {
            lemma_setting_index(i as int);
        }
        if sel.names_exec(s) {
            env.set(s, defaults.value(s).clone());
        }
        i = i + 1;
    }
}

} // verus!
