//! Working-tree status engine of a personal command-line toolbox: path
//! status classification, commit message composition, staging decisions and
//! clone progress reporting, with the small text utilities around them.
pub mod clone_target;
pub mod colors;
pub mod commit;
pub mod environment;
pub mod greeting;
pub mod ignore;
pub mod long_status;
pub mod paths;
pub mod progress;
pub mod records;
pub mod search;
pub mod staging;
pub mod status;
pub mod tasks;
pub mod text;
pub mod time;

pub use clone_target::clone_target;
pub use colors::{apply_color, Colorize};
pub use commit::{commit_message, commit_message_at, CommitMessage};
pub use environment::{get_env, reset_env, set_env, Environment, Setting, SettingSelection};
pub use greeting::{welcome_msg, welcome_with_date};
pub use ignore::{filter_templates, ignore_url, split_lines};
pub use long_status::{long_lines, message_long, LongSection};
pub use paths::{expand_home, expand_sanitized_home, sanitize_path, sanitize_pathbuf};
pub use progress::{CheckoutProgress, CloneProgressState, ProgressEvent, TransferProgress};
pub use records::{
    contains_task_id, get_task_max_id, CompletionCommands, GitRepo, Item, LicenseType, Shells,
};
pub use search::{query_string_builder, SearchParams};
pub use staging::{Stager, StagingMode, StagingResult};
pub use status::{
    classify, message_short, status_lines, DiffPaths, PathStatus, SideFlags, StatusEntry,
    StatusFlags, SubmoduleFlags,
};
pub use tasks::{
    parent_validator, parse_yes_no, task_duration_validator, task_status_utf8,
    task_string_validator, TaskStatus,
};
pub use time::{time_now, Timestamp};
