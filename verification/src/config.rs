//! The configuration of a run, and where its files are kept.

use vstd::prelude::*;
use crate::text::join_texts;

verus! {

/// The name under which the program keeps its files and announces itself.
pub const APP_NAME: &'static str = "tiller";

/// The version the program announces.
pub const APP_VERSION: &'static str = "v0.0.1";

/// What a run is told from outside: the editor to open, the folder of notes
/// inside the repository, and the repository itself. It does not change
/// during a run.
#[derive(Clone, Debug, PartialEq, Eq)]
pub struct Config {
    pub editor: String,
    pub notes_folder: String,
    pub repo_path: String,
}

/// A `Config` as plain text values.
pub struct ConfigView {
    pub editor: Seq<char>,
    pub notes_folder: Seq<char>,
    pub repo_path: Seq<char>,
}

impl View for Config {
    type V = ConfigView;

    open spec fn view(&self) -> ConfigView {
        ConfigView {
            editor: self.editor@,
            notes_folder: self.notes_folder@,
            repo_path: self.repo_path@,
        }
    }
}

/// The configuration written when none is given.
pub open spec fn default_config_view() -> ConfigView {
    ConfigView {
        editor: "nano"@,
        notes_folder: "contents/til"@,
        repo_path: "~/www/project-name"@,
    }
}

/// `name` inside the directory `base`.
pub open spec fn joined_path(base: Seq<char>, name: Seq<char>) -> Seq<char> {
    base + "/"@ + name
}

/// Where the configuration file lies, relative to the home directory.
pub open spec fn config_location() -> Seq<char> {
    ".config/"@ + APP_NAME@ + "/config.json"@
}

/// Where the header template lies, relative to the home directory.
pub open spec fn template_location() -> Seq<char> {
    ".config/"@ + APP_NAME@ + "/prepend.md"@
}

/// The configuration written when none is given.
pub fn default_config() -> (config: Config)
    ensures
        config@ == default_config_view(),
{
    Config {
        editor: String::from_str("nano"),
        notes_folder: String::from_str("contents/til"),
        repo_path: String::from_str("~/www/project-name"),
    }
}

/// The path of `name` inside the directory `base`.
pub fn join_path(base: &str, name: &str) -> (path: String)
    ensures
        path@ == joined_path(base@, name@),
{
    let mut path = join_texts(base, "/");
    path.append(name);
    path
}

/// The path of the configuration file, relative to the home directory.
pub fn config_relative_path() -> (path: String)
    ensures
        path@ == config_location(),
{
    let mut path = join_texts(".config/", APP_NAME);
    path.append("/config.json");
    path
}

/// The path of the header template, relative to the home directory.
pub fn template_relative_path() -> (path: String)
    ensures
        path@ == template_location(),
{
    let mut path = join_texts(".config/", APP_NAME);
    path.append("/prepend.md");
    path
}

impl Config {
    /// The folder in which the notes lie: the notes folder inside the
    /// repository.
    pub fn notes_folder_path(&self) -> (path: String)
        ensures
            path@ == joined_path(self@.repo_path, self@.notes_folder),
    {
        join_path(self.repo_path.as_str(), self.notes_folder.as_str())
    }
}

} // verus!
