//! Where the program keeps its configuration on disk.

use vstd::prelude::*;

use std::path::PathBuf;

verus! {

/// A path on the file system.
#[verifier::external_type_specification]
#[verifier::external_body]
pub struct ExPathBuf(PathBuf);

/// The folder under the user's configuration directory that holds ours.
pub const CONFIG_FOLDER_NAME: &'static str = "ftctui";

/// The folder, under ours, that holds the saved hardware configurations.
pub const CONFIGURATIONS_FOLDER_NAME: &'static str = "configurations";

/// The name of our configuration file.
pub const CONFIG_FILE_NAME: &'static str = "config.toml";

/// Calls `dirs::config_dir`. Nothing is stated of the result: it depends on the platform
/// and the environment.
#[verifier::external_body]
fn config_dir() -> Option<PathBuf> {
    dirs::config_dir()
}

/// The path `PathBuf::join` gives for `part` under `base`.
pub uninterp spec fn joined_path(base: PathBuf, part: Seq<char>) -> PathBuf;

/// Calls `PathBuf::join`; its result is named [joined_path].
#[verifier::external_body]
fn join_path(base: &PathBuf, part: &str) -> (r: PathBuf)
    ensures
        r == joined_path(*base, part@),
{
    base.join(part)
}

/// Our config folder under a configuration directory: `ftctui` in it.
pub fn config_folder_in(dir: &PathBuf) -> (p: PathBuf)
    ensures
        p == joined_path(*dir, CONFIG_FOLDER_NAME@),
{
    join_path(dir, CONFIG_FOLDER_NAME)
}

/// The configuration files folder under a configuration directory:
/// `ftctui/configurations` in it.
pub fn configurations_folder_in(dir: &PathBuf) -> (p: PathBuf)
    ensures
        p == joined_path(joined_path(*dir, CONFIG_FOLDER_NAME@), CONFIGURATIONS_FOLDER_NAME@),
{
    join_path(&config_folder_in(dir), CONFIGURATIONS_FOLDER_NAME)
}

/// The config file under a configuration directory: `ftctui/config.toml` in it.
pub fn config_file_in(dir: &PathBuf) -> (p: PathBuf)
    ensures
        p == joined_path(joined_path(*dir, CONFIG_FOLDER_NAME@), CONFIG_FILE_NAME@),
{
    join_path(&config_folder_in(dir), CONFIG_FILE_NAME)
}

/// Finds the path to the config folder: `ftctui` under the user's configuration
/// directory, or `None` where the platform has none (the program then stops).
pub fn get_config_folder() -> (r: Option<PathBuf>)
    ensures
        r matches Some(p) ==> exists|d: PathBuf| p == #[trigger] joined_path(d, CONFIG_FOLDER_NAME@),
{
    match config_dir() {
        Some(d) => Some(config_folder_in(&d)),
        None => None,
    }
}

/// Finds the path to the configuration files folder: `configurations` under the config
/// folder.
pub fn get_configurations_folder() -> (r: Option<PathBuf>)
    ensures
        r matches Some(p) ==> exists|d: PathBuf|
            p == #[trigger] joined_path(joined_path(d, CONFIG_FOLDER_NAME@), CONFIGURATIONS_FOLDER_NAME@),
{
    match config_dir() {
        Some(d) => Some(configurations_folder_in(&d)),
        None => None,
    }
}

/// Returns the path to the config file: `config.toml` in the config folder.
pub fn get_config_file() -> (r: Option<PathBuf>)
    ensures
        r matches Some(p) ==> exists|d: PathBuf|
            p == #[trigger] joined_path(joined_path(d, CONFIG_FOLDER_NAME@), CONFIG_FILE_NAME@),
{
    match config_dir() {
        Some(d) => Some(config_file_in(&d)),
        None => None,
    }
}

} // verus!
