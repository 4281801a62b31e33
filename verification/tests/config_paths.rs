use std::path::PathBuf;

use ftctui::paths::{config_file_in, config_folder_in, configurations_folder_in};

#[test]
fn config_paths_under_a_directory() {
    let dir = PathBuf::from("/home/driver/.config");
    assert_eq!(config_folder_in(&dir), PathBuf::from("/home/driver/.config/ftctui"));
    assert_eq!(
        configurations_folder_in(&dir),
        PathBuf::from("/home/driver/.config/ftctui/configurations")
    );
    assert_eq!(config_file_in(&dir), PathBuf::from("/home/driver/.config/ftctui/config.toml"));
}
