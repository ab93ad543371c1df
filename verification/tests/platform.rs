//! Directories of the user and lists of files.
use ronsole::platform::{
    config_home_dir_with, normalize_linux_arboard_file_list, user_home_dir_with,
};

#[test]
fn linux_file_list_normalization_removes_only_transport_cr() {
    let mut paths = vec![b"/tmp/a\r".to_vec(), b"/tmp/b".to_vec()];
    normalize_linux_arboard_file_list(&mut paths);
    assert_eq!(paths[0], b"/tmp/a");
    assert_eq!(paths[1], b"/tmp/b");
}

#[test]
fn user_home_directory_is_strictly_linux_home() {
    assert_eq!(user_home_dir_with(Some(b"/home/reyan".to_vec())), Some(b"/home/reyan".to_vec()));
    assert_eq!(user_home_dir_with(None), None);
    assert_eq!(user_home_dir_with(Some(Vec::new())), None);
}

#[test]
fn config_home_prefers_xdg_and_falls_back_to_linux_home() {
    assert_eq!(
        config_home_dir_with(Some(b"/tmp/xdg".to_vec()), Some(b"/home/reyan".to_vec())),
        Some(b"/tmp/xdg".to_vec())
    );
    assert_eq!(
        config_home_dir_with(None, Some(b"/home/reyan".to_vec())),
        Some(b"/home/reyan/.config".to_vec())
    );
    assert_eq!(config_home_dir_with(Some(Vec::new()), None), None);
}
