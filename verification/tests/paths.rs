use devnotify::paths::{config_path, expand_home, DEFAULT_CONFIG_PATH};

#[test]
fn leading_tilde_is_expanded() {
    assert_eq!(expand_home("~/sounds/in.wav", "/home/ada"), "/home/ada/sounds/in.wav");
}

#[test]
fn lone_tilde_is_the_home_directory() {
    assert_eq!(expand_home("~", "/home/ada"), "/home/ada");
}

#[test]
fn path_without_tilde_is_unchanged() {
    assert_eq!(expand_home("connect.wav", "/home/ada"), "connect.wav");
    assert_eq!(expand_home("/usr/share/sounds/out.wav", "/home/ada"), "/usr/share/sounds/out.wav");
}

#[test]
fn empty_path_is_unchanged() {
    assert_eq!(expand_home("", "/home/ada"), "");
}

#[test]
fn tilde_that_does_not_lead_is_kept() {
    assert_eq!(expand_home("/tmp/backup~/in.wav", "/home/ada"), "/tmp/backup~/in.wav");
    assert_eq!(expand_home("~/a~b", "/home/ada"), "/home/ada/a~b");
}

#[test]
fn only_the_first_tilde_is_expanded() {
    assert_eq!(expand_home("~~", "/h"), "/h~");
}

#[test]
fn empty_home_removes_the_tilde() {
    assert_eq!(expand_home("~/x", ""), "/x");
}

#[test]
fn expansion_keeps_characters_outside_ascii() {
    assert_eq!(expand_home("~/Töne/an.wav", "/home/zoë"), "/home/zoë/Töne/an.wav");
}

#[test]
fn default_config_path_is_under_the_config_directory() {
    assert_eq!(DEFAULT_CONFIG_PATH, "~/.config/devnotify/devnotify.ron");
    assert_eq!(config_path(None, "/home/ada"), "/home/ada/.config/devnotify/devnotify.ron");
}

#[test]
fn chosen_config_path_is_used_after_expansion() {
    assert_eq!(config_path(Some("~/my.ron"), "/home/ada"), "/home/ada/my.ron");
    assert_eq!(config_path(Some("/etc/devnotify.ron"), "/home/ada"), "/etc/devnotify.ron");
}
