use c2rust_init::config_text::config_file_name;
use c2rust_init::config_text::default_config;
use c2rust_init::config_text::state_dir_name;

#[test]
fn fixed_paths_are_stable() {
    assert_eq!(state_dir_name(), ".c2rust");
    assert_eq!(config_file_name(), "config.toml");
}

#[test]
fn template_is_non_empty_and_names_its_sections() {
    let text = default_config();
    assert!(!text.is_empty());
    assert!(text.contains("[global]"));
    assert!(text.contains("[model]"));
}

#[test]
fn template_starts_with_the_global_section() {
    assert!(default_config().starts_with("[global]\n"));
}

#[test]
fn template_carries_a_feature_command_group() {
    let text = default_config();
    assert!(text.contains("[features.default]"));
    assert!(text.contains("dir = "));
    assert!(text.contains("build = "));
    assert!(text.contains("test = "));
    assert!(text.contains("clean = "));
}
