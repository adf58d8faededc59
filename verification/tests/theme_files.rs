use neoterm::config::yaml_theme_manager::sanitize_filename;

#[test]
fn test_sanitize_filename() {
    assert_eq!(sanitize_filename("My Theme"), "My Theme");
    assert_eq!(sanitize_filename("My/Theme"), "My_Theme");
    assert_eq!(sanitize_filename("My:Theme*"), "My_Theme_");
}
