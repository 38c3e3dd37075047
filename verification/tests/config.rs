use roblox_booster::config::{Config, DEFAULT_ROBLOX_PATH};
use roblox_booster::priority::PriorityLevel;

#[test]
fn test_default_config() {
    let config = Config::default();
    assert!(!config.auto_start_booster);
    assert!(config.auto_detect_roblox);
    assert_eq!(config.priority_level, 1);
    assert!(config.enable_gpu_boost);
    assert!(config.custom_roblox_path.is_none());
    assert!(config.is_valid());
}

#[test]
fn test_priority_names() {
    let mut config = Config::default();

    config.priority_level = 0;
    assert_eq!(config.priority_name(), "Normal");

    config.priority_level = 1;
    assert_eq!(config.priority_name(), "Above Normal");

    config.priority_level = 2;
    assert_eq!(config.priority_name(), "High");
}

#[test]
fn test_validation() {
    let mut config = Config::default();

    config.priority_level = 0;
    assert!(config.is_valid());

    config.priority_level = 2;
    assert!(config.is_valid());

    config.priority_level = 3;
    assert!(!config.is_valid());
}

#[test]
fn test_custom_path() {
    let mut config = Config::default();

    // None should be valid
    assert!(config.is_valid());

    // Empty string should be valid
    config.custom_roblox_path = Some(String::new());
    assert!(config.is_valid());
}

#[test]
fn default_config_clears_memory() {
    assert!(Config::default().clear_memory_cache);
}

#[test]
fn priority_name_above_two_is_high() {
    let mut config = Config::default();
    config.priority_level = 200;
    assert_eq!(config.priority_name(), "High");
}

#[test]
fn gpu_status_in_words() {
    let mut config = Config::default();
    assert_eq!(config.gpu_status(), "Enabled");
    config.enable_gpu_boost = false;
    assert_eq!(config.gpu_status(), "Disabled");
}

#[test]
fn target_level_follows_the_number() {
    let mut config = Config::default();
    config.priority_level = 0;
    assert_eq!(config.target_level(), PriorityLevel::Normal);
    config.priority_level = 1;
    assert_eq!(config.target_level(), PriorityLevel::AboveNormal);
    config.priority_level = 2;
    assert_eq!(config.target_level(), PriorityLevel::High);
    config.priority_level = 7;
    assert_eq!(config.target_level(), PriorityLevel::High);
}

#[test]
fn validity_with_a_custom_path_follows_the_disk() {
    let mut config = Config::default();
    config.custom_roblox_path = Some(String::from("D:\\Games\\Roblox"));
    assert!(config.is_valid_when(true));
    assert!(!config.is_valid_when(false));
    config.priority_level = 3;
    assert!(!config.is_valid_when(true));
}

#[test]
fn missing_custom_path_is_invalid() {
    let mut config = Config::default();
    config.custom_roblox_path = Some(String::from("/no/such/directory/for/the/booster"));
    assert!(!config.is_valid());
}

#[test]
fn existing_custom_path_is_valid() {
    let mut config = Config::default();
    config.custom_roblox_path = Some(String::from("/"));
    assert!(config.is_valid());
}

#[test]
fn roblox_path_is_the_default_without_a_custom_one() {
    let config = Config::default();
    assert_eq!(config.get_roblox_path(), DEFAULT_ROBLOX_PATH);
    assert_eq!(
        DEFAULT_ROBLOX_PATH,
        r"C:\Users\Admin\AppData\Local\Roblox\Versions"
    );
}

#[test]
fn roblox_path_is_the_custom_one_where_it_exists() {
    let mut config = Config::default();
    config.custom_roblox_path = Some(String::from("D:\\Games\\Roblox"));
    assert_eq!(config.get_roblox_path_when(true), "D:\\Games\\Roblox");
    assert_eq!(config.get_roblox_path_when(false), DEFAULT_ROBLOX_PATH);
    config.custom_roblox_path = Some(String::new());
    assert_eq!(config.get_roblox_path_when(true), DEFAULT_ROBLOX_PATH);
}

#[test]
fn roblox_path_asks_the_disk() {
    let mut config = Config::default();
    config.custom_roblox_path = Some(String::from("/"));
    assert_eq!(config.get_roblox_path(), "/");
    config.custom_roblox_path = Some(String::from("/no/such/directory/for/the/booster"));
    assert_eq!(config.get_roblox_path(), DEFAULT_ROBLOX_PATH);
}

#[test]
fn preferences_are_cloned_as_they_are() {
    let mut config = Config::default();
    config.auto_start_booster = true;
    config.priority_level = 2;
    config.custom_roblox_path = Some(String::from("D:\\Games\\Roblox"));
    assert_eq!(config.clone(), config);
}
