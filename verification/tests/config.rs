use rime_api::config::{DATA_SIZE_FIELD_BYTES, TRAITS_DATA_SIZE, TRAITS_STRUCT_BYTES};
use rime_api::{Traits, TraitsField};

#[test]
fn test() {
    let traits = Traits::new();
    assert_eq!(
        traits.data_size as usize,
        (TRAITS_STRUCT_BYTES - DATA_SIZE_FIELD_BYTES) as usize
    );
}

#[test]
fn new_traits_is_zeroed() {
    let traits = Traits::new();
    assert_eq!(traits.data_size, TRAITS_DATA_SIZE);
    assert_eq!(traits.min_log_level, 0);
    assert!(traits.resources.is_empty());
    assert!(traits.field_value(TraitsField::SharedDataDir).is_none());
    assert!(traits.field_value(TraitsField::UserDataDir).is_none());
    assert!(traits.field_value(TraitsField::AppName).is_none());
    assert!(traits.modules.is_none());
}

#[test]
fn set_then_read_back_identical() {
    let mut traits = Traits::new();
    traits.set_shared_data_dir("/usr/share/rime-data");
    traits.set_user_data_dir("/home/someone/.local/share/fcitx5/rime");
    traits.set_distribution_name("Rime");
    traits.set_distribution_code_name("rime-api");
    traits.set_distribution_version("0.1.0");
    traits.set_app_name("rime.app");
    traits.set_log_dir("/tmp/rime-logs");
    traits.set_prebuilt_data_dir("/usr/share/rime-data/build");
    traits.set_staging_dir("/home/someone/.local/share/fcitx5/rime/build");
    assert_eq!(
        traits.field_value(TraitsField::SharedDataDir),
        Some("/usr/share/rime-data")
    );
    assert_eq!(
        traits.field_value(TraitsField::UserDataDir),
        Some("/home/someone/.local/share/fcitx5/rime")
    );
    assert_eq!(traits.field_value(TraitsField::DistributionName), Some("Rime"));
    assert_eq!(
        traits.field_value(TraitsField::DistributionCodeName),
        Some("rime-api")
    );
    assert_eq!(
        traits.field_value(TraitsField::DistributionVersion),
        Some("0.1.0")
    );
    assert_eq!(traits.field_value(TraitsField::AppName), Some("rime.app"));
    assert_eq!(traits.field_value(TraitsField::LogDir), Some("/tmp/rime-logs"));
    assert_eq!(
        traits.field_value(TraitsField::PrebuiltDataDir),
        Some("/usr/share/rime-data/build")
    );
    assert_eq!(
        traits.field_value(TraitsField::StagingDir),
        Some("/home/someone/.local/share/fcitx5/rime/build")
    );
}

#[test]
fn setting_one_field_leaves_others_alone() {
    let mut traits = Traits::new();
    traits.set_shared_data_dir("/shared");
    traits.set_user_data_dir("/user");
    assert_eq!(traits.field_value(TraitsField::SharedDataDir), Some("/shared"));
    assert_eq!(traits.field_value(TraitsField::UserDataDir), Some("/user"));
    assert!(traits.field_value(TraitsField::LogDir).is_none());
}

#[test]
fn replaced_buffer_stays_in_arena() {
    let mut traits = Traits::new();
    traits.set_app_name("first.app");
    traits.set_app_name("second.app");
    assert_eq!(traits.field_value(TraitsField::AppName), Some("second.app"));
    assert_eq!(traits.resources.len(), 2);
    assert_eq!(traits.resources[0].1, "first.app");
    assert_eq!(traits.resources[1].1, "second.app");
}

#[test]
fn min_log_level_is_stored() {
    let mut traits = Traits::new();
    traits.set_min_log_level(3);
    assert_eq!(traits.min_log_level, 3);
}

#[test]
fn modules_are_stored() {
    let mut traits = Traits::new();
    traits.set_modules(&["core", "deployer"]);
    let stored = traits.modules.as_ref().expect("modules were set");
    assert_eq!(stored.len(), 2);
    assert_eq!(stored[0], "core");
    assert_eq!(stored[1], "deployer");
}

#[test]
fn describe_renders_tagged_lines() {
    let mut traits = Traits::new();
    assert_eq!(traits.describe(), "");
    traits.set_shared_data_dir("/shared");
    assert_eq!(traits.describe(), "shared_data_dir: /shared");
    traits.set_app_name("demo.app");
    assert_eq!(
        traits.describe(),
        "shared_data_dir: /shared\napp_name: demo.app"
    );
}

#[test]
fn default_matches_new() {
    let traits = Traits::default();
    assert_eq!(traits.data_size, TRAITS_DATA_SIZE);
    assert!(traits.resources.is_empty());
}
