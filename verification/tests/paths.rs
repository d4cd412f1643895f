use yunara::paths::{
    config_dir, crashes_dir, crashes_retired_dir, data_dir, database_dir, global_settings_file,
    hang_traces_dir, join_path, log_file, logs_dir, settings_file, temp_dir, DirInputs, Platform,
};

fn inputs(platform: Platform) -> DirInputs {
    DirInputs {
        platform,
        home: "/home/u".to_string(),
        custom_data_dir: None,
        flatpak_config_home: None,
        flatpak_data_home: None,
        flatpak_cache_home: None,
        system_config_dir: Some("/sys/config".to_string()),
        system_data_local_dir: Some("/sys/data".to_string()),
        system_cache_dir: Some("/sys/cache".to_string()),
    }
}

#[test]
fn join_rules() {
    assert_eq!(join_path("", "a", Platform::LinuxOrFreeBsd), "a");
    assert_eq!(join_path("/x", "a", Platform::LinuxOrFreeBsd), "/x/a");
    assert_eq!(join_path("/x/", "a", Platform::LinuxOrFreeBsd), "/x/a");
    assert_eq!(join_path("C:\\x", "a", Platform::Windows), "C:\\x\\a");
    assert_eq!(join_path("C:\\x\\", "a", Platform::Windows), "C:\\x\\a");
    assert_eq!(join_path("C:/x/", "a", Platform::Windows), "C:/x/a");
}

#[test]
fn linux_directories() {
    let i = inputs(Platform::LinuxOrFreeBsd);
    assert_eq!(config_dir(&i), "/sys/config/yunara");
    assert_eq!(data_dir(&i), "/sys/data/yunara");
    assert_eq!(temp_dir(&i), "/sys/cache/yunara");
    let mut f = i.clone();
    f.flatpak_config_home = Some("/fp/config".to_string());
    f.flatpak_data_home = Some("/fp/data".to_string());
    f.flatpak_cache_home = Some("/fp/cache".to_string());
    assert_eq!(config_dir(&f), "/fp/config/yunara");
    assert_eq!(data_dir(&f), "/fp/data/yunara");
    assert_eq!(temp_dir(&f), "/fp/cache/yunara");
}

#[test]
fn custom_data_directory() {
    let mut i = inputs(Platform::MacOs);
    i.custom_data_dir = Some("/custom".to_string());
    assert_eq!(config_dir(&i), "/custom/config");
    assert_eq!(data_dir(&i), "/custom");
}

#[test]
fn macos_and_other_directories() {
    let m = inputs(Platform::MacOs);
    assert_eq!(config_dir(&m), "/home/u/.config/yunara");
    assert_eq!(data_dir(&m), "/sys/data/Yunara");
    assert_eq!(temp_dir(&m), "/sys/cache/Yunara");
    let o = inputs(Platform::Other);
    assert_eq!(temp_dir(&o), "/home/u/.cache/yunara");
    assert_eq!(config_dir(&o), "/home/u/.config/yunara");
    let w = DirInputs {
        home: "C:\\Users\\u".to_string(),
        system_config_dir: Some("C:\\Roaming".to_string()),
        system_data_local_dir: Some("C:\\Local".to_string()),
        system_cache_dir: Some("C:\\Local".to_string()),
        ..inputs(Platform::Windows)
    };
    assert_eq!(config_dir(&w), "C:\\Roaming\\Yunara");
    assert_eq!(data_dir(&w), "C:\\Local\\Yunara");
}

#[test]
fn derived_paths() {
    let p = Platform::LinuxOrFreeBsd;
    assert_eq!(hang_traces_dir("/d", p), "/d/hang_traces");
    assert_eq!(logs_dir("/home/u", "/d", p), "/d/logs");
    assert_eq!(logs_dir("/home/u", "/d", Platform::MacOs), "/home/u/Library/Logs/Yunara");
    assert_eq!(log_file("/d/logs", p), "/d/logs/Yunara.log");
    assert_eq!(database_dir("/d", p), "/d/db");
    assert_eq!(crashes_dir("/home/u", p), None);
    let c = crashes_dir("/home/u", Platform::MacOs);
    assert_eq!(c.as_deref(), Some("/home/u/Library/Logs/DiagnosticReports"));
    assert_eq!(crashes_retired_dir(&c, Platform::MacOs).as_deref(), Some("/home/u/Library/Logs/DiagnosticReports/Retired"));
    assert_eq!(crashes_retired_dir(&None, p), None);
    assert_eq!(settings_file("/c", p), "/c/settings.json");
    assert_eq!(global_settings_file("/c", p), "/c/global_settings.json");
}
