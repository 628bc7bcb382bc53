use std::path::PathBuf;
use uniproc::settings::{
    default_settings_path, default_settings_path_with, SettingsEnv, SettingsFeature, SettingsLocation,
    SettingsPathError, SettingsPathOptions, SettingsPersistenceSettings,
};

fn env(is_windows: bool, appdata: Option<&str>, xdg: Option<&str>, home: Option<&str>) -> SettingsEnv {
    SettingsEnv {
        is_windows,
        appdata: appdata.map(String::from),
        xdg_config_home: xdg.map(String::from),
        home: home.map(String::from),
    }
}

#[test]
fn persistence_defaults() {
    let s = SettingsPersistenceSettings::default();
    assert_eq!(s.save_debounce_ms, 300);
    assert_eq!(s.watch_interval_ms, 500);
}

#[test]
fn path_options() {
    let o = SettingsPathOptions::new("MyApp Ä");
    assert_eq!(o.windows_dir_name, "MyApp Ä");
    assert_eq!(o.unix_dir_name, "myapp Ä");
    assert_eq!(o.file_name, "settings.json");
    let d = SettingsPathOptions::default();
    assert_eq!(d.windows_dir_name, "Uniproc");
    assert_eq!(d.unix_dir_name, "uniproc");
    assert_eq!(d.file_name, "settings.json");
}

#[test]
fn default_path_precedence() {
    let o = SettingsPathOptions::new("App");
    assert_eq!(
        default_settings_path_with(&o, &env(true, Some("C:/Roaming"), Some("/x"), Some("/h"))),
        Ok(vec!["C:/Roaming".to_string(), "App".to_string(), "settings.json".to_string()])
    );
    assert_eq!(default_settings_path_with(&o, &env(true, None, Some("/x"), Some("/h"))), Err(SettingsPathError::NoConfigDir));
    assert_eq!(
        default_settings_path_with(&o, &env(false, Some("C:/Roaming"), Some("/xdg"), Some("/home/u"))),
        Ok(vec!["/xdg".to_string(), "app".to_string(), "settings.json".to_string()])
    );
    assert_eq!(
        default_settings_path_with(&o, &env(false, None, None, Some("/home/u"))),
        Ok(vec!["/home/u".to_string(), ".config".to_string(), "app".to_string(), "settings.json".to_string()])
    );
    assert_eq!(default_settings_path_with(&o, &env(false, Some("C:/R"), None, None)), Err(SettingsPathError::NoConfigDir));
    assert_eq!(
        default_settings_path(&env(false, None, None, Some("/root"))),
        Ok(vec!["/root".to_string(), ".config".to_string(), "uniproc".to_string(), "settings.json".to_string()])
    );
}

#[test]
fn given_path_wins() {
    let f = SettingsFeature::with_path(PathBuf::from("/etc/app/settings.json"));
    match f.path(&env(false, None, None, None)) {
        Ok(SettingsLocation::Given(p)) => assert_eq!(p, PathBuf::from("/etc/app/settings.json")),
        _ => panic!("expected the given path"),
    }
    let f = SettingsFeature::with_app_name("Proc");
    match f.path(&env(false, None, Some("/cfg"), None)) {
        Ok(SettingsLocation::Default(parts)) => assert_eq!(parts, vec!["/cfg", "proc", "settings.json"]),
        _ => panic!("expected the default path"),
    }
    let f = SettingsFeature::with_path_options(SettingsPathOptions::new("X"));
    assert!(matches!(f.path(&env(false, None, None, None)), Err(SettingsPathError::NoConfigDir)));
    let f = SettingsFeature::default();
    match f.path(&env(true, Some("D:"), None, None)) {
        Ok(SettingsLocation::Default(parts)) => assert_eq!(parts, vec!["D:", "Uniproc", "settings.json"]),
        _ => panic!("expected the default path"),
    }
}
