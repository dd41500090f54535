use rscat::{get_startup_state, set_startup_enabled, settings_path, ConfigEnv, PathName, PathPart, Platform, StartupState};

fn env(app_data: Option<&'static str>, home: Option<&'static str>, xdg: Option<&'static str>, cwd: Option<&'static str>) -> ConfigEnv<&'static str> {
    ConfigEnv { app_data, home, xdg_config_home: xdg, current_dir: cwd }
}

fn render(parts: Vec<PathPart<&'static str>>) -> String {
    let names: Vec<&str> = parts
        .iter()
        .map(|p| match p {
            PathPart::Env(v) => *v,
            PathPart::Name(n) => n.text(),
        })
        .collect();
    names.join("/")
}

#[test]
fn settings_live_under_the_platform_config_dir() {
    let all = env(Some("C:/AppData"), Some("/home/u"), Some("/xdg"), Some("/work"));
    assert_eq!(render(settings_path(Platform::Windows, all)), "C:/AppData/RsCat/settings.toml");
    let all = env(Some("C:/AppData"), Some("/home/u"), Some("/xdg"), Some("/work"));
    assert_eq!(
        render(settings_path(Platform::MacOs, all)),
        "/home/u/Library/Application Support/RsCat/settings.toml"
    );
    let all = env(Some("C:/AppData"), Some("/home/u"), Some("/xdg"), Some("/work"));
    assert_eq!(render(settings_path(Platform::OtherUnix, all)), "/xdg/RsCat/settings.toml");
    let all = env(Some("C:/AppData"), Some("/home/u"), Some("/xdg"), Some("/work"));
    assert_eq!(render(settings_path(Platform::Other, all)), "/work/RsCat/settings.toml");
}

#[test]
fn settings_fall_back_when_variables_are_missing() {
    assert_eq!(
        render(settings_path(Platform::OtherUnix, env(None, Some("/home/u"), None, None))),
        "/home/u/.config/RsCat/settings.toml"
    );
    assert_eq!(
        render(settings_path(Platform::Windows, env(None, Some("/home/u"), None, Some("/work")))),
        "/work/RsCat/settings.toml"
    );
    assert_eq!(
        render(settings_path(Platform::MacOs, env(None, None, None, None))),
        "./RsCat/settings.toml"
    );
    assert_eq!(PathName::SettingsFile.text(), "settings.toml");
}

#[test]
fn startup_integration_is_unsupported() {
    assert_eq!(get_startup_state(), StartupState::Unsupported);
    assert_eq!(set_startup_enabled(true), Ok(StartupState::Unsupported));
    assert_eq!(set_startup_enabled(false), Ok(StartupState::Unsupported));
}
