use rscat::{FpsLimit, Runner, Settings, SpeedSource, Theme};
use std::str::FromStr;

#[test]
fn default_settings_match_a_first_launch() {
    let settings = Settings::default();
    assert_eq!(settings.runner, Runner::Cat);
    assert_eq!(settings.theme, Theme::System);
    assert_eq!(settings.speed_source, SpeedSource::Cpu);
    assert_eq!(settings.fps_limit, FpsLimit::Fps40);
    assert!(!settings.launch_at_startup);
    assert!(settings.first_launch);
}

#[test]
fn runner_ids_and_labels() {
    assert_eq!(Runner::Cat.as_id(), "cat");
    assert_eq!(Runner::Parrot.as_id(), "parrot");
    assert_eq!(Runner::Horse.as_id(), "horse");
    assert_eq!(Runner::Cat.label(), "Cat");
    assert_eq!(Runner::Parrot.label(), "Parrot");
    assert_eq!(Runner::Horse.label(), "Horse");
    assert_eq!(Runner::default(), Runner::Cat);
}

#[test]
fn other_labels() {
    assert_eq!(Theme::System.label(), "System");
    assert_eq!(Theme::Light.label(), "Light");
    assert_eq!(Theme::Dark.label(), "Dark");
    assert_eq!(SpeedSource::Cpu.label(), "CPU");
    assert_eq!(SpeedSource::Memory.label(), "Memory");
    assert_eq!(FpsLimit::Fps20.label(), "20 FPS");
    assert_eq!(FpsLimit::Fps30.label(), "30 FPS");
    assert_eq!(FpsLimit::Fps40.label(), "40 FPS");
}

#[test]
fn parsing_ignores_case() {
    assert_eq!(Runner::from_str("PaRRot"), Ok(Runner::Parrot));
    assert_eq!(Theme::from_str("DARK"), Ok(Theme::Dark));
    assert_eq!(SpeedSource::from_str("Memory"), Ok(SpeedSource::Memory));
    assert_eq!(FpsLimit::from_str("30 FPS"), Ok(FpsLimit::Fps30));
    assert_eq!(FpsLimit::from_str("fps 40"), Ok(FpsLimit::Fps40));
    assert_eq!(FpsLimit::from_str("20Fps"), Ok(FpsLimit::Fps20));
}

#[test]
fn labels_parse_back() {
    for runner in Runner::ALL {
        assert_eq!(Runner::parse(runner.label()), Ok(runner));
        assert_eq!(Runner::parse(runner.as_id()), Ok(runner));
    }
    for theme in Theme::ALL {
        assert_eq!(Theme::parse(theme.label()), Ok(theme));
    }
    for source in SpeedSource::ALL {
        assert_eq!(SpeedSource::parse(source.label()), Ok(source));
    }
    for limit in FpsLimit::ALL {
        assert_eq!(FpsLimit::parse(limit.label()), Ok(limit));
    }
}

#[test]
fn unknown_names_are_refused_with_the_lowered_name() {
    assert_eq!(Runner::parse("Dog"), Err("unsupported runner: dog".to_string()));
    assert_eq!(Theme::parse("Blue"), Err("unsupported theme: blue".to_string()));
    assert_eq!(SpeedSource::parse("GPU"), Err("unsupported speed source: gpu".to_string()));
    assert_eq!(FpsLimit::parse("60 FPS"), Err("unsupported fps limit: 60fps".to_string()));
    assert_eq!(Runner::parse(" cat"), Err("unsupported runner:  cat".to_string()));
}
