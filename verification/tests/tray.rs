use rscat::tray::{
    apply_tray_action, fps_menu_entries, icon_rgba, open_settings_entry, quit_entry, runner_menu_entries,
    selected_label, speed_menu_entries, tray_icon_is_template, TrayEffect,
};
use rscat::{action_from_menu_id, FpsLimit, Platform, Runner, RunnerFrame, Settings, SpeedSource, TrayAction};

#[test]
fn macos_template_icon_keeps_alpha_and_removes_color() {
    let frame = RunnerFrame {
        rgba: vec![255, 0, 0, 255, 1, 2, 3, 0, 4, 5, 6, 12],
        width: 3,
        height: 1,
    };

    assert_eq!(
        icon_rgba(&frame, Platform::MacOs),
        vec![0, 0, 0, 255, 0, 0, 0, 0, 0, 0, 0, 180]
    );
}

#[test]
fn non_macos_icon_keeps_original_rgba() {
    let frame = RunnerFrame {
        rgba: vec![255, 0, 0, 255],
        width: 1,
        height: 1,
    };

    assert_eq!(icon_rgba(&frame, Platform::Windows), frame.rgba);
    assert_eq!(icon_rgba(&frame, Platform::OtherUnix), frame.rgba);
}

#[test]
fn template_icon_drops_a_partial_pixel() {
    let frame = RunnerFrame { rgba: vec![9, 9, 9, 200, 7, 7], width: 1, height: 1 };
    assert_eq!(icon_rgba(&frame, Platform::MacOs), vec![0, 0, 0, 200]);
}

#[test]
fn only_macos_uses_template_icons() {
    assert!(tray_icon_is_template(Platform::MacOs));
    assert!(!tray_icon_is_template(Platform::Windows));
    assert!(!tray_icon_is_template(Platform::OtherUnix));
    assert!(!tray_icon_is_template(Platform::Other));
}

#[test]
fn selected_label_ticks_the_choice() {
    assert_eq!(selected_label("Cat", true), "[x] Cat");
    assert_eq!(selected_label("Cat", false), "[ ] Cat");
}

#[test]
fn menu_entries_carry_ids_and_ticks() {
    let mut settings = Settings::default();
    settings.runner = Runner::Parrot;
    settings.speed_source = SpeedSource::Memory;
    settings.fps_limit = FpsLimit::Fps30;

    let runners = runner_menu_entries(&settings);
    let ids: Vec<&str> = runners.iter().map(|e| e.id.as_str()).collect();
    let labels: Vec<&str> = runners.iter().map(|e| e.label.as_str()).collect();
    assert_eq!(ids, vec!["runner:cat", "runner:parrot", "runner:horse"]);
    assert_eq!(labels, vec!["[ ] Cat", "[x] Parrot", "[ ] Horse"]);

    let speeds = speed_menu_entries(&settings);
    let ids: Vec<&str> = speeds.iter().map(|e| e.id.as_str()).collect();
    let labels: Vec<&str> = speeds.iter().map(|e| e.label.as_str()).collect();
    assert_eq!(ids, vec!["speed:cpu", "speed:memory"]);
    assert_eq!(labels, vec!["[ ] CPU", "[x] Memory"]);

    let fps = fps_menu_entries(&settings);
    let ids: Vec<&str> = fps.iter().map(|e| e.id.as_str()).collect();
    let labels: Vec<&str> = fps.iter().map(|e| e.label.as_str()).collect();
    assert_eq!(ids, vec!["fps:20fps", "fps:30fps", "fps:40fps"]);
    assert_eq!(labels, vec!["[ ] 20 FPS", "[x] 30 FPS", "[ ] 40 FPS"]);
}

#[test]
fn every_menu_item_maps_back_to_its_action() {
    let settings = Settings::default();
    assert_eq!(action_from_menu_id(&open_settings_entry().id), Some(TrayAction::OpenSettings));
    assert_eq!(action_from_menu_id(&quit_entry().id), Some(TrayAction::Quit));
    for (entry, runner) in runner_menu_entries(&settings).iter().zip(Runner::ALL) {
        assert_eq!(action_from_menu_id(&entry.id), Some(TrayAction::SetRunner(runner)));
    }
    for (entry, source) in speed_menu_entries(&settings).iter().zip(SpeedSource::ALL) {
        assert_eq!(action_from_menu_id(&entry.id), Some(TrayAction::SetSpeedSource(source)));
    }
    for (entry, limit) in fps_menu_entries(&settings).iter().zip(FpsLimit::ALL) {
        assert_eq!(action_from_menu_id(&entry.id), Some(TrayAction::SetFpsLimit(limit)));
    }
}

#[test]
fn unknown_menu_ids_ask_for_nothing() {
    assert_eq!(action_from_menu_id("runner:dog"), None);
    assert_eq!(action_from_menu_id("speed:gpu"), None);
    assert_eq!(action_from_menu_id("fps:60fps"), None);
    assert_eq!(action_from_menu_id("Quit"), None);
    assert_eq!(action_from_menu_id(""), None);
    assert_eq!(action_from_menu_id("runner:HORSE"), Some(TrayAction::SetRunner(Runner::Horse)));
    assert_eq!(action_from_menu_id("fps:FPS 20"), Some(TrayAction::SetFpsLimit(FpsLimit::Fps20)));
}

#[test]
fn tray_actions_update_one_setting() {
    let mut settings = Settings::default();
    assert_eq!(apply_tray_action(&mut settings, TrayAction::SetRunner(Runner::Horse)), TrayEffect::ReloadRunner);
    assert_eq!(settings.runner, Runner::Horse);
    assert_eq!(settings.speed_source, SpeedSource::Cpu);
    assert_eq!(
        apply_tray_action(&mut settings, TrayAction::SetSpeedSource(SpeedSource::Memory)),
        TrayEffect::Replan
    );
    assert_eq!(settings.speed_source, SpeedSource::Memory);
    assert_eq!(apply_tray_action(&mut settings, TrayAction::SetFpsLimit(FpsLimit::Fps20)), TrayEffect::Replan);
    assert_eq!(settings.fps_limit, FpsLimit::Fps20);
    assert_eq!(settings.runner, Runner::Horse);
    assert_eq!(apply_tray_action(&mut settings, TrayAction::OpenSettings), TrayEffect::OpenSettings);
    assert_eq!(apply_tray_action(&mut settings, TrayAction::Quit), TrayEffect::Quit);
    assert_eq!(settings.runner, Runner::Horse);
    assert!(settings.first_launch);
}
