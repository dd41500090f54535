//! The tray menu's items and what choosing one asks for, and the tray icon's pixels.
use crate::assets::RunnerFrame;
use crate::platform::Platform;
use crate::settings::{
    lemma_fps_limit_label_parses, lemma_runner_names_parse, lemma_speed_source_label_parses,
    FpsLimit, Runner, Settings, SpeedSource,
};
use crate::text::{ascii_lowercase, chars_are, chars_from, lowercase_chars, remove_spaces, starts_with, str_chars, without_spaces};
use vstd::prelude::*;

verus! {

/// What the user asked for through the tray menu.
#[derive(Clone, Copy, Debug, PartialEq, Eq, Structural)]
pub enum TrayAction {
    OpenSettings,
    SetRunner(Runner),
    SetSpeedSource(SpeedSource),
    SetFpsLimit(FpsLimit),
    Quit,
}

/// What the app must do after a tray action has been applied to the settings.
#[derive(Clone, Copy, Debug, PartialEq, Eq, Structural)]
pub enum TrayEffect {
    /// Leave the event loop.
    Quit,
    /// Show the settings window, or raise it if it is open.
    OpenSettings,
    /// Save the settings, load the new runner's frames, and rebuild the menu.
    ReloadRunner,
    /// Save the settings, recompute the animation pace, and rebuild the menu.
    Replan,
}

/// Applies a tray action to the settings: a choice of runner, speed source or
/// frame-rate limit replaces that setting and leaves the others alone; opening
/// the settings or quitting changes nothing. Returns what remains to be done.
pub fn apply_tray_action(settings: &mut Settings, action: TrayAction) -> (effect: TrayEffect)
    ensures
        match action {
            TrayAction::SetRunner(runner) => {
                &&& effect == TrayEffect::ReloadRunner
                &&& *final(settings) == Settings { runner, ..*old(settings) }
            },
            TrayAction::SetSpeedSource(source) => {
                &&& effect == TrayEffect::Replan
                &&& *final(settings) == Settings { speed_source: source, ..*old(settings) }
            },
            TrayAction::SetFpsLimit(limit) => {
                &&& effect == TrayEffect::Replan
                &&& *final(settings) == Settings { fps_limit: limit, ..*old(settings) }
            },
            TrayAction::OpenSettings => {
                &&& effect == TrayEffect::OpenSettings
                &&& *final(settings) == *old(settings)
            },
            TrayAction::Quit => {
                &&& effect == TrayEffect::Quit
                &&& *final(settings) == *old(settings)
            },
        },
{
    match action {
        TrayAction::SetRunner(runner) => {
            settings.runner = runner;
            TrayEffect::ReloadRunner
        },
        TrayAction::SetSpeedSource(source) => {
            settings.speed_source = source;
            TrayEffect::Replan
        },
        TrayAction::SetFpsLimit(limit) => {
            settings.fps_limit = limit;
            TrayEffect::Replan
        },
        TrayAction::OpenSettings => TrayEffect::OpenSettings,
        TrayAction::Quit => TrayEffect::Quit,
    }
}

/// One item of a tray submenu: the identifier it reports when chosen, and its text.
#[derive(Debug)]
pub struct MenuEntry {
    pub id: String,
    pub label: String,
}

/// The text of a menu item, ticked when it is the current choice.
pub open spec fn selected_label_spec(label: Seq<char>, selected: bool) -> Seq<char> {
    if selected {
        "[x] "@ + label
    } else {
        "[ ] "@ + label
    }
}

/// A menu item's text with a tick box in front: `[x] ` when selected, `[ ] ` otherwise.
pub fn selected_label(label: &str, selected: bool) -> (r: String)
    ensures
        r@ == selected_label_spec(label@, selected),
{
    let mut r = String::new();
    if selected {
        r.append("[x] ");
    } else {
        r.append("[ ] ");
    }
    r.append(label);
    r
}

/// The identifier of the "Open Settings" item.
pub open spec fn open_settings_id() -> Seq<char> {
    "open-settings"@
}

/// The identifier of the "Quit" item.
pub open spec fn quit_id() -> Seq<char> {
    "quit"@
}

/// The identifier of a runner's menu item.
pub open spec fn runner_item_id(runner: Runner) -> Seq<char> {
    "runner:"@ + runner.id_spec()
}

/// The identifier of a speed source's menu item.
pub open spec fn speed_item_id(source: SpeedSource) -> Seq<char> {
    "speed:"@ + ascii_lowercase(source.label_spec())
}

/// The identifier of a frame-rate limit's menu item.
pub open spec fn fps_item_id(limit: FpsLimit) -> Seq<char> {
    "fps:"@ + without_spaces(ascii_lowercase(limit.label_spec()))
}

/// The runners in menu order.
pub open spec fn runner_order() -> Seq<Runner> {
    seq![Runner::Cat, Runner::Parrot, Runner::Horse]
}

/// The speed sources in menu order.
pub open spec fn speed_order() -> Seq<SpeedSource> {
    seq![SpeedSource::Cpu, SpeedSource::Memory]
}

/// The frame-rate limits in menu order.
pub open spec fn fps_order() -> Seq<FpsLimit> {
    seq![FpsLimit::Fps20, FpsLimit::Fps30, FpsLimit::Fps40]
}

/// The identifier and text of the "Open Settings" item.
pub fn open_settings_entry() -> (e: MenuEntry)
    ensures
        e.id@ == open_settings_id(),
        e.label@ == "Open Settings"@,
{
    MenuEntry { id: String::from_str("open-settings"), label: String::from_str("Open Settings") }
}

/// The identifier and text of the "Quit" item.
pub fn quit_entry() -> (e: MenuEntry)
    ensures
        e.id@ == quit_id(),
        e.label@ == "Quit"@,
{
    MenuEntry { id: String::from_str("quit"), label: String::from_str("Quit") }
}

fn runner_entry(runner: Runner, selected: bool) -> (e: MenuEntry)
    ensures
        e.id@ == runner_item_id(runner),
        e.label@ == selected_label_spec(runner.label_spec(), selected),
{
    let mut id = String::from_str("runner:");
    id.append(runner.as_id());
    MenuEntry { id, label: selected_label(runner.label(), selected) }
}

/// The items of the "Runner" submenu, one per runner in menu order, the
/// current runner ticked.
pub fn runner_menu_entries(settings: &Settings) -> (entries: Vec<MenuEntry>)
    ensures
        entries@.len() == runner_order().len(),
        forall|i: int|
            0 <= i < entries@.len() ==> {
                &&& (#[trigger] entries@[i]).id@ == runner_item_id(runner_order()[i])
                &&& entries@[i].label@ == selected_label_spec(
                    runner_order()[i].label_spec(),
                    runner_order()[i] == settings.runner,
                )
            },
{
    let mut entries: Vec<MenuEntry> = Vec::new();
    entries.push(runner_entry(Runner::Cat, settings.runner == Runner::Cat));
    entries.push(runner_entry(Runner::Parrot, settings.runner == Runner::Parrot));
    entries.push(runner_entry(Runner::Horse, settings.runner == Runner::Horse));
    entries
}

fn speed_entry(source: SpeedSource, selected: bool) -> (e: MenuEntry)
    ensures
        e.id@ == speed_item_id(source),
        e.label@ == selected_label_spec(source.label_spec(), selected),
{
    let label_chars = str_chars(source.label());
    let lowered = lowercase_chars(&label_chars);
    let id = crate::text::message_with("speed:", &lowered);
    MenuEntry { id, label: selected_label(source.label(), selected) }
}

/// The items of the "Speed Source" submenu, one per source in menu order,
/// the current source ticked.
pub fn speed_menu_entries(settings: &Settings) -> (entries: Vec<MenuEntry>)
    ensures
        entries@.len() == speed_order().len(),
        forall|i: int|
            0 <= i < entries@.len() ==> {
                &&& (#[trigger] entries@[i]).id@ == speed_item_id(speed_order()[i])
                &&& entries@[i].label@ == selected_label_spec(
                    speed_order()[i].label_spec(),
                    speed_order()[i] == settings.speed_source,
                )
            },
{
    let mut entries: Vec<MenuEntry> = Vec::new();
    entries.push(speed_entry(SpeedSource::Cpu, settings.speed_source == SpeedSource::Cpu));
    entries.push(speed_entry(SpeedSource::Memory, settings.speed_source == SpeedSource::Memory));
    entries
}

fn fps_entry(limit: FpsLimit, selected: bool) -> (e: MenuEntry)
    ensures
        e.id@ == fps_item_id(limit),
        e.label@ == selected_label_spec(limit.label_spec(), selected),
{
    let label_chars = str_chars(limit.label());
    let lowered = lowercase_chars(&label_chars);
    let compact = remove_spaces(&lowered);
    let id = crate::text::message_with("fps:", &compact);
    MenuEntry { id, label: selected_label(limit.label(), selected) }
}

/// The items of the "FPS Limit" submenu, one per limit in menu order, the
/// current limit ticked.
pub fn fps_menu_entries(settings: &Settings) -> (entries: Vec<MenuEntry>)
    ensures
        entries@.len() == fps_order().len(),
        forall|i: int|
            0 <= i < entries@.len() ==> {
                &&& (#[trigger] entries@[i]).id@ == fps_item_id(fps_order()[i])
                &&& entries@[i].label@ == selected_label_spec(
                    fps_order()[i].label_spec(),
                    fps_order()[i] == settings.fps_limit,
                )
            },
{
    let mut entries: Vec<MenuEntry> = Vec::new();
    entries.push(fps_entry(FpsLimit::Fps20, settings.fps_limit == FpsLimit::Fps20));
    entries.push(fps_entry(FpsLimit::Fps30, settings.fps_limit == FpsLimit::Fps30));
    entries.push(fps_entry(FpsLimit::Fps40, settings.fps_limit == FpsLimit::Fps40));
    entries
}

/// The action a menu identifier asks for: the fixed items by their exact
/// identifiers, then `runner:`, `speed:` and `fps:` followed by a name that
/// parses as a runner, speed source or limit; anything else asks for nothing.
pub open spec fn action_for_id(id: Seq<char>) -> Option<TrayAction> {
    if id == open_settings_id() {
        Some(TrayAction::OpenSettings)
    } else if id == quit_id() {
        Some(TrayAction::Quit)
    } else if id.len() >= 7 && id.take(7) == "runner:"@ {
        match Runner::from_lowered(ascii_lowercase(id.skip(7))) {
            Some(runner) => Some(TrayAction::SetRunner(runner)),
            None => None,
        }
    } else if id.len() >= 6 && id.take(6) == "speed:"@ {
        match SpeedSource::from_lowered(ascii_lowercase(id.skip(6))) {
            Some(source) => Some(TrayAction::SetSpeedSource(source)),
            None => None,
        }
    } else if id.len() >= 4 && id.take(4) == "fps:"@ {
        match FpsLimit::from_compact(FpsLimit::compact(id.skip(4))) {
            Some(limit) => Some(TrayAction::SetFpsLimit(limit)),
            None => None,
        }
    } else {
        None
    }
}

/// What choosing the menu item with this identifier asks for.
pub fn action_from_menu_id(id: &str) -> (action: Option<TrayAction>)
    ensures
        action == action_for_id(id@),
{
    let chars = str_chars(id);
    if chars_are(&chars, "open-settings") {
        return Some(TrayAction::OpenSettings);
    }
    if chars_are(&chars, "quit") {
        return Some(TrayAction::Quit);
    }
    let runner_prefix = str_chars("runner:");
    if starts_with(&chars, &runner_prefix) {
        proof {
            reveal_strlit("runner:");
        }
        let rest = chars_from(&chars, 7);
        return match Runner::parse_chars(&rest) {
            Ok(runner) => Some(TrayAction::SetRunner(runner)),
            Err(_) => None,
        };
    }
    let speed_prefix = str_chars("speed:");
    if starts_with(&chars, &speed_prefix) {
        proof {
            reveal_strlit("speed:");
        }
        let rest = chars_from(&chars, 6);
        return match SpeedSource::parse_chars(&rest) {
            Ok(source) => Some(TrayAction::SetSpeedSource(source)),
            Err(_) => None,
        };
    }
    let fps_prefix = str_chars("fps:");
    if starts_with(&chars, &fps_prefix) {
        proof {
            reveal_strlit("fps:");
        }
        let rest = chars_from(&chars, 4);
        return match FpsLimit::parse_chars(&rest) {
            Ok(limit) => Some(TrayAction::SetFpsLimit(limit)),
            Err(_) => None,
        };
    }
    proof {
        reveal_strlit("runner:");
        reveal_strlit("speed:");
        reveal_strlit("fps:");
    }
    None
}


/// The fixed items ask for opening the settings and for quitting.
pub proof fn lemma_fixed_items_map_to_actions()
    ensures
        action_for_id(open_settings_id()) == Some(TrayAction::OpenSettings),
        action_for_id(quit_id()) == Some(TrayAction::Quit),
{
    reveal_strlit("open-settings");
    reveal_strlit("quit");
}

/// Choosing a runner's item asks for that runner.
pub proof fn lemma_runner_items_map_to_actions(runner: Runner)
    ensures
        action_for_id(runner_item_id(runner)) == Some(TrayAction::SetRunner(runner)),
{
    let id = runner_item_id(runner);
    reveal_strlit("runner:");
    reveal_strlit("open-settings");
    reveal_strlit("quit");
    reveal_strlit("cat");
    reveal_strlit("parrot");
    reveal_strlit("horse");
    assert(id.take(7) =~= "runner:"@);
    assert(id.skip(7) =~= runner.id_spec());
    assert(id[0] != open_settings_id()[0]);
    assert(id[0] != quit_id()[0]);
    lemma_runner_names_parse(runner);
}

/// Choosing a speed source's item asks for that source.
pub proof fn lemma_speed_items_map_to_actions(source: SpeedSource)
    ensures
        action_for_id(speed_item_id(source)) == Some(TrayAction::SetSpeedSource(source)),
{
    let id = speed_item_id(source);
    reveal_strlit("speed:");
    reveal_strlit("runner:");
    reveal_strlit("open-settings");
    reveal_strlit("quit");
    assert(id.take(6) =~= "speed:"@);
    assert(id.skip(6) =~= ascii_lowercase(source.label_spec()));
    assert(id[0] != open_settings_id()[0]);
    assert(id[0] != quit_id()[0]);
    assert(id[0] != "runner:"@[0]);
    assert(id.len() >= 7 ==> id.take(7)[0] != "runner:"@[0]);
    lemma_speed_source_label_parses(source);
    assert(ascii_lowercase(ascii_lowercase(source.label_spec())) =~= ascii_lowercase(
        source.label_spec(),
    ));
}

/// Choosing a frame-rate limit's item asks for that limit.
pub proof fn lemma_fps_items_map_to_actions(limit: FpsLimit)
    ensures
        action_for_id(fps_item_id(limit)) == Some(TrayAction::SetFpsLimit(limit)),
{
    let id = fps_item_id(limit);
    let name = without_spaces(ascii_lowercase(limit.label_spec()));
    reveal_strlit("fps:");
    reveal_strlit("speed:");
    reveal_strlit("runner:");
    reveal_strlit("open-settings");
    reveal_strlit("quit");
    assert(id.take(4) =~= "fps:"@);
    assert(id.skip(4) =~= name);
    assert(id[0] != open_settings_id()[0]);
    assert(id[0] != quit_id()[0]);
    assert(id[0] != "runner:"@[0]);
    assert(id[0] != "speed:"@[0]);
    assert(id.len() >= 7 ==> id.take(7)[0] != "runner:"@[0]);
    assert(id.len() >= 6 ==> id.take(6)[0] != "speed:"@[0]);
    lemma_fps_limit_label_parses(limit);
    reveal_strlit("20fps");
    reveal_strlit("30fps");
    reveal_strlit("40fps");
    reveal_strlit("20 FPS");
    reveal_strlit("30 FPS");
    reveal_strlit("40 FPS");
    reveal_with_fuel(without_spaces, 7);
    assert(ascii_lowercase(limit.label_spec()) =~= match limit {
        FpsLimit::Fps20 => seq!['2', '0', ' ', 'f', 'p', 's'],
        FpsLimit::Fps30 => seq!['3', '0', ' ', 'f', 'p', 's'],
        FpsLimit::Fps40 => seq!['4', '0', ' ', 'f', 'p', 's'],
    });
    assert(FpsLimit::compact(name) =~= name);
}


/// Whether the tray icon is a template image, drawn by the system in its own
/// colours from the icon's alpha: on macOS only.
pub fn tray_icon_is_template(platform: Platform) -> (r: bool)
    ensures
        r == (platform == Platform::MacOs),
{
    match platform {
        Platform::MacOs => true,
        _ => false,
    }
}

/// The alpha a template icon gives a pixel: transparent stays transparent,
/// anything else is at least 180 so that faint pixels stay visible.
pub open spec fn template_alpha(alpha: u8) -> u8 {
    if alpha == 0 {
        0
    } else if alpha < 180 {
        180
    } else {
        alpha
    }
}

/// The template form of RGBA pixels: every whole pixel turned black with its
/// alpha raised by `template_alpha`; trailing bytes short of a pixel dropped.
pub open spec fn template_rgba(rgba: Seq<u8>) -> Seq<u8> {
    Seq::new(
        (rgba.len() / 4 * 4) as nat,
        |i: int|
            if i % 4 == 3 {
                template_alpha(rgba[i])
            } else {
                0u8
            },
    )
}

/// The pixels the tray shows for a frame: the template form on platforms
/// that draw template icons, the frame's own pixels elsewhere.
pub fn icon_rgba(frame: &RunnerFrame, platform: Platform) -> (rgba: Vec<u8>)
    ensures
        rgba@ == if tray_icon_is_template_spec(platform) {
            template_rgba(frame.rgba@)
        } else {
            frame.rgba@
        },
{
    if !tray_icon_is_template(platform) {
        let copy = frame.rgba.clone();
        assert(copy@ =~= frame.rgba@);
        return copy;
    }
    let len = frame.rgba.len();
    let pixels = len / 4;
    let mut out: Vec<u8> = Vec::new();
    let ghost target = template_rgba(frame.rgba@);
    for p in 0..pixels
        invariant
            len == frame.rgba@.len(),
            pixels == len / 4,
            target == template_rgba(frame.rgba@),
            out@ == target.take(4 * p),
    {
        assert(4 * p + 3 < len) by (nonlinear_arith)
            requires
                p < pixels,
                pixels == len / 4,
        ;
        let alpha = frame.rgba[4 * p + 3];
        let mask_alpha: u8 = if alpha == 0 {
            0
        } else if alpha < 180 {
            180
        } else {
            alpha
        };
        out.push(0);
        out.push(0);
        out.push(0);
        out.push(mask_alpha);
        assert(out@ =~= target.take(4 * p + 4));
    }
    assert(out@ =~= target);
    out
}

/// Whether the tray icon is drawn as a template on this platform.
pub open spec fn tray_icon_is_template_spec(platform: Platform) -> bool {
    platform == Platform::MacOs
}


/// A template icon keeps the frame's shape and drops its colour: it covers
/// every whole pixel, every colour byte is 0, a pixel is transparent exactly
/// when it was, and any other pixel has an alpha of at least 180.
pub proof fn lemma_template_keeps_shape(rgba: Seq<u8>, pixel: int)
    requires
        0 <= pixel < rgba.len() / 4,
    ensures
        template_rgba(rgba).len() % 4 == 0,
        template_rgba(rgba).len() + 4 > rgba.len(),
        template_rgba(rgba)[4 * pixel] == 0,
        template_rgba(rgba)[4 * pixel + 1] == 0,
        template_rgba(rgba)[4 * pixel + 2] == 0,
        (template_rgba(rgba)[4 * pixel + 3] == 0) == (rgba[4 * pixel + 3] == 0),
        rgba[4 * pixel + 3] != 0 ==> template_rgba(rgba)[4 * pixel + 3] >= 180,
{
    assert(4 * pixel + 3 < rgba.len() / 4 * 4) by (nonlinear_arith)
        requires
            0 <= pixel < rgba.len() / 4,
    ;
    assert((4 * pixel) % 4 == 0 && (4 * pixel + 1) % 4 == 1 && (4 * pixel + 2) % 4 == 2 && (4
        * pixel + 3) % 4 == 3) by (nonlinear_arith)
        requires
            0 <= pixel,
    ;
    assert((rgba.len() / 4 * 4) % 4 == 0 && rgba.len() / 4 * 4 + 4 > rgba.len()) by (
    nonlinear_arith);
}

} // verus!
