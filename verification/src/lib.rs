//! Core logic of a tray "runner" animation app: settings and their parsing,
//! the animation clock, runner frames, memory figures and byte formatting, the
//! tray menu's items and actions, and where settings are stored.
pub mod animation;
pub mod assets;
pub mod metrics;
pub mod platform;
pub mod settings;
pub mod startup;
pub mod text;
pub mod tray;

pub use animation::AnimationClock;
pub use assets::{load_runner_frames, FrameSet, RunnerFrame};
pub use metrics::{format_bytes, MemoryUsage, SampleWindow};
pub use platform::{settings_path, ConfigEnv, PathName, PathPart, Platform};
pub use settings::{FpsLimit, Runner, Settings, SpeedSource, Theme};
pub use startup::{get_startup_state, set_startup_enabled, StartupState};
pub use tray::{action_from_menu_id, MenuEntry, TrayAction};
