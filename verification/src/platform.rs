//! The platform the app runs on, and where each platform keeps its settings.
use vstd::prelude::*;

verus! {

/// The operating-system families whose conventions the app follows.
#[derive(Clone, Copy, Debug, PartialEq, Eq, Structural)]
pub enum Platform {
    Windows,
    MacOs,
    /// A Unix other than macOS, such as Linux or a BSD.
    OtherUnix,
    /// Anything else.
    Other,
}

/// The environment values the settings location depends on, each absent when
/// unset (or, for the working directory, when it cannot be read). `P` is the
/// caller's path-like value type; it is only moved, never inspected.
pub struct ConfigEnv<P> {
    /// `APPDATA`.
    pub app_data: Option<P>,
    /// `HOME`.
    pub home: Option<P>,
    /// `XDG_CONFIG_HOME`.
    pub xdg_config_home: Option<P>,
    /// The process's working directory.
    pub current_dir: Option<P>,
}

/// A fixed path component.
#[derive(Clone, Copy, Debug, PartialEq, Eq, Structural)]
pub enum PathName {
    /// `.`, the relative current directory.
    Dot,
    /// `Library`.
    Library,
    /// `Application Support`.
    ApplicationSupport,
    /// `.config`.
    DotConfig,
    /// `RsCat`, the app's own directory.
    AppDir,
    /// `settings.toml`.
    SettingsFile,
}

impl PathName {
    pub open spec fn text_spec(self) -> Seq<char> {
        match self {
            PathName::Dot => "."@,
            PathName::Library => "Library"@,
            PathName::ApplicationSupport => "Application Support"@,
            PathName::DotConfig => ".config"@,
            PathName::AppDir => "RsCat"@,
            PathName::SettingsFile => "settings.toml"@,
        }
    }

    /// The component as text.
    pub fn text(self) -> (r: &'static str)
        ensures
            r@ == self.text_spec(),
    {
        match self {
            PathName::Dot => ".",
            PathName::Library => "Library",
            PathName::ApplicationSupport => "Application Support",
            PathName::DotConfig => ".config",
            PathName::AppDir => "RsCat",
            PathName::SettingsFile => "settings.toml",
        }
    }
}

/// One component of a path: a value taken from the environment, or a fixed name.
#[derive(Debug)]
pub enum PathPart<P> {
    Env(P),
    Name(PathName),
}

/// The components of the per-user configuration directory: `APPDATA` on
/// Windows; `$HOME/Library/Application Support` on macOS;
/// `XDG_CONFIG_HOME`, else `$HOME/.config`, on other Unixes; and, where those
/// are missing, the working directory, else `.`.
pub open spec fn config_dir_parts<P>(platform: Platform, env: ConfigEnv<P>) -> Seq<PathPart<P>> {
    let fallback = match env.current_dir {
        Some(dir) => seq![PathPart::Env(dir)],
        None => seq![PathPart::Name(PathName::Dot)],
    };
    match platform {
        Platform::Windows => match env.app_data {
            Some(dir) => seq![PathPart::Env(dir)],
            None => fallback,
        },
        Platform::MacOs => match env.home {
            Some(home) => seq![
                PathPart::Env(home),
                PathPart::Name(PathName::Library),
                PathPart::Name(PathName::ApplicationSupport),
            ],
            None => fallback,
        },
        Platform::OtherUnix => match env.xdg_config_home {
            Some(dir) => seq![PathPart::Env(dir)],
            None => match env.home {
                Some(home) => seq![PathPart::Env(home), PathPart::Name(PathName::DotConfig)],
                None => fallback,
            },
        },
        Platform::Other => fallback,
    }
}

/// The components of the settings file's path: the configuration directory,
/// then `RsCat/settings.toml`. Joining them in order (each later one relative
/// to the path so far) gives the path.
pub fn settings_path<P>(platform: Platform, env: ConfigEnv<P>) -> (parts: Vec<PathPart<P>>)
    ensures
        parts@ == config_dir_parts(platform, env) + seq![
            PathPart::Name(PathName::AppDir),
            PathPart::Name(PathName::SettingsFile),
        ],
{
    let ghost spec_env = env;
    let ConfigEnv { app_data, home, xdg_config_home, current_dir } = env;
    let mut parts: Vec<PathPart<P>> = Vec::new();
    let fallback = match current_dir {
        Some(dir) => PathPart::Env(dir),
        None => PathPart::Name(PathName::Dot),
    };
    match platform {
        Platform::Windows => match app_data {
            Some(dir) => parts.push(PathPart::Env(dir)),
            None => parts.push(fallback),
        },
        Platform::MacOs => match home {
            Some(home) => {
                parts.push(PathPart::Env(home));
                parts.push(PathPart::Name(PathName::Library));
                parts.push(PathPart::Name(PathName::ApplicationSupport));
            },
            None => parts.push(fallback),
        },
        Platform::OtherUnix => match xdg_config_home {
            Some(dir) => parts.push(PathPart::Env(dir)),
            None => match home {
                Some(home) => {
                    parts.push(PathPart::Env(home));
                    parts.push(PathPart::Name(PathName::DotConfig));
                },
                None => parts.push(fallback),
            },
        },
        Platform::Other => parts.push(fallback),
    }
    parts.push(PathPart::Name(PathName::AppDir));
    parts.push(PathPart::Name(PathName::SettingsFile));
    parts
}


/// Where each platform keeps its configuration: Windows in `APPDATA`; macOS
/// in `$HOME/Library/Application Support`; other Unixes in `XDG_CONFIG_HOME`,
/// else `$HOME/.config`, whatever the working directory is. The working
/// directory (else `.`) is used only when the platform's own variables are
/// all missing, and always on other platforms.
pub proof fn lemma_config_dir_by_platform<P>(platform: Platform, env: ConfigEnv<P>)
    ensures
        platform == Platform::Windows && env.app_data is Some ==> config_dir_parts(platform, env)
            == seq![PathPart::<P>::Env(env.app_data->Some_0)],
        platform == Platform::MacOs && env.home is Some ==> config_dir_parts(platform, env)
            == seq![
            PathPart::<P>::Env(env.home->Some_0),
            PathPart::Name(PathName::Library),
            PathPart::Name(PathName::ApplicationSupport),
        ],
        platform == Platform::OtherUnix && env.xdg_config_home is Some ==> config_dir_parts(
            platform,
            env,
        ) == seq![PathPart::<P>::Env(env.xdg_config_home->Some_0)],
        platform == Platform::OtherUnix && env.xdg_config_home is None && env.home is Some
            ==> config_dir_parts(platform, env) == seq![
            PathPart::<P>::Env(env.home->Some_0),
            PathPart::Name(PathName::DotConfig),
        ],
        ({
            let own_missing = match platform {
                Platform::Windows => env.app_data is None,
                Platform::MacOs => env.home is None,
                Platform::OtherUnix => env.xdg_config_home is None && env.home is None,
                Platform::Other => true,
            };
            own_missing ==> config_dir_parts(platform, env) == match env.current_dir {
                Some(dir) => seq![PathPart::<P>::Env(dir)],
                None => seq![PathPart::<P>::Name(PathName::Dot)],
            }
        }),
{
}

} // verus!
