//! User-selectable settings: the runner, theme, speed source and frame-rate limit.
use crate::text::{
    ascii_lowercase, chars_are, lowercase_chars, message_with, remove_spaces, str_chars,
    without_spaces,
};
use vstd::prelude::*;

verus! {

/// The animated character shown in the tray.
#[derive(Clone, Copy, Debug, PartialEq, Eq, Structural)]
pub enum Runner {
    Cat,
    Parrot,
    Horse,
}

impl Runner {
    /// Every runner, in menu order.
    pub const ALL: [Runner; 3] = [Runner::Cat, Runner::Parrot, Runner::Horse];

    /// The stable identifier of a runner.
    pub open spec fn id_spec(self) -> Seq<char> {
        match self {
            Runner::Cat => "cat"@,
            Runner::Parrot => "parrot"@,
            Runner::Horse => "horse"@,
        }
    }

    /// The human-readable name of a runner.
    pub open spec fn label_spec(self) -> Seq<char> {
        match self {
            Runner::Cat => "Cat"@,
            Runner::Parrot => "Parrot"@,
            Runner::Horse => "Horse"@,
        }
    }

    /// The runner named by an already lower-cased identifier.
    pub open spec fn from_lowered(s: Seq<char>) -> Option<Runner> {
        if s == "cat"@ {
            Some(Runner::Cat)
        } else if s == "parrot"@ {
            Some(Runner::Parrot)
        } else if s == "horse"@ {
            Some(Runner::Horse)
        } else {
            None
        }
    }

    pub fn as_id(self) -> (r: &'static str)
        ensures
            r@ == self.id_spec(),
    {
        match self {
            Runner::Cat => "cat",
            Runner::Parrot => "parrot",
            Runner::Horse => "horse",
        }
    }

    pub fn label(self) -> (r: &'static str)
        ensures
            r@ == self.label_spec(),
    {
        match self {
            Runner::Cat => "Cat",
            Runner::Parrot => "Parrot",
            Runner::Horse => "Horse",
        }
    }

    /// Parses a runner identifier, ignoring ASCII case.
    pub fn parse_chars(value: &Vec<char>) -> (r: Result<Runner, String>)
        ensures
            match r {
                Ok(runner) => Runner::from_lowered(ascii_lowercase(value@)) == Some(runner),
                Err(message) => Runner::from_lowered(ascii_lowercase(value@)) is None
                    && message@ == "unsupported runner: "@ + ascii_lowercase(value@),
            },
    {
        let lowered = lowercase_chars(value);
        if chars_are(&lowered, "cat") {
            Ok(Runner::Cat)
        } else if chars_are(&lowered, "parrot") {
            Ok(Runner::Parrot)
        } else if chars_are(&lowered, "horse") {
            Ok(Runner::Horse)
        } else {
            Err(message_with("unsupported runner: ", &lowered))
        }
    }

    /// Parses a name given as a string slice; see `parse_chars`.
    pub fn parse(value: &str) -> (r: Result<Runner, String>)
        ensures
            match r {
                Ok(runner) => Runner::from_lowered(ascii_lowercase(value@)) == Some(runner),
                Err(message) => Runner::from_lowered(ascii_lowercase(value@)) is None
                    && message@ == "unsupported runner: "@ + ascii_lowercase(value@),
            },
    {
        let chars = str_chars(value);
        Self::parse_chars(&chars)
    }
}

impl Default for Runner {
    fn default() -> (r: Self)
        ensures
            r == Runner::Cat,
    {
        Runner::Cat
    }
}

impl core::str::FromStr for Runner {
    type Err = String;

    fn from_str(value: &str) -> (r: Result<Self, Self::Err>)
        ensures
            match r {
                Ok(runner) => Runner::from_lowered(ascii_lowercase(value@)) == Some(runner),
                Err(message) => Runner::from_lowered(ascii_lowercase(value@)) is None && message@ == "unsupported runner: "@ + ascii_lowercase(value@),
            },
    {
        Runner::parse(value)
    }
}


/// The colour scheme of the settings window.
#[derive(Clone, Copy, Debug, PartialEq, Eq, Structural)]
pub enum Theme {
    System,
    Light,
    Dark,
}

impl Theme {
    /// Every theme, in menu order.
    pub const ALL: [Theme; 3] = [Theme::System, Theme::Light, Theme::Dark];

    /// The human-readable name of a theme.
    pub open spec fn label_spec(self) -> Seq<char> {
        match self {
            Theme::System => "System"@,
            Theme::Light => "Light"@,
            Theme::Dark => "Dark"@,
        }
    }

    /// The theme named by an already lower-cased name.
    pub open spec fn from_lowered(s: Seq<char>) -> Option<Theme> {
        if s == "system"@ {
            Some(Theme::System)
        } else if s == "light"@ {
            Some(Theme::Light)
        } else if s == "dark"@ {
            Some(Theme::Dark)
        } else {
            None
        }
    }

    pub fn label(self) -> (r: &'static str)
        ensures
            r@ == self.label_spec(),
    {
        match self {
            Theme::System => "System",
            Theme::Light => "Light",
            Theme::Dark => "Dark",
        }
    }

    /// Parses a theme name, ignoring ASCII case.
    pub fn parse_chars(value: &Vec<char>) -> (r: Result<Theme, String>)
        ensures
            match r {
                Ok(theme) => Theme::from_lowered(ascii_lowercase(value@)) == Some(theme),
                Err(message) => Theme::from_lowered(ascii_lowercase(value@)) is None
                    && message@ == "unsupported theme: "@ + ascii_lowercase(value@),
            },
    {
        let lowered = lowercase_chars(value);
        if chars_are(&lowered, "system") {
            Ok(Theme::System)
        } else if chars_are(&lowered, "light") {
            Ok(Theme::Light)
        } else if chars_are(&lowered, "dark") {
            Ok(Theme::Dark)
        } else {
            Err(message_with("unsupported theme: ", &lowered))
        }
    }

    /// Parses a name given as a string slice; see `parse_chars`.
    pub fn parse(value: &str) -> (r: Result<Theme, String>)
        ensures
            match r {
                Ok(theme) => Theme::from_lowered(ascii_lowercase(value@)) == Some(theme),
                Err(message) => Theme::from_lowered(ascii_lowercase(value@)) is None
                    && message@ == "unsupported theme: "@ + ascii_lowercase(value@),
            },
    {
        let chars = str_chars(value);
        Self::parse_chars(&chars)
    }
}

impl Default for Theme {
    fn default() -> (r: Self)
        ensures
            r == Theme::System,
    {
        Theme::System
    }
}

impl core::str::FromStr for Theme {
    type Err = String;

    fn from_str(value: &str) -> (r: Result<Self, Self::Err>)
        ensures
            match r {
                Ok(theme) => Theme::from_lowered(ascii_lowercase(value@)) == Some(theme),
                Err(message) => Theme::from_lowered(ascii_lowercase(value@)) is None && message@ == "unsupported theme: "@ + ascii_lowercase(value@),
            },
    {
        Theme::parse(value)
    }
}

/// Which system load drives the animation speed.
#[derive(Clone, Copy, Debug, PartialEq, Eq, Structural)]
pub enum SpeedSource {
    Cpu,
    Memory,
}

impl SpeedSource {
    /// Every speed source, in menu order.
    pub const ALL: [SpeedSource; 2] = [SpeedSource::Cpu, SpeedSource::Memory];

    /// The human-readable name of a speed source.
    pub open spec fn label_spec(self) -> Seq<char> {
        match self {
            SpeedSource::Cpu => "CPU"@,
            SpeedSource::Memory => "Memory"@,
        }
    }

    /// The speed source named by an already lower-cased name.
    pub open spec fn from_lowered(s: Seq<char>) -> Option<SpeedSource> {
        if s == "cpu"@ {
            Some(SpeedSource::Cpu)
        } else if s == "memory"@ {
            Some(SpeedSource::Memory)
        } else {
            None
        }
    }

    pub fn label(self) -> (r: &'static str)
        ensures
            r@ == self.label_spec(),
    {
        match self {
            SpeedSource::Cpu => "CPU",
            SpeedSource::Memory => "Memory",
        }
    }

    /// Parses a speed source name, ignoring ASCII case.
    pub fn parse_chars(value: &Vec<char>) -> (r: Result<SpeedSource, String>)
        ensures
            match r {
                Ok(source) => SpeedSource::from_lowered(ascii_lowercase(value@)) == Some(source),
                Err(message) => SpeedSource::from_lowered(ascii_lowercase(value@)) is None
                    && message@ == "unsupported speed source: "@ + ascii_lowercase(value@),
            },
    {
        let lowered = lowercase_chars(value);
        if chars_are(&lowered, "cpu") {
            Ok(SpeedSource::Cpu)
        } else if chars_are(&lowered, "memory") {
            Ok(SpeedSource::Memory)
        } else {
            Err(message_with("unsupported speed source: ", &lowered))
        }
    }

    /// Parses a name given as a string slice; see `parse_chars`.
    pub fn parse(value: &str) -> (r: Result<SpeedSource, String>)
        ensures
            match r {
                Ok(source) => SpeedSource::from_lowered(ascii_lowercase(value@)) == Some(source),
                Err(message) => SpeedSource::from_lowered(ascii_lowercase(value@)) is None
                    && message@ == "unsupported speed source: "@ + ascii_lowercase(value@),
            },
    {
        let chars = str_chars(value);
        Self::parse_chars(&chars)
    }
}

impl Default for SpeedSource {
    fn default() -> (r: Self)
        ensures
            r == SpeedSource::Cpu,
    {
        SpeedSource::Cpu
    }
}

impl core::str::FromStr for SpeedSource {
    type Err = String;

    fn from_str(value: &str) -> (r: Result<Self, Self::Err>)
        ensures
            match r {
                Ok(source) => SpeedSource::from_lowered(ascii_lowercase(value@)) == Some(source),
                Err(message) => SpeedSource::from_lowered(ascii_lowercase(value@)) is None && message@ == "unsupported speed source: "@ + ascii_lowercase(value@),
            },
    {
        SpeedSource::parse(value)
    }
}

/// The highest animation frame rate the user allows.
#[derive(Clone, Copy, Debug, PartialEq, Eq, Structural)]
pub enum FpsLimit {
    Fps20,
    Fps30,
    Fps40,
}

impl FpsLimit {
    /// Every limit, in menu order.
    pub const ALL: [FpsLimit; 3] = [FpsLimit::Fps20, FpsLimit::Fps30, FpsLimit::Fps40];

    /// The human-readable name of a limit.
    pub open spec fn label_spec(self) -> Seq<char> {
        match self {
            FpsLimit::Fps20 => "20 FPS"@,
            FpsLimit::Fps30 => "30 FPS"@,
            FpsLimit::Fps40 => "40 FPS"@,
        }
    }

    /// The limit named by a lower-cased name with its spaces removed.
    pub open spec fn from_compact(s: Seq<char>) -> Option<FpsLimit> {
        if s == "20fps"@ || s == "fps20"@ {
            Some(FpsLimit::Fps20)
        } else if s == "30fps"@ || s == "fps30"@ {
            Some(FpsLimit::Fps30)
        } else if s == "40fps"@ || s == "fps40"@ {
            Some(FpsLimit::Fps40)
        } else {
            None
        }
    }

    /// The lower-cased, space-free form in which limits are compared.
    pub open spec fn compact(s: Seq<char>) -> Seq<char> {
        without_spaces(ascii_lowercase(s))
    }

    pub fn label(self) -> (r: &'static str)
        ensures
            r@ == self.label_spec(),
    {
        match self {
            FpsLimit::Fps20 => "20 FPS",
            FpsLimit::Fps30 => "30 FPS",
            FpsLimit::Fps40 => "40 FPS",
        }
    }

    /// Parses a limit such as "40 FPS", "40fps" or "fps40", ignoring ASCII
    /// case and spaces.
    pub fn parse_chars(value: &Vec<char>) -> (r: Result<FpsLimit, String>)
        ensures
            match r {
                Ok(limit) => FpsLimit::from_compact(FpsLimit::compact(value@)) == Some(limit),
                Err(message) => FpsLimit::from_compact(FpsLimit::compact(value@)) is None
                    && message@ == "unsupported fps limit: "@ + FpsLimit::compact(value@),
            },
    {
        let lowered = lowercase_chars(value);
        let compact = remove_spaces(&lowered);
        if chars_are(&compact, "20fps") || chars_are(&compact, "fps20") {
            Ok(FpsLimit::Fps20)
        } else if chars_are(&compact, "30fps") || chars_are(&compact, "fps30") {
            Ok(FpsLimit::Fps30)
        } else if chars_are(&compact, "40fps") || chars_are(&compact, "fps40") {
            Ok(FpsLimit::Fps40)
        } else {
            Err(message_with("unsupported fps limit: ", &compact))
        }
    }

    /// Parses a limit given as a string slice; see `parse_chars`.
    pub fn parse(value: &str) -> (r: Result<FpsLimit, String>)
        ensures
            match r {
                Ok(limit) => FpsLimit::from_compact(FpsLimit::compact(value@)) == Some(limit),
                Err(message) => FpsLimit::from_compact(FpsLimit::compact(value@)) is None
                    && message@ == "unsupported fps limit: "@ + FpsLimit::compact(value@),
            },
    {
        let chars = str_chars(value);
        Self::parse_chars(&chars)
    }
}

impl Default for FpsLimit {
    fn default() -> (r: Self)
        ensures
            r == FpsLimit::Fps40,
    {
        FpsLimit::Fps40
    }
}

impl core::str::FromStr for FpsLimit {
    type Err = String;

    fn from_str(value: &str) -> (r: Result<Self, Self::Err>)
        ensures
            match r {
                Ok(limit) => FpsLimit::from_compact(FpsLimit::compact(value@)) == Some(limit),
                Err(message) => FpsLimit::from_compact(FpsLimit::compact(value@)) is None && message@ == "unsupported fps limit: "@ + FpsLimit::compact(value@),
            },
    {
        FpsLimit::parse(value)
    }
}

/// Everything the user can choose, as stored between runs.
#[derive(Clone, Copy, Debug)]
pub struct Settings {
    pub runner: Runner,
    pub theme: Theme,
    pub speed_source: SpeedSource,
    pub fps_limit: FpsLimit,
    pub launch_at_startup: bool,
    pub first_launch: bool,
}

impl Default for Settings {
    /// The settings of a first launch: the cat, the system theme, CPU-driven
    /// speed at up to 40 FPS, not launched at startup.
    fn default() -> (s: Self)
        ensures
            s.runner == Runner::Cat,
            s.theme == Theme::System,
            s.speed_source == SpeedSource::Cpu,
            s.fps_limit == FpsLimit::Fps40,
            !s.launch_at_startup,
            s.first_launch,
    {
        Settings {
            runner: Runner::default(),
            theme: Theme::default(),
            speed_source: SpeedSource::default(),
            fps_limit: FpsLimit::default(),
            launch_at_startup: false,
            first_launch: true,
        }
    }
}


/// A runner's identifier and its label both parse back to that runner.
pub proof fn lemma_runner_names_parse(r: Runner)
    ensures
        Runner::from_lowered(ascii_lowercase(r.id_spec())) == Some(r),
        Runner::from_lowered(ascii_lowercase(r.label_spec())) == Some(r),
{
    reveal_strlit("cat");
    reveal_strlit("parrot");
    reveal_strlit("horse");
    reveal_strlit("Cat");
    reveal_strlit("Parrot");
    reveal_strlit("Horse");
    assert(ascii_lowercase("cat"@) == "cat"@);
    assert(ascii_lowercase("parrot"@) == "parrot"@);
    assert(ascii_lowercase("horse"@) == "horse"@);
    assert(ascii_lowercase("Cat"@) == "cat"@);
    assert(ascii_lowercase("Parrot"@) == "parrot"@);
    assert(ascii_lowercase("Horse"@) == "horse"@);
}


/// A theme's label parses back to that theme.
pub proof fn lemma_theme_label_parses(t: Theme)
    ensures
        Theme::from_lowered(ascii_lowercase(t.label_spec())) == Some(t),
{
    reveal_strlit("system");
    reveal_strlit("light");
    reveal_strlit("dark");
    reveal_strlit("System");
    reveal_strlit("Light");
    reveal_strlit("Dark");
    assert(ascii_lowercase("System"@) == "system"@);
    assert(ascii_lowercase("Light"@) == "light"@);
    assert(ascii_lowercase("Dark"@) == "dark"@);
}

/// A speed source's label parses back to that source.
pub proof fn lemma_speed_source_label_parses(source: SpeedSource)
    ensures
        SpeedSource::from_lowered(ascii_lowercase(source.label_spec())) == Some(source),
{
    reveal_strlit("cpu");
    reveal_strlit("memory");
    reveal_strlit("CPU");
    reveal_strlit("Memory");
    assert(ascii_lowercase("CPU"@) == "cpu"@);
    assert(ascii_lowercase("Memory"@) == "memory"@);
}

/// A frame-rate limit's label parses back to that limit.
pub proof fn lemma_fps_limit_label_parses(limit: FpsLimit)
    ensures
        FpsLimit::from_compact(FpsLimit::compact(limit.label_spec())) == Some(limit),
{
    reveal_strlit("20fps");
    reveal_strlit("30fps");
    reveal_strlit("40fps");
    reveal_strlit("fps20");
    reveal_strlit("fps30");
    reveal_strlit("fps40");
    reveal_strlit("20 FPS");
    reveal_strlit("30 FPS");
    reveal_strlit("40 FPS");
    reveal_with_fuel(without_spaces, 7);
    assert(ascii_lowercase("20 FPS"@) == seq!['2', '0', ' ', 'f', 'p', 's']);
    assert(ascii_lowercase("30 FPS"@) == seq!['3', '0', ' ', 'f', 'p', 's']);
    assert(ascii_lowercase("40 FPS"@) == seq!['4', '0', ' ', 'f', 'p', 's']);
    assert(without_spaces(seq!['2', '0', ' ', 'f', 'p', 's']) == "20fps"@);
    assert(without_spaces(seq!['3', '0', ' ', 'f', 'p', 's']) == "30fps"@);
    assert(without_spaces(seq!['4', '0', ' ', 'f', 'p', 's']) == "40fps"@);
    assert("30fps"@[0] != "20fps"@[0] && "30fps"@[0] != "fps20"@[0]);
    assert("40fps"@[0] != "20fps"@[0] && "40fps"@[0] != "fps20"@[0]);
    assert("40fps"@[0] != "30fps"@[0] && "40fps"@[0] != "fps30"@[0]);
}


/// The digits of a limit's frame rate.
pub open spec fn fps_digits(limit: FpsLimit) -> Seq<char> {
    match limit {
        FpsLimit::Fps20 => seq!['2', '0'],
        FpsLimit::Fps30 => seq!['3', '0'],
        FpsLimit::Fps40 => seq!['4', '0'],
    }
}

/// Both written forms of every limit parse to it: its rate followed by
/// `fps`, and `fps` followed by its rate, in any ASCII case.
pub proof fn lemma_fps_limit_forms_parse(limit: FpsLimit)
    ensures
        FpsLimit::from_compact(FpsLimit::compact(fps_digits(limit) + seq!['f', 'p', 's']))
            == Some(limit),
        FpsLimit::from_compact(FpsLimit::compact(seq!['f', 'p', 's'] + fps_digits(limit)))
            == Some(limit),
        FpsLimit::from_compact(FpsLimit::compact(seq!['F', 'P', 'S'] + fps_digits(limit)))
            == Some(limit),
{
    reveal_strlit("20fps");
    reveal_strlit("30fps");
    reveal_strlit("40fps");
    reveal_strlit("fps20");
    reveal_strlit("fps30");
    reveal_strlit("fps40");
    reveal_with_fuel(without_spaces, 6);
    let d = fps_digits(limit);
    let a = d + seq!['f', 'p', 's'];
    let b = seq!['f', 'p', 's'] + d;
    let c = seq!['F', 'P', 'S'] + d;
    assert(ascii_lowercase(a) =~= a);
    assert(ascii_lowercase(b) =~= b);
    assert(ascii_lowercase(c) =~= b);
    assert(without_spaces(a) =~= a);
    assert(without_spaces(b) =~= b);
    assert("30fps"@[0] != "20fps"@[0] && "30fps"@[0] != "fps20"@[0]);
    assert("40fps"@[0] != "20fps"@[0] && "40fps"@[0] != "fps20"@[0]);
    assert("40fps"@[0] != "30fps"@[0] && "40fps"@[0] != "fps30"@[0]);
    assert("fps30"@[3] != "20fps"@[3] && "fps30"@[3] != "fps20"@[3]);
    assert("fps40"@[3] != "20fps"@[3] && "fps40"@[3] != "fps20"@[3]);
    assert("fps40"@[3] != "30fps"@[3] && "fps40"@[3] != "fps30"@[3]);
    assert(a == "20fps"@ || a == "30fps"@ || a == "40fps"@);
    assert(b == "fps20"@ || b == "fps30"@ || b == "fps40"@);
}

} // verus!
