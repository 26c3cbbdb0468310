use vstd::prelude::*;

verus! {

/// The tool that a user may pick as the first choice for installing packages.
#[derive(Clone, Copy, Debug, PartialEq, Eq, Structural)]
pub enum Backend {
    /// The distribution's own package manager.
    SystemPM,
    /// The helper that also builds packages from the user repository.
    AurHelper,
}

/// How progress is drawn on the terminal; it never changes what is run.
#[derive(Clone, Copy, Debug, PartialEq, Eq, Structural)]
pub enum ProgressStyle {
    Fancy,
    Simple,
}

/// The user's settings, as written in the configuration file.
#[derive(Clone, Debug)]
pub struct Settings {
    pub default_manager: String,
    pub confirm: bool,
    pub progress_style: String,
}

/// The whole configuration file.
#[derive(Clone, Debug)]
pub struct Config {
    pub settings: Settings,
}

/// The backend that a `default_manager` value names, if it names one.
pub open spec fn backend_of(name: Seq<char>) -> Option<Backend> {
    if name == "pacman"@ {
        Some(Backend::SystemPM)
    } else if name == "yay"@ {
        Some(Backend::AurHelper)
    } else {
        None
    }
}

/// The style that a `progress_style` value selects: anything unknown draws
/// the decorated bar.
pub open spec fn style_of(name: Seq<char>) -> ProgressStyle {
    if name == "simple"@ {
        ProgressStyle::Simple
    } else {
        ProgressStyle::Fancy
    }
}

/// The settings used when no configuration file can be read.
pub open spec fn is_default_settings(s: Settings) -> bool {
    &&& s.default_manager@ == "pacman"@
    &&& !s.confirm
    &&& s.progress_style@ == "fancy"@
}

impl Default for Settings {
    fn default() -> (r: Settings)
        ensures
            is_default_settings(r),
    {
        Settings {
            default_manager: "pacman".to_owned(),
            confirm: false,
            progress_style: "fancy".to_owned(),
        }
    }
}

impl Default for Config {
    fn default() -> (r: Config)
        ensures
            is_default_settings(r.settings),
    {
        Config { settings: Settings::default() }
    }
}

impl Settings {
    /// The backend tried first when installing, or `None` where the
    /// configured name is not one that is known.
    pub fn primary_backend(&self) -> (r: Option<Backend>)
        ensures
            r == backend_of(self.default_manager@),
    {
        let pacman = "pacman".to_owned();
        let yay = "yay".to_owned();
        if self.default_manager == pacman {
            Some(Backend::SystemPM)
        } else if self.default_manager == yay {
            Some(Backend::AurHelper)
        } else {
            None
        }
    }

    /// The progress style to draw with.
    pub fn style(&self) -> (r: ProgressStyle)
        ensures
            r == style_of(self.progress_style@),
    {
        let simple = "simple".to_owned();
        if self.progress_style == simple {
            ProgressStyle::Simple
        } else {
            ProgressStyle::Fancy
        }
    }
}

} // verus!
