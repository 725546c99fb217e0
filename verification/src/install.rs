//! Installation: the once-only registry and the threshold a host asks for.

use vstd::prelude::*;
use vstd::string::*;
use crate::level::{emits, enabled, Level, LevelFilter};
use crate::outside::{
    ascii_lowercase, is_ascii_text, lowercase, set_max_level, to_lowercase,
};

verus! {

/// A sink is installed already; the installation that was asked for did not
/// take place.
#[derive(Clone, Copy, Debug, PartialEq, Eq, Structural)]
pub struct AlreadyInstalled;

/// The registry: empty, or holding the threshold it was installed with.
#[derive(Clone, Copy, Debug, PartialEq, Eq, Structural)]
pub struct Installer {
    pub installed: Option<LevelFilter>,
}

/// The threshold that a name stands for. Names are matched in lower case;
/// any other text stands for `Off`.
pub open spec fn filter_named(name: Seq<char>) -> LevelFilter {
    if name == "trace"@ {
        LevelFilter::Trace
    } else if name == "debug"@ {
        LevelFilter::Debug
    } else if name == "info"@ {
        LevelFilter::Info
    } else if name == "warn"@ {
        LevelFilter::Warn
    } else if name == "error"@ {
        LevelFilter::Error
    } else {
        LevelFilter::Off
    }
}

/// The threshold for the value of a variable that may be unset.
pub open spec fn filter_of_setting(setting: Option<Seq<char>>) -> LevelFilter {
    match setting {
        None => LevelFilter::Off,
        Some(value) => filter_named(lowercase(value)),
    }
}

fn same_text(left: &String, right: &str) -> (r: bool)
    ensures
        r == (left@ == right@),
{
    *left == String::from_str(right)
}

/// The table of names: the threshold that a name in lower case stands for.
pub fn level_from_lower(lower: &str) -> (level: LevelFilter)
    ensures
        level == filter_named(lower@),
{
    let name = String::from_str(lower);
    if same_text(&name, "trace") {
        LevelFilter::Trace
    } else if same_text(&name, "debug") {
        LevelFilter::Debug
    } else if same_text(&name, "info") {
        LevelFilter::Info
    } else if same_text(&name, "warn") {
        LevelFilter::Warn
    } else if same_text(&name, "error") {
        LevelFilter::Error
    } else {
        LevelFilter::Off
    }
}

/// Reads a threshold from its name, whatever the case of its letters.
pub fn level_from_name(value: &str) -> (level: LevelFilter)
    ensures
        level == filter_named(lowercase(value@)),
        is_ascii_text(value@) ==> level == filter_named(ascii_lowercase(value@)),
{
    let lower = to_lowercase(value);
    level_from_lower(lower.as_str())
}

/// The threshold that a host's environment asks for: `Off` when the variable
/// is unset, else what [`level_from_name`] makes of its value.
pub fn level_from_env(setting: Option<&str>) -> (level: LevelFilter)
    ensures
        level == filter_of_setting(
            match setting {
                None => None,
                Some(value) => Some(value@),
            },
        ),
        setting matches Some(value) ==> (is_ascii_text(value@) ==> level == filter_named(
            ascii_lowercase(value@),
        )),
{
    match setting {
        None => LevelFilter::Off,
        Some(value) => level_from_name(value),
    }
}

/// Completes an installation once the host has tried to register its sink
/// with the `log` front-end. After a registration that succeeded, the
/// threshold is handed to the front-end and the registry holds it; after one
/// that was refused, front-end and registry are left alone and the refusal
/// is handed back.
pub fn init_with_level(
    registry: &mut Installer,
    level: LevelFilter,
    registered: Result<(), log::SetLoggerError>,
) -> (r: Result<(), log::SetLoggerError>)
    ensures
        r == registered,
        registered is Ok ==> final(registry).installed == Some(level),
        registered is Err ==> *final(registry) == *old(registry),
{
    if registered.is_ok() {
        set_max_level(level);
        registry.installed = Some(level);
    }
    registered
}

/// Installation from a host's environment: the threshold is read from the
/// setting as [`level_from_env`] reads it, and the installation is completed
/// as [`init_with_level`] completes it.
pub fn init_from_env(
    registry: &mut Installer,
    setting: Option<&str>,
    registered: Result<(), log::SetLoggerError>,
) -> (r: Result<(), log::SetLoggerError>)
    ensures
        r == registered,
        registered is Ok ==> final(registry).installed == Some(
            filter_of_setting(
                match setting {
                    None => None,
                    Some(value) => Some(value@),
                },
            ),
        ),
        registered is Ok ==> (setting matches Some(value) ==> (is_ascii_text(value@)
            ==> final(registry).installed == Some(filter_named(ascii_lowercase(value@))))),
        registered is Err ==> *final(registry) == *old(registry),
{
    let level = level_from_env(setting);
    init_with_level(registry, level, registered)
}

impl Installer {
    /// The threshold in effect: `Off` until something is installed.
    pub open spec fn effective(self) -> LevelFilter {
        match self.installed {
            None => LevelFilter::Off,
            Some(level) => level,
        }
    }

    /// The registry after a request to install `level`, and the answer to
    /// the request.
    pub open spec fn after_install(self, level: LevelFilter) -> (Installer, Result<
        (),
        AlreadyInstalled,
    >) {
        match self.installed {
            None => (Installer { installed: Some(level) }, Ok(())),
            Some(_) => (self, Err(AlreadyInstalled)),
        }
    }

    /// An empty registry.
    pub fn new() -> (registry: Installer)
        ensures
            registry.installed is None,
    {
        Installer { installed: None }
    }

    /// Installs `level` if nothing is installed yet. A second request is
    /// refused and changes nothing.
    pub fn install(&mut self, level: LevelFilter) -> (r: Result<(), AlreadyInstalled>)
        ensures
            (*final(self), r) == old(self).after_install(level),
            r is Ok <==> old(self).installed is None,
    {
        match self.installed {
            None => {
                self.installed = Some(level);
                Ok(())
            },
            Some(_) => Err(AlreadyInstalled),
        }
    }

    /// The threshold in effect.
    pub fn threshold(&self) -> (level: LevelFilter)
        ensures
            level == self.effective(),
    {
        match self.installed {
            None => LevelFilter::Off,
            Some(level) => level,
        }
    }

    /// Whether a record at `level` passes the installed threshold.
    pub fn should_log(&self, level: Level) -> (r: bool)
        ensures
            r == emits(level, self.effective()),
    {
        enabled(level, self.threshold())
    }
}

/// Installation happens once: on an empty registry the first request
/// succeeds, every later one is refused, and the threshold of the first stays
/// in effect.
pub proof fn install_is_once(registry: Installer, first: LevelFilter, second: LevelFilter)
    requires
        registry.installed is None,
    ensures
        registry.after_install(first).1 is Ok,
        registry.after_install(first).0.after_install(second).1 == Err::<(), AlreadyInstalled>(
            AlreadyInstalled,
        ),
        registry.after_install(first).0.after_install(second).0 == registry.after_install(first).0,
        registry.after_install(first).0.after_install(second).0.effective() == first,
{
}

} // verus!
