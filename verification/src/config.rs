//! Run-time configuration.
//!
//! The retry budget comes from an optional INI-style configuration file
//! with a single recognized key. Reading and parsing that file happen
//! outside the crate; [`GreenbootConfig::get_config`] is handed the looked-up
//! integer, if any, and applies the fallback policy: an absent file, an
//! absent key, or a value that does not fit the counter's type silently
//! falls back to the built-in default.

use vstd::prelude::*;

verus! {

/// The default maximum number of reboot attempts before rollback.
pub const DEFAULT_MAX_REBOOT: i32 = 3;

#[derive(Clone, Copy, Debug, PartialEq, Eq, Structural)]
pub struct GreenbootConfig {
    /// Maximum reboot attempts if diagnostics fail.
    pub max_reboot: i32,
}

impl GreenbootConfig {
    /// The built-in configuration used when nothing else is available.
    pub fn set_default() -> (r: Self)
        ensures
            r.max_reboot == DEFAULT_MAX_REBOOT,
    {
        Self { max_reboot: DEFAULT_MAX_REBOOT }
    }

    /// The configured budget after the fallback policy is applied.
    pub open spec fn config_of_lookup(lookup: Option<i64>) -> Self {
        match lookup {
            Some(v) => if i32::MIN <= v <= i32::MAX {
                GreenbootConfig { max_reboot: v as i32 }
            } else {
                GreenbootConfig { max_reboot: DEFAULT_MAX_REBOOT }
            },
            None => GreenbootConfig { max_reboot: DEFAULT_MAX_REBOOT },
        }
    }

    /// Builds the configuration from the configuration file's value of the
    /// maximum-boot-attempts key, as the unverified reader found it:
    /// `None` when the file is missing, unreadable, or lacks the key. A
    /// value outside the counter's range also falls back to the default.
    pub fn get_config(lookup: Option<i64>) -> (r: Self)
        ensures
            r == Self::config_of_lookup(lookup),
    {
        match lookup {
            Some(v) => {
                if i32::MIN as i64 <= v && v <= i32::MAX as i64 {
                    Self { max_reboot: v as i32 }
                } else {
                    Self::set_default()
                }
            },
            None => Self::set_default(),
        }
    }
}

/// Verbosity choices offered on the command line.
#[derive(Clone, Copy, Debug, PartialEq, Eq, PartialOrd, Ord, Structural)]
pub enum LogLevel {
    Trace,
    Debug,
    Info,
    Warn,
    Error,
    Off,
}

#[verifier::external_type_specification]
#[verifier::external_body]
pub struct ExLevelFilter(log::LevelFilter);

impl LogLevel {
    /// Relies on `log::LevelFilter` naming the same six verbosity levels;
    /// the body maps each level to its counterpart, one arm each.
    #[verifier::external_body]
    pub fn to_log(self) -> log::LevelFilter {
        match self {
            LogLevel::Trace => log::LevelFilter::Trace,
            LogLevel::Debug => log::LevelFilter::Debug,
            LogLevel::Info => log::LevelFilter::Info,
            LogLevel::Warn => log::LevelFilter::Warn,
            LogLevel::Error => log::LevelFilter::Error,
            LogLevel::Off => log::LevelFilter::Off,
        }
    }
}

} // verus!
