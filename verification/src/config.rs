//! Process configuration and startup resolution of the reference hostname.

use vstd::prelude::*;
use crate::trim::{is_trimmed, lemma_trim_is_trimmed, spec_trim, trim};

verus! {

/// Verbosity of the daemon's logging, chosen once at startup.
#[derive(Clone, Copy, Debug, PartialEq, Eq)]
pub enum LogLevel {
    Error,
    Warn,
    Info,
    Debug,
    Trace,
}

/// The daemon's configuration: read once at process start, immutable
/// afterwards.
#[derive(Debug, Clone)]
pub struct Config {
    /// Seconds between two reconciliation cycles; positive.
    pub check_interval: u16,
    /// Hostname to check for, instead of the one the operating system
    /// reports.
    pub overwrite_hostname: Option<String>,
    /// Unit name of the advertising service, handed to the restart call.
    pub service_name: String,
    /// Logging verbosity.
    pub log_level: LogLevel,
}

impl Config {
    /// A well-formed configuration polls on a positive interval.
    pub open spec fn wf(self) -> bool {
        self.check_interval >= 1
    }
}

/// The one fatal startup condition: no usable hostname, neither overridden
/// nor reported by the operating system.
#[derive(Clone, Copy, Debug, PartialEq, Eq)]
pub enum StartupError {
    HostnameUnavailable,
}

/// The hostnames of an `Option<String>`, as sequences of characters.
pub open spec fn opt_chars(o: Option<String>) -> Option<Seq<char>> {
    match o {
        Option::Some(s) => Option::Some(s@),
        Option::None => Option::None,
    }
}

/// The reference hostname that a given override and operating-system report
/// resolve to: the trimmed override if that is non-empty, else the trimmed
/// system hostname if that is non-empty, else nothing.
pub open spec fn spec_resolve(overwrite: Option<Seq<char>>, os: Option<Seq<char>>) -> Option<
    Seq<char>,
> {
    let ow = match overwrite {
        Option::Some(h) => spec_trim(h),
        Option::None => Seq::empty(),
    };
    let osn = match os {
        Option::Some(h) => spec_trim(h),
        Option::None => Seq::empty(),
    };
    if ow.len() > 0 {
        Option::Some(ow)
    } else if osn.len() > 0 {
        Option::Some(osn)
    } else {
        Option::None
    }
}

/// Resolves the reference hostname once, at startup. An override that is
/// empty after trimming counts as absent; failure is fatal to the process
/// and happens exactly when neither source yields a non-empty hostname.
pub fn resolve_reference(overwrite: &Option<String>, os_hostname: &Option<String>) -> (r: Result<
    String,
    StartupError,
>)
    ensures
        match r {
            Result::Ok(h) => {
                &&& spec_resolve(opt_chars(*overwrite), opt_chars(*os_hostname))
                    == Option::Some(h@)
                &&& is_trimmed(h@)
                &&& h@.len() > 0
            },
            Result::Err(e) => {
                &&& spec_resolve(opt_chars(*overwrite), opt_chars(*os_hostname)) is None
                &&& e == StartupError::HostnameUnavailable
            },
        },
{
    if let Option::Some(h) = overwrite {
        let t = trim(h.as_str());
        if !t.as_str().is_empty() {
            proof {
                lemma_trim_is_trimmed(h@);
            }
            return Result::Ok(t);
        }
    }
    if let Option::Some(h) = os_hostname {
        let t = trim(h.as_str());
        if !t.as_str().is_empty() {
            proof {
                lemma_trim_is_trimmed(h@);
            }
            return Result::Ok(t);
        }
    }
    Result::Err(StartupError::HostnameUnavailable)
}

} // verus!
