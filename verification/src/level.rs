//! The severity levels of GELF, and how the levels of `slog` map to them.

use slog::Level as SlogLevel;
use vstd::prelude::*;
use vstd::std_specs::convert::FromSpecImpl;

verus! {

/// The severity of a log event on GELF's scale, which is that of syslog.
#[derive(Clone, Copy, Debug, PartialEq, Eq, Structural)]
pub enum Level {
    Emergency,
    Alert,
    Critical,
    Error,
    Warning,
    Notice,
    Informational,
    Debug,
}

/// The level of a record of `slog`, `slog::Level`. Nothing of a value is
/// seen here but the number that `as_usize` gives for it.
#[verifier::external_type_specification]
#[verifier::external_body]
pub struct ExSlogLevel(SlogLevel);

/// The number that `slog::Level::as_usize` gives for a level of `slog`.
pub uninterp spec fn slog_rank(level: SlogLevel) -> usize;

/// `slog::Level::as_usize` gives a level of `slog` its number: always the
/// same one for the same level, and one from 1 to 6. In the source of `slog`
/// that is 1 for `Critical`, then `Error`, `Warning`, `Info` and `Debug`, and
/// 6 for `Trace`; of which level has which number nothing is claimed here.
pub assume_specification[ SlogLevel::as_usize ](level: &SlogLevel) -> (rank: usize)
    ensures
        rank == slog_rank(*level),
        1 <= rank <= 6,
;

impl Level {
    /// The number of the level in a GELF document: 0 for the most severe
    /// level, 7 for the least severe one.
    pub open spec fn spec_code(self) -> u8 {
        match self {
            Level::Emergency => 0,
            Level::Alert => 1,
            Level::Critical => 2,
            Level::Error => 3,
            Level::Warning => 4,
            Level::Notice => 5,
            Level::Informational => 6,
            Level::Debug => 7,
        }
    }

    /// The number of the level in a GELF document: 0 for the most severe
    /// level, 7 for the least severe one.
    #[verifier::when_used_as_spec(spec_code)]
    pub fn code(self) -> (code: u8)
        ensures
            code == self.spec_code(),
    {
        match self {
            Level::Emergency => 0,
            Level::Alert => 1,
            Level::Critical => 2,
            Level::Error => 3,
            Level::Warning => 4,
            Level::Notice => 5,
            Level::Informational => 6,
            Level::Debug => 7,
        }
    }

    /// The GELF level for the level that `slog` numbers `rank`, from 1 for
    /// its most severe level to 6 for its least severe one: critical, error
    /// and warning keep their names, info is informational, and both debug
    /// and trace are debug.
    pub open spec fn of_rank(rank: usize) -> Level {
        if rank == 1 {
            Level::Critical
        } else if rank == 2 {
            Level::Error
        } else if rank == 3 {
            Level::Warning
        } else if rank == 4 {
            Level::Informational
        } else {
            Level::Debug
        }
    }

    /// The GELF level for the level that `slog` numbers `rank`, if `slog`
    /// has a level of that number.
    pub fn from_rank(rank: usize) -> (level: Option<Level>)
        ensures
            1 <= rank <= 6 ==> level == Some(Level::of_rank(rank)),
            !(1 <= rank <= 6) ==> level is None,
    {
        if rank == 1 {
            Some(Level::Critical)
        } else if rank == 2 {
            Some(Level::Error)
        } else if rank == 3 {
            Some(Level::Warning)
        } else if rank == 4 {
            Some(Level::Informational)
        } else if rank == 5 || rank == 6 {
            Some(Level::Debug)
        } else {
            None
        }
    }
}

impl From<SlogLevel> for Level {
    /// The GELF level for a level of `slog`.
    fn from(level: SlogLevel) -> (result: Level) {
        Level::from_rank(level.as_usize()).unwrap()
    }
}

impl FromSpecImpl<SlogLevel> for Level {
    open spec fn obeys_from_spec() -> bool {
        true
    }

    open spec fn from_spec(level: SlogLevel) -> Level {
        Level::of_rank(slog_rank(level))
    }
}

} // verus!
