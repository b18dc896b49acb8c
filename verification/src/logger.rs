//! The guard around the process-wide logger.
//!
//! The logger is installed once in the life of the process, by the first
//! call of `init`; every later call leaves it alone. A call of `copy` does
//! not ask whether it is there.

use vstd::prelude::*;

verus! {

/// Whether the process has its logger.
#[derive(Debug, Clone, Copy, PartialEq, Eq, Structural)]
pub enum Logger {
    /// No call of `init` has been made.
    Absent,
    /// A call of `init` has been made.
    Installed,
}

/// What a call of `init` is to do.
#[derive(Debug, Clone, Copy, PartialEq, Eq, Structural)]
pub enum Setup {
    /// Install the logger, with the verbosity that the environment names.
    Install,
    /// Leave the logger as it is.
    Skip,
}

/// One call of `init`: the logger is there afterwards, and is installed by
/// this call exactly where it was absent.
pub open spec fn init_of(logger: Logger) -> (Logger, Setup) {
    (
        Logger::Installed,
        if logger == Logger::Absent {
            Setup::Install
        } else {
            Setup::Skip
        },
    )
}

/// What `calls` calls of `init` in a row come to: whether the logger is
/// there afterwards, and how often it was installed on the way.
pub open spec fn init_times(logger: Logger, calls: nat) -> (Logger, nat)
    decreases calls,
{
    if calls == 0 {
        (logger, 0)
    } else {
        let (before, installs) = init_times(logger, (calls - 1) as nat);
        let (after, setup) = init_of(before);
        (
            after,
            if setup == Setup::Install {
                installs + 1
            } else {
                installs
            },
        )
    }
}

/// Decides what a call of `init` does, given whether the logger is there.
pub fn init(logger: Logger) -> (outcome: (Logger, Setup))
    ensures
        outcome == init_of(logger),
{
    match logger {
        Logger::Absent => (Logger::Installed, Setup::Install),
        Logger::Installed => (Logger::Installed, Setup::Skip),
    }
}

/// `init` is idempotent: any number of calls, one at least, leaves the
/// logger as one call does, and has installed it as often as one call has.
pub proof fn lemma_init_is_idempotent(logger: Logger, calls: nat)
    requires
        calls >= 1,
    ensures
        init_times(logger, calls) == init_times(logger, 1),
        init_times(logger, calls).0 == Logger::Installed,
        init_times(logger, calls).1 <= 1,
    decreases calls,
{
    reveal_with_fuel(init_times, 2);
    if calls > 1 {
        lemma_init_is_idempotent(logger, (calls - 1) as nat);
    }
}

} // verus!
