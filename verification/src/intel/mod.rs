pub mod apollolake;
pub mod common;

use vstd::prelude::*;

verus! {

/// Failures of the Intel SoC drivers.
#[derive(Debug, Clone, Copy, PartialEq, Eq, Structural)]
pub enum Error {
    MissingCommunityPad,
    MissingLockAction,
    SkipGpioPad,
    NoSmm,
    NullGpioPads,
    SbiFailure,
    PcrTimeout,
    UntrustedMode,
    UndefinedOffset,
}

} // verus!
