//! The command-line face of the cleaning strategy choice.

use vstd::prelude::*;

use crate::cleaner::CleanStrategy;

verus! {

/// The strategy as it is spelled on the command line.
#[derive(Debug, Clone, Copy, PartialEq, Eq, Structural)]
pub enum CleanStrategyArg {
    /// Run the build tool's own clean subcommand.
    CargoClean,
    /// Delete target directories directly.
    DirectDelete,
}

/// The engine strategy a command-line choice names.
pub open spec fn spec_strategy_of_arg(arg: CleanStrategyArg) -> CleanStrategy {
    match arg {
        CleanStrategyArg::CargoClean => CleanStrategy::CargoClean,
        CleanStrategyArg::DirectDelete => CleanStrategy::DirectDelete,
    }
}

impl From<CleanStrategyArg> for CleanStrategy {
    fn from(arg: CleanStrategyArg) -> (r: CleanStrategy)
        ensures
            r == spec_strategy_of_arg(arg),
    {
        match arg {
            CleanStrategyArg::CargoClean => CleanStrategy::CargoClean,
            CleanStrategyArg::DirectDelete => CleanStrategy::DirectDelete,
        }
    }
}

impl vstd::std_specs::convert::FromSpecImpl<CleanStrategyArg> for CleanStrategy {
    open spec fn obeys_from_spec() -> bool {
        true
    }

    open spec fn from_spec(arg: CleanStrategyArg) -> CleanStrategy {
        spec_strategy_of_arg(arg)
    }
}

} // verus!
