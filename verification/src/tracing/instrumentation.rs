//! Logging as the command line asks for it.

use tracing_subscriber::filter::Directive;
use vstd::prelude::*;
use vstd::string::*;

use super::filter::{fallback, fallback_filter, BaseFilter, BaseFilterView, EnvLookup};
use super::logger::Logger;
use crate::error::{Cause, CauseView, Report, ReportView};
use crate::model::result_view;

verus! {

/// What the command line says of the log.
#[derive(Debug)]
pub struct Instrumentation {
    /// How often more detail was asked for.
    pub verbose: u8,
    pub logger: Logger,
    pub directives: Vec<Directive>,
}

impl Default for Instrumentation {
    fn default() -> (made: Self)
        ensures
            made.verbose == 0,
            made.logger == Logger::Compact,
            made.directives@.len() == 0,
    {
        Instrumentation { verbose: 0, logger: Logger::Compact, directives: Vec::new() }
    }
}

/// The level that a verbosity stands for: errors only where nothing was
/// asked for, one level more for each asking, and everything from the fourth
/// on.
pub open spec fn level_of_verbosity(verbose: u8) -> Seq<char> {
    if verbose == 0 {
        "error"@
    } else if verbose == 1 {
        "warn"@
    } else if verbose == 2 {
        "info"@
    } else if verbose == 3 {
        "debug"@
    } else {
        "trace"@
    }
}

/// What becomes of the lookup in the environment: its filter where it found
/// one, the fallback where the variable is not set or the failure names no
/// cause, and otherwise a report that says what was being done, above the
/// failure's own text.
pub open spec fn filter_outcome(lookup: EnvLookup, no_directives: bool, level: Seq<char>) -> Result<
    BaseFilterView,
    ReportView,
> {
    match lookup {
        EnvLookup::Found => Ok(BaseFilterView::Environment),
        EnvLookup::NotPresent | EnvLookup::Unexplained => Ok(fallback_filter(no_directives, level)),
        EnvLookup::Invalid(detail) => Err(
            ReportView {
                cause: CauseView::Other("parsing RUST_LOG directives"@),
                chain: seq![detail@],
            },
        ),
    }
}

impl Instrumentation {
    pub fn log_level(&self) -> (level: String)
        ensures
            level@ == level_of_verbosity(self.verbose),
    {
        let level = if self.verbose == 0 {
            "error"
        } else if self.verbose == 1 {
            "warn"
        } else if self.verbose == 2 {
            "info"
        } else if self.verbose == 3 {
            "debug"
        } else {
            "trace"
        };
        String::from_str(level)
    }

    /// The filter to start from, given how the lookup in the environment
    /// ended. The directives of the command line are added to it as they
    /// are.
    pub fn filter_layer(&self, lookup: EnvLookup) -> (outcome: Result<BaseFilter, Report>)
        ensures
            result_view(outcome) == filter_outcome(
                lookup,
                self.directives@.len() == 0,
                level_of_verbosity(self.verbose),
            ),
    {
        match lookup {
            EnvLookup::Found => Ok(BaseFilter::Environment),
            EnvLookup::NotPresent | EnvLookup::Unexplained => {
                let level = self.log_level();
                Ok(fallback(self.directives.len() == 0, level.as_str()))
            },
            EnvLookup::Invalid(detail) => {
                let mut chain: Vec<String> = Vec::new();
                chain.push(detail);
                let report = Report::new(
                    Cause::Other(String::from_str("parsing RUST_LOG directives")),
                    chain,
                );
                assert(report@.chain =~= seq![detail@]);
                Err(report)
            },
        }
    }
}

} // verus!
