//! What the settings say of the log.

use tracing_subscriber::filter::Directive;
use vstd::prelude::*;
use vstd::string::*;

use crate::error::{CauseView, Error, ErrorView, Report, ReportView};
use crate::tracing::filter::{
    check_can_be_parsed, directive_string, directive_text, fallback, fallback_filter, is_directive,
    parse_directive,
    BaseFilter, BaseFilterView, EnvLookup,
};
use crate::tracing::logger::{Level, Logger};

verus! {

#[derive(Debug, Clone, PartialEq, Eq)]
pub struct TelemetryConfig {
    /// The targets, modules mostly, that are logged at the configured level.
    pub directives: Vec<String>,
    pub logger: Logger,
    pub level: Level,
}

/// The filter to build: where to start from, and the directives to add.
#[derive(Debug)]
pub struct FilterPlan {
    pub base: BaseFilter,
    pub directives: Vec<Directive>,
}

impl TelemetryConfig {
    /// Every configured target, with the level, is a directive.
    pub open spec fn directives_are_valid(&self) -> bool {
        forall|i: int|
            0 <= i < self.directives@.len() ==> is_directive(
                directive_text((#[trigger] self.directives@[i])@, self.level.text()),
            )
    }

    pub fn log_level(&self) -> (level: &str)
        ensures
            level@ == self.level.text(),
    {
        self.level.as_str()
    }

    /// The configured targets as directives, each at the configured level.
    /// One target that gives no directive fails them all with an internal
    /// error, and so does one that begins with white space and holds a
    /// character of more than one byte, which the parser cannot be given.
    pub fn directives(&self) -> (outcome: Result<Vec<Directive>, Report>)
        ensures
            outcome is Ok <==> self.directives_are_valid(),
            outcome matches Ok(directives) ==> directives@.len() == self.directives@.len(),
            outcome matches Err(report) ==> report@ == ReportView::of(
                CauseView::General(ErrorView::InternalServerError),
            ),
    {
        let mut directives: Vec<Directive> = Vec::new();
        let mut i: usize = 0;
        while i < self.directives.len()
            invariant
                i <= self.directives@.len(),
                directives@.len() == i,
                forall|j: int|
                    0 <= j < i ==> is_directive(
                        directive_text((#[trigger] self.directives@[j])@, self.level.text()),
                    ),
            decreases self.directives@.len() - i,
        {
            let text = directive_string(self.directives[i].as_str(), self.log_level());
            if !check_can_be_parsed(text.as_str()) {
                return Err(Report::from(Error::InternalServerError));
            }
            match parse_directive(text.as_str()) {
                Some(directive) => directives.push(directive),
                None => {
                    return Err(Report::from(Error::InternalServerError));
                },
            }
            i += 1;
        }
        Ok(directives)
    }

    /// The filter to build, given how the lookup in the environment ended:
    /// the environment's own filter where it gave one, the fallback where
    /// the variable is not set, and the configured directives on top of
    /// either. A variable that holds no filter, like a target that gives no
    /// directive, is an internal error.
    pub fn filter_layer(&self, lookup: EnvLookup) -> (outcome: Result<FilterPlan, Report>)
        ensures
            outcome is Ok <==> !(lookup is Invalid) && self.directives_are_valid(),
            outcome matches Ok(plan) ==> {
                &&& plan.directives@.len() == self.directives@.len()
                &&& plan.base@ == (if lookup is Found {
                    BaseFilterView::Environment
                } else {
                    fallback_filter(self.directives@.len() == 0, self.level.text())
                })
            },
            outcome matches Err(report) ==> report@ == ReportView::of(
                CauseView::General(ErrorView::InternalServerError),
            ),
    {
        let base = match lookup {
            EnvLookup::Found => BaseFilter::Environment,
            EnvLookup::NotPresent | EnvLookup::Unexplained => fallback(
                self.directives.len() == 0,
                self.log_level(),
            ),
            EnvLookup::Invalid(_) => {
                return Err(Report::from(Error::InternalServerError));
            },
        };
        match self.directives() {
            Ok(directives) => Ok(FilterPlan { base, directives }),
            Err(report) => Err(report),
        }
    }
}

} // verus!
