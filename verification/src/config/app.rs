//! The environment the application runs in, and its settings as a whole.

use std::borrow::Cow;

use vstd::prelude::*;
use vstd::string::*;

use super::db::DatabaseConfig;
use super::telemetry::TelemetryConfig;
use crate::error::{CauseView, Error, ErrorView, Report, ReportView};
use crate::model::result_view;
use crate::text::{decimal_string, decimal_text, lowercase_text, str_eq, to_lowercase};

verus! {

/// The environment the application runs in. It names the settings file.
#[derive(Debug, PartialEq, Eq)]
pub enum AppEnvironment<'a> {
    Development,
    Production,
    Testing,
    Other(Cow<'a, str>),
}

/// The model of an [`AppEnvironment`].
pub enum AppEnvironmentView {
    Development,
    Production,
    Testing,
    Other(Seq<char>),
}

impl<'a> View for AppEnvironment<'a> {
    type V = AppEnvironmentView;

    open spec fn view(&self) -> AppEnvironmentView {
        match self {
            AppEnvironment::Development => AppEnvironmentView::Development,
            AppEnvironment::Production => AppEnvironmentView::Production,
            AppEnvironment::Testing => AppEnvironmentView::Testing,
            AppEnvironment::Other(name) => AppEnvironmentView::Other(name@),
        }
    }
}

impl AppEnvironmentView {
    /// The environment's name.
    pub open spec fn text(self) -> Seq<char> {
        match self {
            AppEnvironmentView::Development => "development"@,
            AppEnvironmentView::Production => "production"@,
            AppEnvironmentView::Testing => "testing"@,
            AppEnvironmentView::Other(name) => name,
        }
    }

    /// The environment that a name in lower case stands for: one of the
    /// three known ones by its name or its short name, and any other name
    /// an environment of its own.
    pub open spec fn named(lower: Seq<char>) -> AppEnvironmentView {
        if lower == "development"@ || lower == "dev"@ {
            AppEnvironmentView::Development
        } else if lower == "production"@ || lower == "prod"@ {
            AppEnvironmentView::Production
        } else if lower == "testing"@ || lower == "test"@ {
            AppEnvironmentView::Testing
        } else {
            AppEnvironmentView::Other(lower)
        }
    }
}

impl<'a> Default for AppEnvironment<'a> {
    fn default() -> (env: Self)
        ensures
            env@ == AppEnvironmentView::Development,
    {
        AppEnvironment::Development
    }
}

impl<'a> Clone for AppEnvironment<'a> {
    fn clone(&self) -> (copy: Self)
        ensures
            copy@ == self@,
    {
        match self {
            AppEnvironment::Development => AppEnvironment::Development,
            AppEnvironment::Production => AppEnvironment::Production,
            AppEnvironment::Testing => AppEnvironment::Testing,
            AppEnvironment::Other(name) => match name {
                Cow::Borrowed(borrowed) => AppEnvironment::Other(Cow::Borrowed(borrowed)),
                Cow::Owned(owned) => AppEnvironment::Other(Cow::Owned(owned.clone())),
            },
        }
    }
}

impl<'a> AppEnvironment<'a> {
    pub fn as_str(&self) -> (name: &str)
        ensures
            name@ == self@.text(),
    {
        match self {
            AppEnvironment::Development => "development",
            AppEnvironment::Production => "production",
            AppEnvironment::Testing => "testing",
            AppEnvironment::Other(name) => match name {
                Cow::Borrowed(borrowed) => borrowed,
                Cow::Owned(owned) => owned.as_str(),
            },
        }
    }

    /// The environment's name.
    pub fn to_string(&self) -> (name: String)
        ensures
            name@ == self@.text(),
    {
        String::from_str(self.as_str())
    }

    /// The environment that a name in lower case stands for.
    pub fn from_lowercase(lower: String) -> (env: Self)
        ensures
            env@ == AppEnvironmentView::named(lower@),
    {
        if str_eq(lower.as_str(), "development") || str_eq(lower.as_str(), "dev") {
            AppEnvironment::Development
        } else if str_eq(lower.as_str(), "production") || str_eq(lower.as_str(), "prod") {
            AppEnvironment::Production
        } else if str_eq(lower.as_str(), "testing") || str_eq(lower.as_str(), "test") {
            AppEnvironment::Testing
        } else {
            AppEnvironment::Other(Cow::Owned(lower))
        }
    }
}

// `Other` holds a text of its own, which no spec function can build, so
// the contract of `from` is stated over the view.
impl<'a> vstd::std_specs::convert::FromSpecImpl<&str> for AppEnvironment<'a> {
    open spec fn obeys_from_spec() -> bool {
        false
    }

    open spec fn from_spec(s: &str) -> AppEnvironment<'a> {
        arbitrary()
    }
}

impl<'a> From<&str> for AppEnvironment<'a> {
    /// The environment that a name stands for, in whatever case it is
    /// written.
    fn from(s: &str) -> (env: Self)
        ensures
            env@ == AppEnvironmentView::named(lowercase_text(s@)),
    {
        AppEnvironment::from_lowercase(to_lowercase(s))
    }
}

/// All settings of the application.
#[derive(Debug, Clone, PartialEq, Eq)]
pub struct AppConfig {
    pub server: ServerConfig,
    pub database: DatabaseConfig,
    pub telemetry: TelemetryConfig,
}

impl AppConfig {
    /// Whether the settings can be read, given whether the settings file
    /// was found: a file that is not there, or is no file, is an error of
    /// the settings file.
    pub fn settings_file(found: bool) -> (outcome: Result<(), Report>)
        ensures
            result_view(outcome) == (if found {
                Ok::<(), ReportView>(())
            } else {
                Err::<(), ReportView>(
                    ReportView::of(
                        CauseView::General(ErrorView::ConfigFile("Config File has an error"@)),
                    ),
                )
            }),
    {
        if found {
            Ok(())
        } else {
            Err(Report::from(Error::ConfigFile(String::from_str("Config File has an error"))))
        }
    }

    /// The name of the settings file of an environment: the environment's
    /// name with the ending `.yaml`.
    pub fn file_name(env: &AppEnvironment<'_>) -> (name: String)
        ensures
            name@ == env@.text() + ".yaml"@,
    {
        let mut name = String::from_str(env.as_str());
        name.append(".yaml");
        name
    }
}

/// Where the server listens.
#[derive(Debug, Clone, PartialEq, Eq)]
pub struct ServerConfig {
    pub protocol: String,
    pub host: String,
    pub port: u16,
}

impl ServerConfig {
    /// Host and port, as in `localhost:8000`.
    pub open spec fn address_text(&self) -> Seq<char> {
        self.host@ + ":"@ + decimal_text(self.port as nat)
    }

    /// Protocol, host and port, as in `http://localhost:8000`.
    pub open spec fn url_text(&self) -> Seq<char> {
        self.protocol@ + "://"@ + self.host@ + ":"@ + decimal_text(self.port as nat)
    }

    pub fn address(&self) -> (text: String)
        ensures
            text@ == self.address_text(),
    {
        let mut text = self.host.clone();
        text.append(":");
        text.append(decimal_string(self.port as u64).as_str());
        text
    }

    pub fn url(&self) -> (text: String)
        ensures
            text@ == self.url_text(),
    {
        let mut text = self.protocol.clone();
        text.append("://");
        text.append(self.host.as_str());
        text.append(":");
        text.append(decimal_string(self.port as u64).as_str());
        text
    }
}

} // verus!
