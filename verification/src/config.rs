use vstd::prelude::*;

verus! {

/// Configuration of the monitoring pipeline: the collector endpoint
/// spans are shipped to, when tracing is wanted at all.
#[derive(Clone, Debug, PartialEq, Eq)]
pub struct MonitoringConfig {
    pub zipkin: Option<String>,
}

/// What the monitoring setup must install for a configuration.
#[derive(Clone, Debug, PartialEq, Eq)]
pub enum SetupPlan {
    /// No endpoint configured: tracing stays off and setup does nothing.
    Disabled,
    /// Ship spans to the collector at this endpoint.
    Zipkin(String),
}

impl MonitoringConfig {
    /// The setup decision for this configuration: tracing is installed
    /// exactly when an endpoint is configured, and for that endpoint.
    pub fn setup_plan(&self) -> (r: SetupPlan)
        ensures
            r == match self.zipkin {
                Some(endpoint) => SetupPlan::Zipkin(endpoint),
                None => SetupPlan::Disabled,
            },
    {
        match &self.zipkin {
            Some(endpoint) => SetupPlan::Zipkin(endpoint.clone()),
            None => SetupPlan::Disabled,
        }
    }
}

/// Configuration of the database connection: the connection url, the
/// schema made the default search path, and whether statements are
/// logged.
#[derive(Clone, Debug, PartialEq, Eq)]
pub struct DatabaseConfig {
    pub url: String,
    pub schema: String,
    pub query_logging: bool,
}

/// How the database driver must log statements.
#[derive(Clone, Copy, Debug, PartialEq, Eq)]
pub enum StatementLogging {
    Debug,
    Off,
}

impl DatabaseConfig {
    /// Statements are logged at debug level exactly when query logging
    /// was asked for, and not at all otherwise.
    pub fn statement_logging(&self) -> (r: StatementLogging)
        ensures
            r == if self.query_logging {
                StatementLogging::Debug
            } else {
                StatementLogging::Off
            },
    {
        if self.query_logging {
            StatementLogging::Debug
        } else {
            StatementLogging::Off
        }
    }
}

} // verus!
