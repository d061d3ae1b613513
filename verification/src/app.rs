//! Application layer.

use crate::config::{AppConfig, ConfigView};
use crate::error::AppError;
use crate::utils::{decimal, push_decimal};
use vstd::prelude::*;
use vstd::string::StringExecFns;

verus! {

/// Application struct.
pub struct App {
    /// Application configuration.
    config: AppConfig,
}

impl View for App {
    type V = ConfigView;

    closed spec fn view(&self) -> ConfigView {
        self.config@
    }
}

/// The line that announces the port.
pub open spec fn port_line(port: int) -> Seq<char> {
    "Starting application on port "@ + decimal(port as nat)
}

/// The line that announces the database.
pub open spec fn database_line(url: Seq<char>) -> Seq<char> {
    "Database URL: "@ + url
}

impl App {
    /// Create a new application instance, which holds `config` from now on.
    #[must_use]
    pub fn new(config: AppConfig) -> (app: App)
        ensures
            app@ == config@,
    {
        App { config }
    }

    /// The configuration that the application holds.
    pub fn config(&self) -> (config: &AppConfig)
        ensures
            config@ == self@,
    {
        &self.config
    }

    /// Run the application. It always succeeds, and returns the two lines
    /// to log at the level `info`: the port, then the database.
    pub fn run(&self) -> (out: Result<Vec<String>, AppError>)
        ensures
            out matches Ok(lines) && lines@.len() == 2 && lines@[0]@ == port_line(self@.port)
                && lines@[1]@ == database_line(self@.url),
    {
        let mut port = String::from_str("Starting application on port ");
        push_decimal(&mut port, self.config.api.port);
        let mut database = String::from_str("Database URL: ");
        database.append(self.config.database.url.as_str());
        let mut lines: Vec<String> = Vec::new();
        lines.push(port);
        lines.push(database);
        Ok(lines)
    }
}

} // verus!
