//! What can be configured of the application window and its web view.
use vstd::prelude::*;
use vstd::string::StringExecFns;

verus! {

/// The configuration of an application.
#[derive(Debug, Clone)]
pub struct AppConfig {
    /// Whether the window has a title bar and borders.
    pub with_decorations: bool,
    /// The address of the development server. A configuration that has one is
    /// a development configuration.
    pub dev_url: Option<String>,
    /// The directory that holds the built frontend.
    pub build_path: String,
    /// Whether the developer tools are available.
    pub with_devtools: bool,
}

/// The directory of the built frontend where none is given.
pub open spec fn default_build_path() -> Seq<char> {
    "frontend/build"@
}

impl Default for AppConfig {
    fn default() -> (config: Self)
        ensures
            !config.with_decorations,
            config.dev_url is None,
            config.build_path@ == default_build_path(),
            config.with_devtools,
    {
        AppConfig {
            with_decorations: false,
            dev_url: None,
            build_path: String::from_str("frontend/build"),
            with_devtools: true,
        }
    }
}

impl AppConfig {
    /// Whether this is a development configuration.
    pub open spec fn development_mode(&self) -> bool {
        self.dev_url is Some
    }

    /// The default configuration: no decorations, no development server, the
    /// default build directory, developer tools on.
    pub fn new() -> (config: Self)
        ensures
            !config.with_decorations,
            config.dev_url is None,
            config.build_path@ == default_build_path(),
            config.with_devtools,
    {
        Self::default()
    }

    /// The default configuration, pointed at a development server.
    pub fn development(url: &str) -> (config: Self)
        ensures
            !config.with_decorations,
            config.dev_url matches Some(address) && address@ == url@,
            config.build_path@ == default_build_path(),
            config.with_devtools,
    {
        AppConfig {
            with_decorations: false,
            dev_url: Some(String::from_str(url)),
            build_path: String::from_str("frontend/build"),
            with_devtools: true,
        }
    }

    /// The configuration of a release: the frontend is served from
    /// `build_path`, and the developer tools are off.
    pub fn production(build_path: &str) -> (config: Self)
        ensures
            !config.with_decorations,
            config.dev_url is None,
            config.build_path@ == build_path@,
            !config.with_devtools,
    {
        AppConfig {
            with_decorations: false,
            dev_url: None,
            build_path: String::from_str(build_path),
            with_devtools: false,
        }
    }

    pub fn is_development(&self) -> (development: bool)
        ensures
            development == self.development_mode(),
    {
        self.dev_url.is_some()
    }

    pub fn is_production(&self) -> (production: bool)
        ensures
            production == !self.development_mode(),
    {
        !self.is_development()
    }
}

} // verus!
