//! The entry point for an application: a configuration on its way to a window.
use crate::config::AppConfig;
use crate::userevent::UserEvent;
use vstd::prelude::*;
use vstd::string::StringExecFns;

verus! {

/// The entry point for an application.
pub struct App;

/// A configured application that has not been started, for events of type `E`.
pub struct AppBuilder<E: UserEvent> {
    config: AppConfig,
    _phantom: core::marker::PhantomData<E>,
}

/// Where the web view takes the frontend from.
#[derive(Debug)]
pub enum Frontend {
    /// From a development server, at this address.
    DevServer { url: String },
    /// From the build directory `root`, through the custom protocol
    /// `protocol`, at the address `url`.
    Bundle { protocol: String, url: String, root: String },
}

/// The name of the custom protocol that serves the built frontend.
pub open spec fn bundle_protocol() -> Seq<char> {
    "guilib"@
}

/// The address of the built frontend: the custom protocol, on localhost.
pub open spec fn bundle_url() -> Seq<char> {
    bundle_protocol() + "://localhost"@
}

impl App {
    /// Starts the configuration of an application whose events are of type `E`.
    pub fn builder<E: UserEvent>(config: AppConfig) -> (builder: AppBuilder<E>)
        ensures
            builder.config() == config,
    {
        AppBuilder::new(config)
    }
}

impl<E: UserEvent> AppBuilder<E> {
    /// The configuration that the application will run with.
    pub closed spec fn config(&self) -> AppConfig {
        self.config
    }

    pub fn new(config: AppConfig) -> (builder: Self)
        ensures
            builder.config() == config,
    {
        AppBuilder { config, _phantom: core::marker::PhantomData }
    }

    /// Hands the configuration back.
    pub fn into_config(self) -> (config: AppConfig)
        ensures
            config == self.config(),
    {
        self.config
    }

    /// Where the web view is to take the frontend from: the development
    /// server if the configuration names one, else the build directory.
    pub fn frontend(&self) -> (frontend: Frontend)
        ensures
            match self.config().dev_url {
                Some(address) => frontend matches Frontend::DevServer { url } && url@ == address@,
                None => frontend matches Frontend::Bundle { protocol, url, root } && protocol@
                    == bundle_protocol() && url@ == bundle_url() && root@
                    == self.config().build_path@,
            },
    {
        match &self.config.dev_url {
            Some(address) => Frontend::DevServer { url: address.clone() },
            None => Frontend::Bundle {
                protocol: String::from_str("guilib"),
                url: String::from_str("guilib").concat("://localhost"),
                root: self.config.build_path.clone(),
            },
        }
    }
}

} // verus!
