//! Application configuration and the application builder.
use vstd::prelude::*;
use crate::framework::routes::RouteRegistry;

verus! {

/// Configuration for a TurboCommerce application.
#[derive(Debug, Clone)]
pub struct TurboConfig {
    /// Application name.
    pub name: String,
    /// Whether streaming SSR is enabled.
    pub streaming: bool,
    /// Default page title.
    pub default_title: String,
    /// CSS file path.
    pub css_path: Option<String>,
}

impl Default for TurboConfig {
    /// Named "TurboApp", titled "TurboCommerce", streaming, without a stylesheet.
    fn default() -> (r: Self)
        ensures
            r.name@ == "TurboApp"@,
            r.streaming,
            r.default_title@ == "TurboCommerce"@,
            r.css_path is None,
    {
        TurboConfig {
            name: "TurboApp".to_string(),
            streaming: true,
            default_title: "TurboCommerce".to_string(),
            css_path: None,
        }
    }
}

impl TurboConfig {
    /// The default configuration under another application name.
    pub fn new(name: &str) -> (r: Self)
        ensures
            r.name@ == name@,
            r.streaming,
            r.default_title@ == "TurboCommerce"@,
            r.css_path is None,
    {
        let d = TurboConfig::default();
        TurboConfig { name: name.to_string(), ..d }
    }

    /// Set the default page title.
    pub fn with_title(self, title: &str) -> (r: Self)
        ensures
            r.default_title@ == title@,
            r.name == self.name,
            r.streaming == self.streaming,
            r.css_path == self.css_path,
    {
        let mut s = self;
        s.default_title = title.to_string();
        s
    }

    /// Set the stylesheet path.
    pub fn with_css(self, path: &str) -> (r: Self)
        ensures
            r.css_path matches Some(p) && p@ == path@,
            r.name == self.name,
            r.streaming == self.streaming,
            r.default_title == self.default_title,
    {
        let mut s = self;
        s.css_path = Some(path.to_string());
        s
    }

    /// Enable or disable streaming SSR.
    pub fn with_streaming(self, enabled: bool) -> (r: Self)
        ensures
            r == (TurboConfig { streaming: enabled, ..self }),
    {
        let mut s = self;
        s.streaming = enabled;
        s
    }
}

/// TurboCommerce application builder: a configuration and a route registry.
#[derive(Debug)]
pub struct TurboApp {
    config: TurboConfig,
    routes: RouteRegistry,
}

impl TurboApp {
    /// The configuration being built.
    pub closed spec fn spec_config(&self) -> TurboConfig {
        self.config
    }

    /// The routes registered so far.
    pub closed spec fn spec_routes(&self) -> RouteRegistry {
        self.routes
    }

    /// A new application with the default configuration under this name and no routes.
    pub fn new(name: &str) -> (r: Self)
        ensures
            r.spec_config().name@ == name@,
            r.spec_config().streaming,
            r.spec_config().default_title@ == "TurboCommerce"@,
            r.spec_config().css_path is None,
            r.spec_routes()@.len() == 0,
    {
        TurboApp { config: TurboConfig::new(name), routes: RouteRegistry::new() }
    }

    /// Set the default page title.
    pub fn with_title(self, title: &str) -> (r: Self)
        ensures
            r.spec_config().default_title@ == title@,
            r.spec_config().name == self.spec_config().name,
            r.spec_config().streaming == self.spec_config().streaming,
            r.spec_config().css_path == self.spec_config().css_path,
            r.spec_routes() == self.spec_routes(),
    {
        TurboApp { config: self.config.with_title(title), routes: self.routes }
    }

    /// Set the stylesheet path.
    pub fn with_css(self, path: &str) -> (r: Self)
        ensures
            r.spec_config().css_path matches Some(p) && p@ == path@,
            r.spec_config().name == self.spec_config().name,
            r.spec_config().streaming == self.spec_config().streaming,
            r.spec_config().default_title == self.spec_config().default_title,
            r.spec_routes() == self.spec_routes(),
    {
        TurboApp { config: self.config.with_css(path), routes: self.routes }
    }

    /// Enable or disable streaming SSR.
    pub fn with_streaming(self, enabled: bool) -> (r: Self)
        ensures
            r.spec_config() == (TurboConfig { streaming: enabled, ..self.spec_config() }),
            r.spec_routes() == self.spec_routes(),
    {
        TurboApp { config: self.config.with_streaming(enabled), routes: self.routes }
    }

    /// Register a route.
    pub fn route(self, path: &str, component: &str) -> (r: Self)
        ensures
            r.spec_config() == self.spec_config(),
            r.spec_routes()@ == self.spec_routes()@.push((path@, component@)),
    {
        let mut s = self;
        s.routes.register(path, component);
        s
    }

    /// The configuration.
    pub fn config(&self) -> (r: &TurboConfig)
        ensures
            *r == self.spec_config(),
    {
        &self.config
    }

    /// The route registry.
    pub fn routes(&self) -> (r: &RouteRegistry)
        ensures
            *r == self.spec_routes(),
    {
        &self.routes
    }

    /// The finished configuration and routes.
    pub fn build(self) -> (r: (TurboConfig, RouteRegistry))
        ensures
            r.0 == self.spec_config(),
            r.1 == self.spec_routes(),
    {
        (self.config, self.routes)
    }
}

} // verus!
