//! The CLI configuration file: its structure, defaults and environment overrides.
use vstd::prelude::*;
use crate::http::headers::pair_views;
use crate::text::{clone_strings, string_views};

verus! {

/// What a workload's metadata holds.
pub struct WorkloadView {
    pub name: Seq<char>,
    pub version: Seq<char>,
    pub description: Option<Seq<char>>,
    pub authors: Seq<Seq<char>>,
}

/// What a build configuration holds.
pub struct BuildView {
    pub target: Seq<char>,
    pub profile: Seq<char>,
    pub features: Seq<Seq<char>>,
    pub optimize: bool,
    pub cargo_args: Seq<Seq<char>>,
}

/// What a route configuration holds.
pub struct RouteView {
    pub path: Seq<char>,
    pub methods: Seq<Seq<char>>,
    pub handler: Option<Seq<char>>,
}

/// What a deployment configuration holds.
pub struct DeployView {
    pub platform_url: Option<Seq<char>>,
    pub app_name: Option<Seq<char>>,
    pub env_vars: Seq<(Seq<char>, Seq<char>)>,
    pub routes: Seq<RouteView>,
    pub canary: bool,
    pub canary_percentage: u8,
    pub versions_to_keep: usize,
}

/// What a whole configuration holds.
pub struct CliView {
    pub workload: WorkloadView,
    pub build: BuildView,
    pub deploy: DeployView,
    pub environments: Seq<(Seq<char>, Option<DeployView>)>,
}

/// The characters of an optional string.
pub open spec fn opt_view(s: Option<String>) -> Option<Seq<char>> {
    match s {
        Some(v) => Some(v@),
        None => None,
    }
}

/// A copy of an optional string.
fn clone_opt(s: &Option<String>) -> (r: Option<String>)
    ensures
        opt_view(r) == opt_view(*s),
{
    match s {
        Some(v) => Some(v.clone()),
        None => None,
    }
}

/// Workload metadata.
#[derive(Debug)]
pub struct WorkloadConfig {
    /// Workload name.
    pub name: String,
    /// Workload version.
    pub version: String,
    /// Workload description.
    pub description: Option<String>,
    /// Workload authors.
    pub authors: Vec<String>,
}

impl View for WorkloadConfig {
    type V = WorkloadView;

    open spec fn view(&self) -> WorkloadView {
        WorkloadView {
            name: self.name@,
            version: self.version@,
            description: opt_view(self.description),
            authors: string_views(self.authors@),
        }
    }
}

impl Clone for WorkloadConfig {
    fn clone(&self) -> (r: Self)
        ensures
            r@ == self@,
    {
        WorkloadConfig {
            name: self.name.clone(),
            version: self.version.clone(),
            description: clone_opt(&self.description),
            authors: clone_strings(&self.authors),
        }
    }
}

impl Default for WorkloadConfig {
    /// Every field empty.
    fn default() -> (r: Self)
        ensures
            r@.name.len() == 0,
            r@.version.len() == 0,
            r@.description is None,
            r@.authors.len() == 0,
    {
        let r = WorkloadConfig {
            name: String::new(),
            version: String::new(),
            description: None,
            authors: Vec::new(),
        };
        assert(r@.authors =~= Seq::<Seq<char>>::empty());
        r
    }
}

/// Build configuration.
#[derive(Debug)]
pub struct BuildConfig {
    /// Rust target (default: wasm32-wasip1).
    pub target: String,
    /// Build profile (default: release).
    pub profile: String,
    /// Additional cargo features to enable.
    pub features: Vec<String>,
    /// Whether to run wasm-opt after build.
    pub optimize: bool,
    /// Extra cargo arguments.
    pub cargo_args: Vec<String>,
}

impl View for BuildConfig {
    type V = BuildView;

    open spec fn view(&self) -> BuildView {
        BuildView {
            target: self.target@,
            profile: self.profile@,
            features: string_views(self.features@),
            optimize: self.optimize,
            cargo_args: string_views(self.cargo_args@),
        }
    }
}

impl Clone for BuildConfig {
    fn clone(&self) -> (r: Self)
        ensures
            r@ == self@,
    {
        BuildConfig {
            target: self.target.clone(),
            profile: self.profile.clone(),
            features: clone_strings(&self.features),
            optimize: self.optimize,
            cargo_args: clone_strings(&self.cargo_args),
        }
    }
}

/// The default build: release builds for `wasm32-wasip1`, optimized, with no
/// extra features or arguments.
pub open spec fn default_build_view() -> BuildView {
    BuildView {
        target: "wasm32-wasip1"@,
        profile: "release"@,
        features: Seq::empty(),
        optimize: true,
        cargo_args: Seq::empty(),
    }
}

impl Default for BuildConfig {
    fn default() -> (r: Self)
        ensures
            r@ == default_build_view(),
    {
        let r = BuildConfig {
            target: "wasm32-wasip1".to_string(),
            profile: "release".to_string(),
            features: Vec::new(),
            optimize: true,
            cargo_args: Vec::new(),
        };
        assert(r@.features =~= Seq::<Seq<char>>::empty());
        assert(r@.cargo_args =~= Seq::<Seq<char>>::empty());
        r
    }
}

/// Route configuration.
#[derive(Debug)]
pub struct RouteConfig {
    /// Route path pattern.
    pub path: String,
    /// HTTP methods (default: GET).
    pub methods: Vec<String>,
    /// Handler component.
    pub handler: Option<String>,
}

impl View for RouteConfig {
    type V = RouteView;

    open spec fn view(&self) -> RouteView {
        RouteView {
            path: self.path@,
            methods: string_views(self.methods@),
            handler: opt_view(self.handler),
        }
    }
}

impl Clone for RouteConfig {
    fn clone(&self) -> (r: Self)
        ensures
            r@ == self@,
    {
        RouteConfig {
            path: self.path.clone(),
            methods: clone_strings(&self.methods),
            handler: clone_opt(&self.handler),
        }
    }
}

/// The views of a list of routes.
pub open spec fn route_views(rs: Seq<RouteConfig>) -> Seq<RouteView> {
    rs.map_values(|r: RouteConfig| r@)
}

/// A copy of a list of routes.
fn clone_routes(rs: &Vec<RouteConfig>) -> (r: Vec<RouteConfig>)
    ensures
        route_views(r@) == route_views(rs@),
{
    let mut out: Vec<RouteConfig> = Vec::new();
    let mut i: usize = 0;
    while i < rs.len()
        invariant
            i <= rs@.len(),
            route_views(out@) =~= route_views(rs@.take(i as int)),
        decreases rs@.len() - i,
    {
        let c = rs[i].clone();
        let ghost before = out@;
        out.push(c);
        assert(route_views(out@) =~= route_views(before).push(c@));
        assert(rs@.take(i + 1) =~= rs@.take(i as int).push(rs@[i as int]));
        i = i + 1;
    }
    assert(rs@.take(i as int) =~= rs@);
    out
}

/// A copy of a list of name/value pairs.
fn clone_pairs(ps: &Vec<(String, String)>) -> (r: Vec<(String, String)>)
    ensures
        pair_views(r@) == pair_views(ps@),
{
    let mut out: Vec<(String, String)> = Vec::new();
    let mut i: usize = 0;
    while i < ps.len()
        invariant
            i <= ps@.len(),
            pair_views(out@) =~= pair_views(ps@.take(i as int)),
        decreases ps@.len() - i,
    {
        let c = (ps[i].0.clone(), ps[i].1.clone());
        let ghost before = out@;
        out.push(c);
        assert(pair_views(out@) =~= pair_views(before).push((c.0@, c.1@)));
        assert(ps@.take(i + 1) =~= ps@.take(i as int).push(ps@[i as int]));
        i = i + 1;
    }
    assert(ps@.take(i as int) =~= ps@);
    out
}

/// Deployment configuration.
#[derive(Debug)]
pub struct DeployConfig {
    /// Spin platform URL.
    pub platform_url: Option<String>,
    /// Application name on the platform.
    pub app_name: Option<String>,
    /// Environment variables to set, each name once.
    pub env_vars: Vec<(String, String)>,
    /// Routes to register.
    pub routes: Vec<RouteConfig>,
    /// Whether to use canary deployments.
    pub canary: bool,
    /// Canary percentage (0-100).
    pub canary_percentage: u8,
    /// Number of versions to keep.
    pub versions_to_keep: usize,
}

impl View for DeployConfig {
    type V = DeployView;

    open spec fn view(&self) -> DeployView {
        DeployView {
            platform_url: opt_view(self.platform_url),
            app_name: opt_view(self.app_name),
            env_vars: pair_views(self.env_vars@),
            routes: route_views(self.routes@),
            canary: self.canary,
            canary_percentage: self.canary_percentage,
            versions_to_keep: self.versions_to_keep,
        }
    }
}

impl Clone for DeployConfig {
    fn clone(&self) -> (r: Self)
        ensures
            r@ == self@,
    {
        DeployConfig {
            platform_url: clone_opt(&self.platform_url),
            app_name: clone_opt(&self.app_name),
            env_vars: clone_pairs(&self.env_vars),
            routes: clone_routes(&self.routes),
            canary: self.canary,
            canary_percentage: self.canary_percentage,
            versions_to_keep: self.versions_to_keep,
        }
    }
}

/// The default deployment: no platform or application name, no variables or
/// routes, no canary (at 10% when enabled), keeping five versions.
pub open spec fn default_deploy_view() -> DeployView {
    DeployView {
        platform_url: None,
        app_name: None,
        env_vars: Seq::empty(),
        routes: Seq::empty(),
        canary: false,
        canary_percentage: 10,
        versions_to_keep: 5,
    }
}

impl Default for DeployConfig {
    fn default() -> (r: Self)
        ensures
            r@ == default_deploy_view(),
    {
        let r = DeployConfig {
            platform_url: None,
            app_name: None,
            env_vars: Vec::new(),
            routes: Vec::new(),
            canary: false,
            canary_percentage: 10,
            versions_to_keep: 5,
        };
        assert(r@.env_vars =~= Seq::<(Seq<char>, Seq<char>)>::empty());
        assert(r@.routes =~= Seq::<RouteView>::empty());
        r
    }
}

/// Environment-specific configuration overrides.
#[derive(Debug)]
pub struct EnvironmentConfig {
    /// Deploy config override.
    pub deploy: Option<DeployConfig>,
}

/// What an environment override holds.
pub open spec fn env_view(e: EnvironmentConfig) -> Option<DeployView> {
    match e.deploy {
        Some(d) => Some(d@),
        None => None,
    }
}

impl Clone for EnvironmentConfig {
    fn clone(&self) -> (r: Self)
        ensures
            env_view(r) == env_view(*self),
    {
        match &self.deploy {
            Some(d) => EnvironmentConfig { deploy: Some(d.clone()) },
            None => EnvironmentConfig { deploy: None },
        }
    }
}

impl Default for EnvironmentConfig {
    fn default() -> (r: Self)
        ensures
            r.deploy is None,
    {
        EnvironmentConfig { deploy: None }
    }
}

/// The views of named environment overrides.
pub open spec fn env_views(es: Seq<(String, EnvironmentConfig)>) -> Seq<(Seq<char>, Option<DeployView>)> {
    es.map_values(|e: (String, EnvironmentConfig)| (e.0@, env_view(e.1)))
}

/// CLI configuration file.
#[derive(Debug)]
pub struct CliConfig {
    /// Workload configuration.
    pub workload: WorkloadConfig,
    /// Build configuration.
    pub build: BuildConfig,
    /// Deployment configuration.
    pub deploy: DeployConfig,
    /// Environment-specific overrides, each name once.
    pub environments: Vec<(String, EnvironmentConfig)>,
}

impl View for CliConfig {
    type V = CliView;

    open spec fn view(&self) -> CliView {
        CliView {
            workload: self.workload@,
            build: self.build@,
            deploy: self.deploy@,
            environments: env_views(self.environments@),
        }
    }
}

/// A copy of named environment overrides.
fn clone_envs(es: &Vec<(String, EnvironmentConfig)>) -> (r: Vec<(String, EnvironmentConfig)>)
    ensures
        env_views(r@) == env_views(es@),
{
    let mut out: Vec<(String, EnvironmentConfig)> = Vec::new();
    let mut i: usize = 0;
    while i < es.len()
        invariant
            i <= es@.len(),
            env_views(out@) =~= env_views(es@.take(i as int)),
        decreases es@.len() - i,
    {
        let c = (es[i].0.clone(), es[i].1.clone());
        let ghost before = out@;
        out.push(c);
        assert(env_views(out@) =~= env_views(before).push((c.0@, env_view(c.1))));
        assert(es@.take(i + 1) =~= es@.take(i as int).push(es@[i as int]));
        i = i + 1;
    }
    assert(es@.take(i as int) =~= es@);
    out
}

impl Clone for CliConfig {
    fn clone(&self) -> (r: Self)
        ensures
            r@ == self@,
    {
        CliConfig {
            workload: self.workload.clone(),
            build: self.build.clone(),
            deploy: self.deploy.clone(),
            environments: clone_envs(&self.environments),
        }
    }
}

impl Default for CliConfig {
    /// An empty workload with the default build and deployment and no environments.
    fn default() -> (r: Self)
        ensures
            r@.workload.name.len() == 0,
            r@.workload.version.len() == 0,
            r@.workload.description is None,
            r@.workload.authors.len() == 0,
            r@.build == default_build_view(),
            r@.deploy == default_deploy_view(),
            r@.environments.len() == 0,
    {
        let r = CliConfig {
            workload: WorkloadConfig::default(),
            build: BuildConfig::default(),
            deploy: DeployConfig::default(),
            environments: Vec::new(),
        };
        assert(r@.environments =~= Seq::<(Seq<char>, Option<DeployView>)>::empty());
        r
    }
}

/// Whether an environment entry has this name.
pub open spec fn env_named(env: Seq<char>) -> spec_fn((Seq<char>, Option<DeployView>)) -> bool {
    |e: (Seq<char>, Option<DeployView>)| e.0 == env
}

/// The deployment override of the first environment with this name, if it has one.
pub open spec fn env_override(envs: Seq<(Seq<char>, Option<DeployView>)>, env: Seq<char>) -> Option<DeployView> {
    match crate::seq_util::first_index(envs, env_named(env)) {
        Some(i) => envs[i].1,
        None => None,
    }
}

impl CliConfig {
    /// The configuration for an environment: this one, with the deployment
    /// replaced by the environment's override when it has one.
    pub fn for_environment(&self, env: &str) -> (r: CliConfig)
        ensures
            r@ == (CliView {
                deploy: match env_override(self@.environments, env@) {
                    Some(d) => d,
                    None => self@.deploy,
                },
                ..self@
            }),
    {
        let mut config = self.clone();
        let ghost ev = self@.environments;
        let mut i: usize = 0;
        while i < self.environments.len()
            invariant
                i <= self.environments@.len(),
                ev == env_views(self.environments@),
                config@ == self@,
                forall|j: int| 0 <= j < i ==> !env_named(env@)(#[trigger] ev[j]),
            decreases self.environments@.len() - i,
        {
            if crate::text::str_eq(self.environments[i].0.as_str(), env) {
                proof {
                    assert(crate::seq_util::is_first(ev, env_named(env@), i as int));
                    crate::seq_util::lemma_first_index_is(ev, env_named(env@), i as int);
                }
                if let Some(d) = &self.environments[i].1.deploy {
                    config.deploy = d.clone();
                }
                return config;
            }
            i = i + 1;
        }
        proof {
            crate::seq_util::lemma_first_index_none(ev, env_named(env@));
        }
        config
    }

    /// The configuration of a new workload: named, at version 0.1.0, with the
    /// default build and deployment and no environments.
    pub fn default_for_workload(name: &str) -> (r: Self)
        ensures
            r@.workload.name == name@,
            r@.workload.version == "0.1.0"@,
            r@.workload.description is None,
            r@.workload.authors.len() == 0,
            r@.build == default_build_view(),
            r@.deploy == default_deploy_view(),
            r@.environments.len() == 0,
    {
        let r = CliConfig {
            workload: WorkloadConfig {
                name: name.to_string(),
                version: "0.1.0".to_string(),
                description: None,
                authors: Vec::new(),
            },
            build: BuildConfig::default(),
            deploy: DeployConfig::default(),
            environments: Vec::new(),
        };
        assert(r@.workload.authors =~= Seq::<Seq<char>>::empty());
        assert(r@.environments =~= Seq::<(Seq<char>, Option<DeployView>)>::empty());
        r
    }
}

/// The text of a default `edge.toml` for a workload: the workload section with
/// the name, the default build, a deployment with one route, and staging and
/// production environments.
pub open spec fn default_config_text(name: Seq<char>) -> Seq<char> {
    "# Edge workload configuration\n\n[workload]\nname = \""@ + name + "\"\nversion = \"0.1.0\"\ndescription = \"An edge streaming SSR workload\"\n\n[build]\ntarget = \"wasm32-wasip1\"\nprofile = \"release\"\noptimize = true\n\n[deploy]\n# platform_url = \"https://cloud.fermyon.com\"\n# app_name = \""@ + name + "\"\ncanary = false\nversions_to_keep = 5\n\n[[deploy.routes]]\npath = \"/hello\"\nmethods = [\"GET\"]\n\n[environments.staging]\n[environments.staging.deploy]\n# app_name = \""@ + name + "-staging\"\ncanary = true\ncanary_percentage = 20\n\n[environments.production]\n[environments.production.deploy]\n# app_name = \""@ + name + "\"\ncanary = false\n"@
}

/// Generate a default edge.toml config file.
pub fn generate_default_config(name: &str) -> (r: String)
    ensures
        r@ == default_config_text(name@),
{
    let mut s = "# Edge workload configuration\n\n[workload]\nname = \"".to_string();
    s.append(name);
    s.append("\"\nversion = \"0.1.0\"\ndescription = \"An edge streaming SSR workload\"\n\n[build]\ntarget = \"wasm32-wasip1\"\nprofile = \"release\"\noptimize = true\n\n[deploy]\n# platform_url = \"https://cloud.fermyon.com\"\n# app_name = \"");
    s.append(name);
    s.append("\"\ncanary = false\nversions_to_keep = 5\n\n[[deploy.routes]]\npath = \"/hello\"\nmethods = [\"GET\"]\n\n[environments.staging]\n[environments.staging.deploy]\n# app_name = \"");
    s.append(name);
    s.append("-staging\"\ncanary = true\ncanary_percentage = 20\n\n[environments.production]\n[environments.production.deploy]\n# app_name = \"");
    s.append(name);
    s.append("\"\ncanary = false\n");
    s
}

} // verus!
