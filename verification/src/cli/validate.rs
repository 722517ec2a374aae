//! Checking a configuration: errors that make it unusable and warnings about
//! unusual settings.
use vstd::prelude::*;
use crate::cli::config::{CliConfig, CliView, RouteView};
use crate::lines::{contains_char, has_char};
use crate::text::{dec_digits, dec_string, str_eq, string_views};

verus! {

/// The result of checking a configuration.
#[derive(Debug, Clone)]
pub struct ValidationReport {
    /// Problems that make the configuration unusable.
    pub errors: Vec<String>,
    /// Settings that are allowed but unusual.
    pub warnings: Vec<String>,
}

/// The message for a route whose path does not start with a slash.
pub open spec fn route_error(i: nat) -> Seq<char> {
    "deploy.routes["@ + dec_digits(i) + "].path must start with '/'"@
}

/// The messages for the routes whose paths do not start with a slash, in order.
pub open spec fn route_errors(rs: Seq<RouteView>) -> Seq<Seq<char>>
    decreases rs.len(),
{
    if rs.len() == 0 {
        Seq::empty()
    } else {
        route_errors(rs.drop_last()) + if rs.last().path.len() > 0 && rs.last().path[0] == '/' {
            Seq::empty()
        } else {
            seq![route_error((rs.len() - 1) as nat)]
        }
    }
}

/// The errors of a configuration, in order: a missing workload name, a canary
/// percentage above 100 with canary deployment on, and each route path that
/// does not start with `/`.
pub open spec fn config_errors(c: CliView) -> Seq<Seq<char>> {
    (if c.workload.name.len() == 0 { seq!["workload.name is required"@] } else { Seq::empty() })
        + (if c.deploy.canary && c.deploy.canary_percentage > 100 {
        seq!["deploy.canary_percentage must be 0-100"@]
    } else {
        Seq::empty()
    }) + route_errors(c.deploy.routes)
}

/// The warnings of a configuration, in order: a version without a dot, and a
/// build target other than the two WASI targets.
pub open spec fn config_warnings(c: CliView) -> Seq<Seq<char>> {
    (if !has_char(c.workload.version, '.') {
        seq!["workload.version should follow semver (e.g., 1.0.0)"@]
    } else {
        Seq::empty()
    }) + (if c.build.target != "wasm32-wasip1"@ && c.build.target != "wasm32-wasi"@ {
        seq!["build.target '"@ + c.build.target + "' is unusual for Spin workloads"@]
    } else {
        Seq::empty()
    })
}

/// Check a configuration.
pub fn validate_config(config: &CliConfig) -> (r: ValidationReport)
    ensures
        string_views(r.errors@) == config_errors(config@),
        string_views(r.warnings@) == config_warnings(config@),
{
    let mut errors: Vec<String> = Vec::new();
    let mut warnings: Vec<String> = Vec::new();
    if config.workload.name.as_str().is_empty() {
        errors.push("workload.name is required".to_string());
    }
    if !contains_char(config.workload.version.as_str(), '.') {
        warnings.push("workload.version should follow semver (e.g., 1.0.0)".to_string());
    }
    if !str_eq(config.build.target.as_str(), "wasm32-wasip1") && !str_eq(
        config.build.target.as_str(),
        "wasm32-wasi",
    ) {
        let mut w = "build.target '".to_string();
        w.append(config.build.target.as_str());
        w.append("' is unusual for Spin workloads");
        warnings.push(w);
    }
    if config.deploy.canary && config.deploy.canary_percentage > 100 {
        errors.push("deploy.canary_percentage must be 0-100".to_string());
    }
    let ghost head = string_views(errors@);
    assert(head =~= (if config@.workload.name.len() == 0 {
        seq!["workload.name is required"@]
    } else {
        Seq::empty()
    }) + (if config@.deploy.canary && config@.deploy.canary_percentage > 100 {
        seq!["deploy.canary_percentage must be 0-100"@]
    } else {
        Seq::empty()
    }));
    assert(string_views(warnings@) =~= config_warnings(config@));
    let ghost rv = config@.deploy.routes;
    let mut i: usize = 0;
    assert(rv.take(0) =~= Seq::<RouteView>::empty());
    while i < config.deploy.routes.len()
        invariant
            i <= config.deploy.routes@.len(),
            rv == config@.deploy.routes,
            rv.len() == config.deploy.routes@.len(),
            string_views(errors@) == head + route_errors(rv.take(i as int)),
        decreases config.deploy.routes@.len() - i,
    {
        assert(rv.take(i + 1).drop_last() =~= rv.take(i as int));
        assert(rv[i as int] == config.deploy.routes@[i as int]@);
        let path = crate::text::chars_of(config.deploy.routes[i].path.as_str());
        let ghost before = string_views(errors@);
        if !(path.len() > 0 && path[0] == '/') {
            let mut e = "deploy.routes[".to_string();
            e.append(dec_string(i as u64).as_str());
            e.append("].path must start with '/'");
            errors.push(e);
            assert(string_views(errors@) =~= before.push(e@));
            assert(head + route_errors(rv.take(i + 1)) =~= (head + route_errors(rv.take(i as int))).push(
                route_error(i as nat),
            ));
        } else {
            assert(head + route_errors(rv.take(i + 1)) =~= head + route_errors(rv.take(i as int)));
        }
        i = i + 1;
    }
    assert(rv.take(i as int) =~= rv);
    ValidationReport { errors, warnings }
}

impl ValidationReport {
    /// Whether the configuration has neither errors nor warnings.
    pub fn is_clean(&self) -> (r: bool)
        ensures
            r == (self.errors@.len() == 0 && self.warnings@.len() == 0),
    {
        self.errors.len() == 0 && self.warnings.len() == 0
    }

    /// The failure to report when there are errors: "Configuration has N error(s)".
    pub fn failure_message(&self) -> (r: Option<String>)
        ensures
            self.errors@.len() == 0 ==> r is None,
            self.errors@.len() > 0 ==> (r matches Some(m) && m@ == "Configuration has "@ + dec_digits(
                self.errors@.len(),
            ) + " error(s)"@),
    {
        if self.errors.len() == 0 {
            None
        } else {
            let mut m = "Configuration has ".to_string();
            m.append(dec_string(self.errors.len() as u64).as_str());
            m.append(" error(s)");
            Some(m)
        }
    }
}


/// A new workload's configuration (with a name) has neither errors nor warnings.
pub proof fn law_new_workload_is_valid(c: CliView)
    requires
        c.workload.name.len() > 0,
        c.workload.version == "0.1.0"@,
        c.build == crate::cli::config::default_build_view(),
        c.deploy == crate::cli::config::default_deploy_view(),
    ensures
        config_errors(c).len() == 0,
        config_warnings(c).len() == 0,
{
    reveal_strlit("0.1.0");
    assert(c.workload.version[1] == '.');
    assert(route_errors(c.deploy.routes) =~= Seq::<Seq<char>>::empty());
}

} // verus!
