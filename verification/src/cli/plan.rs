//! The decisions of building and deploying: cargo and spin arguments, the
//! application name, version tags and canary settings.
use vstd::prelude::*;
use crate::cli::args::{BuildArgs, DeployArgs};
use crate::cli::config::{BuildConfig, BuildView, CliConfig, CliView, DeployConfig};
use crate::http::headers::pair_views;
use crate::text::{dec_digits, join, join_strings, push_dec, str_eq, string_views};

verus! {

/// Whether a build is a release build: asked for, or the configured profile.
pub open spec fn is_release(release: bool, b: BuildView) -> bool {
    release || b.profile == "release"@
}

/// The features of a build: the configured ones, then those asked for.
pub open spec fn build_features(b: BuildView, extra: Seq<Seq<char>>) -> Seq<Seq<char>> {
    b.features + extra
}

/// The arguments of `cargo` for a build: `build --target <target>`, `--release`
/// for a release build, `--features` with the comma-joined features when there
/// are any, then the configured extra arguments.
pub open spec fn cargo_args_for(b: BuildView, release: bool, extra: Seq<Seq<char>>) -> Seq<Seq<char>> {
    seq!["build"@, "--target"@, b.target] + (if is_release(release, b) {
        seq!["--release"@]
    } else {
        Seq::empty()
    }) + (if build_features(b, extra).len() > 0 {
        seq!["--features"@, join(build_features(b, extra), ","@)]
    } else {
        Seq::empty()
    }) + b.cargo_args
}

/// Append copies of strings to a list.
fn extend_strings(out: &mut Vec<String>, more: &Vec<String>)
    ensures
        string_views(final(out)@) == string_views(old(out)@) + string_views(more@),
{
    let ghost start = string_views(out@);
    let mut i: usize = 0;
    while i < more.len()
        invariant
            i <= more@.len(),
            string_views(out@) =~= start + string_views(more@.take(i as int)),
        decreases more@.len() - i,
    {
        let c = more[i].clone();
        let ghost before = string_views(out@);
        out.push(c);
        assert(string_views(out@) =~= before.push(c@));
        assert(more@.take(i + 1) =~= more@.take(i as int).push(more@[i as int]));
        i = i + 1;
    }
    assert(more@.take(i as int) =~= more@);
}

/// The arguments of `cargo` for building a workload.
pub fn cargo_build_args(build: &BuildConfig, args: &BuildArgs) -> (r: Vec<String>)
    ensures
        string_views(r@) == cargo_args_for(build@, args.release, string_views(args.features@)),
{
    let mut out: Vec<String> = Vec::new();
    out.push("build".to_string());
    out.push("--target".to_string());
    out.push(build.target.clone());
    let ghost a = string_views(out@);
    assert(a =~= seq!["build"@, "--target"@, build@.target]);
    if args.release || str_eq(build.profile.as_str(), "release") {
        out.push("--release".to_string());
    }
    let ghost b = string_views(out@);
    assert(b =~= a + (if is_release(args.release, build@) {
        seq!["--release"@]
    } else {
        Seq::empty()
    }));
    let mut features: Vec<String> = Vec::new();
    extend_strings(&mut features, &build.features);
    extend_strings(&mut features, &args.features);
    assert(string_views(features@) =~= build_features(build@, string_views(args.features@)));
    if features.len() > 0 {
        out.push("--features".to_string());
        out.push(join_strings(&features, ","));
    }
    let ghost c = string_views(out@);
    assert(c =~= b + (if build_features(build@, string_views(args.features@)).len() > 0 {
        seq!["--features"@, join(build_features(build@, string_views(args.features@)), ","@)]
    } else {
        Seq::empty()
    }));
    extend_strings(&mut out, &build.cargo_args);
    out
}

/// The profile directory a build writes to: "release" or "debug".
pub fn build_profile_dir(build: &BuildConfig, release: bool) -> (r: &'static str)
    ensures
        r@ == if is_release(release, build@) { "release"@ } else { "debug"@ },
{
    if release || str_eq(build.profile.as_str(), "release") {
        "release"
    } else {
        "debug"
    }
}

/// The application name of a deployment: the configured one, else the workload's name.
pub open spec fn app_name_for(env_config: CliView, base: CliView) -> Seq<char> {
    match env_config.deploy.app_name {
        Some(n) => n,
        None => base.workload.name,
    }
}

/// The application name of a deployment.
pub fn deploy_app_name(env_config: &CliConfig, base: &CliConfig) -> (r: String)
    ensures
        r@ == app_name_for(env_config@, base@),
{
    match &env_config.deploy.app_name {
        Some(n) => n.clone(),
        None => base.workload.name.clone(),
    }
}

/// The tag of a deployment: the one given, else `v<version>-<timestamp>`.
pub open spec fn version_tag_for(tag: Option<Seq<char>>, version: Seq<char>, timestamp: Seq<char>) -> Seq<char> {
    match tag {
        Some(t) => t,
        None => "v"@ + version + "-"@ + timestamp,
    }
}

/// The tag of a deployment.
pub fn version_tag(tag: &Option<String>, version: &str, timestamp: &str) -> (r: String)
    ensures
        r@ == version_tag_for(
            match tag {
                Some(t) => Some(t@),
                None => None,
            },
            version@,
            timestamp@,
        ),
{
    match tag {
        Some(t) => t.clone(),
        None => {
            let mut s = "v".to_string();
            s.append(version);
            s.append("-");
            s.append(timestamp);
            s
        },
    }
}

/// How a deployment rolls out.
#[derive(Debug, Clone, Copy, PartialEq, Eq, Structural)]
pub struct Rollout {
    /// Whether the deployment is a canary.
    pub canary: bool,
    /// The share of traffic of a canary.
    pub percentage: u8,
}

/// The rollout of a deployment: a canary when asked for or configured, at the
/// percentage asked for, else the configured one.
pub open spec fn rollout_for(canary: bool, percentage: Option<u8>, d: crate::cli::config::DeployView) -> Rollout {
    Rollout {
        canary: canary || d.canary,
        percentage: match percentage {
            Some(p) => p,
            None => d.canary_percentage,
        },
    }
}

/// The rollout of a deployment.
pub fn plan_rollout(args: &DeployArgs, deploy: &DeployConfig) -> (r: Rollout)
    ensures
        r == rollout_for(args.canary, args.canary_percentage, deploy@),
{
    Rollout {
        canary: args.canary || deploy.canary,
        percentage: match args.canary_percentage {
            Some(p) => p,
            None => deploy.canary_percentage,
        },
    }
}

/// How a rollout is described: "Canary (N%)" or "Full rollout".
pub open spec fn rollout_label_text(r: Rollout) -> Seq<char> {
    if r.canary {
        "Canary ("@ + dec_digits(r.percentage as nat) + "%)"@
    } else {
        "Full rollout"@
    }
}

impl Rollout {
    /// How the rollout is described.
    pub fn label(&self) -> (r: String)
        ensures
            r@ == rollout_label_text(*self),
    {
        if self.canary {
            let mut s = "Canary (".to_string();
            push_dec(&mut s, self.percentage as u128);
            s.append("%)");
            s
        } else {
            "Full rollout".to_string()
        }
    }

    /// The percentage a deployment record keeps: that of a canary, none for a full rollout.
    pub fn recorded_percentage(&self) -> (r: Option<u8>)
        ensures
            r == if self.canary { Some(self.percentage) } else { None::<u8> },
    {
        if self.canary {
            Some(self.percentage)
        } else {
            None
        }
    }
}

/// The arguments of `spin deploy`: `deploy`, then `--variable name=value` for
/// each environment variable, in order.
pub open spec fn spin_args_for(vars: Seq<(Seq<char>, Seq<char>)>) -> Seq<Seq<char>>
    decreases vars.len(),
{
    if vars.len() == 0 {
        seq!["deploy"@]
    } else {
        spin_args_for(vars.drop_last()) + seq![
            "--variable"@,
            vars.last().0 + "="@ + vars.last().1,
        ]
    }
}

/// The arguments of `spin deploy`.
pub fn spin_deploy_args(deploy: &DeployConfig) -> (r: Vec<String>)
    ensures
        string_views(r@) == spin_args_for(pair_views(deploy.env_vars@)),
{
    let ghost vars = pair_views(deploy.env_vars@);
    let mut out: Vec<String> = Vec::new();
    out.push("deploy".to_string());
    let mut i: usize = 0;
    assert(vars.take(0) =~= Seq::<(Seq<char>, Seq<char>)>::empty());
    assert(string_views(out@) =~= seq!["deploy"@]);
    while i < deploy.env_vars.len()
        invariant
            i <= deploy.env_vars@.len(),
            vars == pair_views(deploy.env_vars@),
            string_views(out@) == spin_args_for(vars.take(i as int)),
        decreases deploy.env_vars@.len() - i,
    {
        assert(vars.take(i + 1).drop_last() =~= vars.take(i as int));
        let mut kv = deploy.env_vars[i].0.clone();
        kv.append("=");
        kv.append(deploy.env_vars[i].1.as_str());
        let ghost before = string_views(out@);
        out.push("--variable".to_string());
        out.push(kv);
        assert(string_views(out@) =~= before + seq!["--variable"@, kv@]);
        i = i + 1;
    }
    assert(vars.take(i as int) =~= vars);
    out
}

/// The file a deployment record is kept in: `<environment>-<version>.json`.
pub fn deployment_file_name(environment: &str, version: &str) -> (r: String)
    ensures
        r@ == environment@ + "-"@ + version@ + ".json"@,
{
    let mut s = environment.to_string();
    s.append("-");
    s.append(version);
    s.append(".json");
    s
}

/// Whether a record file (by its name without extension) belongs to an environment.
pub fn is_environment_record(stem: &str, environment: &str) -> (r: bool)
    ensures
        r == (environment@ + "-"@).is_prefix_of(stem@),
{
    let mut prefix = environment.to_string();
    prefix.append("-");
    crate::text::starts_with(stem, prefix.as_str())
}

} // verus!
