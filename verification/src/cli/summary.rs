//! The lines that summarise a configuration for a reader: sections with their
//! settings, in the order of the configuration file.
use vstd::prelude::*;
use crate::cli::config::{
    env_view, env_views, opt_view, route_views, CliConfig, CliView, DeployView, EnvironmentConfig, RouteConfig,
    RouteView,
};
use crate::http::headers::pair_views;
use crate::cli::keys::{bool_string, bool_text};
use crate::text::{dec_digits, dec_string, join, join_strings, string_views};

verus! {

/// A line of a configuration summary.
#[derive(Debug, Clone)]
pub enum SummaryLine {
    /// An empty line.
    Blank,
    /// A section heading.
    Heading(String),
    /// A setting and its value.
    Field(String, String),
    /// An entry of a list.
    Item(String),
}

/// A line of a configuration summary, as text.
pub enum LineView {
    Blank,
    Heading(Seq<char>),
    Field(Seq<char>, Seq<char>),
    Item(Seq<char>),
}

/// The text of a summary line.
pub open spec fn line_view(l: SummaryLine) -> LineView {
    match l {
        SummaryLine::Blank => LineView::Blank,
        SummaryLine::Heading(h) => LineView::Heading(h@),
        SummaryLine::Field(k, v) => LineView::Field(k@, v@),
        SummaryLine::Item(i) => LineView::Item(i@),
    }
}

/// The texts of summary lines.
pub open spec fn line_views(ls: Seq<SummaryLine>) -> Seq<LineView> {
    ls.map_values(|l: SummaryLine| line_view(l))
}

/// A setting shown only when it has a value.
pub open spec fn optional_field(key: Seq<char>, value: Option<Seq<char>>) -> Seq<LineView> {
    match value {
        Some(v) => seq![LineView::Field(key, v)],
        None => Seq::empty(),
    }
}

/// A path and its methods for each route, in order.
pub open spec fn route_fields(routes: Seq<RouteView>) -> Seq<LineView>
    decreases routes.len(),
{
    if routes.len() == 0 {
        Seq::empty()
    } else {
        let r = routes.last();
        route_fields(routes.drop_last()) + seq![
            LineView::Field("path"@, r.path),
            LineView::Field("methods"@, join(r.methods, ", "@)),
        ]
    }
}

/// The `[workload]` section: name, version and, when set, description.
pub open spec fn workload_section(c: CliView) -> Seq<LineView> {
    seq![
        LineView::Blank,
        LineView::Heading("[workload]"@),
        LineView::Field("name"@, c.workload.name),
        LineView::Field("version"@, c.workload.version),
    ] + optional_field("description"@, c.workload.description)
}

/// The `[build]` section: target, profile, optimize and, when there are any,
/// the features joined with commas.
pub open spec fn build_section(c: CliView) -> Seq<LineView> {
    seq![
        LineView::Blank,
        LineView::Heading("[build]"@),
        LineView::Field("target"@, c.build.target),
        LineView::Field("profile"@, c.build.profile),
        LineView::Field("optimize"@, bool_text(c.build.optimize)),
    ] + (if c.build.features.len() > 0 {
        seq![LineView::Field("features"@, join(c.build.features, ", "@))]
    } else {
        Seq::empty()
    })
}

/// The `[deploy]` section: platform URL and application name when set, then
/// canary and the number of versions kept.
pub open spec fn deploy_section(c: CliView) -> Seq<LineView> {
    seq![LineView::Blank, LineView::Heading("[deploy]"@)] + optional_field("platform_url"@, c.deploy.platform_url)
        + optional_field("app_name"@, c.deploy.app_name) + seq![
        LineView::Field("canary"@, bool_text(c.deploy.canary)),
        LineView::Field("versions_to_keep"@, dec_digits(c.deploy.versions_to_keep as nat)),
    ]
}

/// Each environment variable as a setting.
pub open spec fn env_var_fields(vars: Seq<(Seq<char>, Seq<char>)>) -> Seq<LineView> {
    vars.map_values(|p: (Seq<char>, Seq<char>)| LineView::Field(p.0, p.1))
}

/// The `[deploy.env_vars]` section, when there are variables.
pub open spec fn env_var_section(vars: Seq<(Seq<char>, Seq<char>)>) -> Seq<LineView> {
    if vars.len() > 0 {
        seq![LineView::Blank, LineView::Heading("[deploy.env_vars]"@)] + env_var_fields(vars)
    } else {
        Seq::empty()
    }
}

/// The `[[deploy.routes]]` section, when there are routes.
pub open spec fn route_section(routes: Seq<RouteView>) -> Seq<LineView> {
    if routes.len() > 0 {
        seq![LineView::Blank, LineView::Heading("[[deploy.routes]]"@)] + route_fields(routes)
    } else {
        Seq::empty()
    }
}

/// Each environment's name as a list entry.
pub open spec fn environment_items(envs: Seq<(Seq<char>, Option<DeployView>)>) -> Seq<LineView> {
    envs.map_values(|e: (Seq<char>, Option<DeployView>)| LineView::Item(e.0))
}

/// The list of environments, when there are any.
pub open spec fn environment_section(envs: Seq<(Seq<char>, Option<DeployView>)>) -> Seq<LineView> {
    if envs.len() > 0 {
        seq![LineView::Blank, LineView::Heading("Environments:"@)] + environment_items(envs)
    } else {
        Seq::empty()
    }
}

/// The summary of a configuration: its workload, build and deploy sections,
/// then its environment variables, routes and environments when there are any.
pub open spec fn config_summary(c: CliView) -> Seq<LineView> {
    workload_section(c) + build_section(c) + deploy_section(c) + env_var_section(c.deploy.env_vars)
        + route_section(c.deploy.routes) + environment_section(c.environments)
}

/// Append a line.
fn push_line(out: &mut Vec<SummaryLine>, l: SummaryLine)
    ensures
        line_views(final(out)@) == line_views(old(out)@).push(line_view(l)),
{
    let ghost before = out@;
    out.push(l);
    assert(line_views(out@) =~= line_views(before).push(line_view(l)));
}

/// Append a setting when it has a value.
fn push_optional(out: &mut Vec<SummaryLine>, key: &str, value: &Option<String>)
    ensures
        line_views(final(out)@) == line_views(old(out)@) + optional_field(key@, opt_view(*value)),
{
    match value {
        Some(v) => {
            let ghost before = line_views(out@);
            push_line(out, SummaryLine::Field(key.to_string(), v.clone()));
            assert(line_views(out@) =~= before + optional_field(key@, opt_view(*value)));
        },
        None => {
            assert(line_views(out@) =~= line_views(out@) + Seq::<LineView>::empty());
        },
    }
}

fn push_workload(out: &mut Vec<SummaryLine>, config: &CliConfig)
    ensures
        line_views(final(out)@) == line_views(old(out)@) + workload_section(config@),
{
    let ghost before = line_views(out@);
    push_line(out, SummaryLine::Blank);
    push_line(out, SummaryLine::Heading("[workload]".to_string()));
    push_line(out, SummaryLine::Field("name".to_string(), config.workload.name.clone()));
    push_line(out, SummaryLine::Field("version".to_string(), config.workload.version.clone()));
    let ghost mid = line_views(out@);
    push_optional(out, "description", &config.workload.description);
    assert(mid =~= before + seq![
        LineView::Blank,
        LineView::Heading("[workload]"@),
        LineView::Field("name"@, config@.workload.name),
        LineView::Field("version"@, config@.workload.version),
    ]);
    assert(line_views(out@) =~= before + workload_section(config@));
}

fn push_build(out: &mut Vec<SummaryLine>, config: &CliConfig)
    ensures
        line_views(final(out)@) == line_views(old(out)@) + build_section(config@),
{
    let ghost before = line_views(out@);
    push_line(out, SummaryLine::Blank);
    push_line(out, SummaryLine::Heading("[build]".to_string()));
    push_line(out, SummaryLine::Field("target".to_string(), config.build.target.clone()));
    push_line(out, SummaryLine::Field("profile".to_string(), config.build.profile.clone()));
    push_line(out, SummaryLine::Field("optimize".to_string(), bool_string(config.build.optimize)));
    let ghost mid = line_views(out@);
    assert(mid =~= before + seq![
        LineView::Blank,
        LineView::Heading("[build]"@),
        LineView::Field("target"@, config@.build.target),
        LineView::Field("profile"@, config@.build.profile),
        LineView::Field("optimize"@, bool_text(config@.build.optimize)),
    ]);
    if config.build.features.len() > 0 {
        push_line(out, SummaryLine::Field("features".to_string(), join_strings(&config.build.features, ", ")));
    }
    assert(line_views(out@) =~= before + build_section(config@));
}

fn push_deploy(out: &mut Vec<SummaryLine>, config: &CliConfig)
    ensures
        line_views(final(out)@) == line_views(old(out)@) + deploy_section(config@),
{
    let ghost before = line_views(out@);
    push_line(out, SummaryLine::Blank);
    push_line(out, SummaryLine::Heading("[deploy]".to_string()));
    let ghost m1 = line_views(out@);
    push_optional(out, "platform_url", &config.deploy.platform_url);
    let ghost m2 = line_views(out@);
    push_optional(out, "app_name", &config.deploy.app_name);
    let ghost m3 = line_views(out@);
    push_line(out, SummaryLine::Field("canary".to_string(), bool_string(config.deploy.canary)));
    push_line(
        out,
        SummaryLine::Field("versions_to_keep".to_string(), dec_string(config.deploy.versions_to_keep as u64)),
    );
    assert(m1 =~= before + seq![LineView::Blank, LineView::Heading("[deploy]"@)]);
    assert(line_views(out@) =~= m3 + seq![
        LineView::Field("canary"@, bool_text(config@.deploy.canary)),
        LineView::Field("versions_to_keep"@, dec_digits(config@.deploy.versions_to_keep as nat)),
    ]);
    assert(line_views(out@) =~= before + deploy_section(config@));
}

fn push_env_vars(out: &mut Vec<SummaryLine>, vars: &Vec<(String, String)>)
    ensures
        line_views(final(out)@) == line_views(old(out)@) + env_var_section(pair_views(vars@)),
{
    if vars.len() == 0 {
        assert(line_views(out@) =~= line_views(out@) + Seq::<LineView>::empty());
        return;
    }
    let ghost before = line_views(out@);
    push_line(out, SummaryLine::Blank);
    push_line(out, SummaryLine::Heading("[deploy.env_vars]".to_string()));
    let ghost start = line_views(out@);
    let mut i: usize = 0;
    while i < vars.len()
        invariant
            i <= vars@.len(),
            line_views(out@) =~= start + env_var_fields(pair_views(vars@.take(i as int))),
        decreases vars@.len() - i,
    {
        let (k, v) = (vars[i].0.clone(), vars[i].1.clone());
        let ghost prev = line_views(out@);
        push_line(out, SummaryLine::Field(k, v));
        assert(pair_views(vars@.take(i + 1)) =~= pair_views(vars@.take(i as int)).push(
            (vars@[i as int].0@, vars@[i as int].1@),
        ));
        i = i + 1;
    }
    assert(vars@.take(i as int) =~= vars@);
    assert(line_views(out@) =~= before + env_var_section(pair_views(vars@)));
}

fn push_routes(out: &mut Vec<SummaryLine>, routes: &Vec<RouteConfig>)
    ensures
        line_views(final(out)@) == line_views(old(out)@) + route_section(route_views(routes@)),
{
    if routes.len() == 0 {
        assert(line_views(out@) =~= line_views(out@) + Seq::<LineView>::empty());
        return;
    }
    let ghost before = line_views(out@);
    push_line(out, SummaryLine::Blank);
    push_line(out, SummaryLine::Heading("[[deploy.routes]]".to_string()));
    let ghost start = line_views(out@);
    let mut i: usize = 0;
    while i < routes.len()
        invariant
            i <= routes@.len(),
            line_views(out@) =~= start + route_fields(route_views(routes@.take(i as int))),
        decreases routes@.len() - i,
    {
        let ghost prev = line_views(out@);
        push_line(out, SummaryLine::Field("path".to_string(), routes[i].path.clone()));
        push_line(out, SummaryLine::Field("methods".to_string(), join_strings(&routes[i].methods, ", ")));
        assert(route_views(routes@.take(i + 1)).drop_last() =~= route_views(routes@.take(i as int)));
        assert(route_views(routes@.take(i + 1)).last() == routes@[i as int]@);
        i = i + 1;
    }
    assert(routes@.take(i as int) =~= routes@);
    assert(line_views(out@) =~= before + route_section(route_views(routes@)));
}

fn push_environments(out: &mut Vec<SummaryLine>, envs: &Vec<(String, EnvironmentConfig)>)
    ensures
        line_views(final(out)@) == line_views(old(out)@) + environment_section(env_views(envs@)),
{
    if envs.len() == 0 {
        assert(line_views(out@) =~= line_views(out@) + Seq::<LineView>::empty());
        return;
    }
    let ghost before = line_views(out@);
    push_line(out, SummaryLine::Blank);
    push_line(out, SummaryLine::Heading("Environments:".to_string()));
    let ghost start = line_views(out@);
    let mut i: usize = 0;
    while i < envs.len()
        invariant
            i <= envs@.len(),
            line_views(out@) =~= start + environment_items(env_views(envs@.take(i as int))),
        decreases envs@.len() - i,
    {
        push_line(out, SummaryLine::Item(envs[i].0.clone()));
        assert(env_views(envs@.take(i + 1)) =~= env_views(envs@.take(i as int)).push(
            (envs@[i as int].0@, env_view(envs@[i as int].1)),
        ));
        i = i + 1;
    }
    assert(envs@.take(i as int) =~= envs@);
    assert(line_views(out@) =~= before + environment_section(env_views(envs@)));
}

/// The lines summarising a configuration, in order.
pub fn config_lines(config: &CliConfig) -> (r: Vec<SummaryLine>)
    ensures
        line_views(r@) == config_summary(config@),
{
    let mut out: Vec<SummaryLine> = Vec::new();
    assert(line_views(out@) =~= Seq::<LineView>::empty());
    push_workload(&mut out, config);
    push_build(&mut out, config);
    push_deploy(&mut out, config);
    push_env_vars(&mut out, &config.deploy.env_vars);
    push_routes(&mut out, &config.deploy.routes);
    push_environments(&mut out, &config.environments);
    assert(line_views(out@) =~= config_summary(config@));
    out
}

} // verus!
