use turbocommerce::cli::summary::{config_lines, SummaryLine};
use turbocommerce::cli::args::{BuildArgs, DeployArgs};
use turbocommerce::cli::config::{generate_default_config, CliConfig, DeployConfig, EnvironmentConfig, RouteConfig};
use turbocommerce::cli::format::{
    determine_status, format_bytes, format_duration, format_timestamp, json_error_line, status_tone, table_row, StatusTone,
};
use turbocommerce::cli::keys::{get_config_value, parse_uint_text, set_config_value, CliError, IntErrorKind};
use turbocommerce::cli::plan::{
    build_profile_dir, cargo_build_args, deploy_app_name, deployment_file_name, is_environment_record,
    plan_rollout, spin_deploy_args, version_tag,
};
use turbocommerce::cli::scan::{extract_cargo_name, extract_deployed_url};
use turbocommerce::cli::validate::validate_config;

#[test]
fn default_config_for_workload() {
    let c = CliConfig::default_for_workload("shop");
    assert_eq!(c.workload.name, "shop");
    assert_eq!(c.workload.version, "0.1.0");
    assert_eq!(c.build.target, "wasm32-wasip1");
    assert_eq!(c.build.profile, "release");
    assert!(c.build.optimize);
    assert_eq!(c.deploy.canary_percentage, 10);
    assert_eq!(c.deploy.versions_to_keep, 5);
    assert!(c.environments.is_empty());
}

#[test]
fn environment_overrides_replace_deploy() {
    let mut c = CliConfig::default_for_workload("shop");
    let mut staging = DeployConfig::default();
    staging.canary = true;
    staging.canary_percentage = 20;
    c.environments.push(("staging".to_string(), EnvironmentConfig { deploy: Some(staging) }));
    c.environments.push(("dev".to_string(), EnvironmentConfig::default()));
    let s = c.for_environment("staging");
    assert!(s.deploy.canary);
    assert_eq!(s.deploy.canary_percentage, 20);
    assert_eq!(s.workload.name, "shop");
    let d = c.for_environment("dev");
    assert!(!d.deploy.canary);
    let p = c.for_environment("production");
    assert_eq!(p.deploy.canary_percentage, 10);
}

#[test]
fn default_config_text() {
    let text = generate_default_config("shop");
    assert!(text.starts_with("# Edge workload configuration\n\n[workload]\nname = \"shop\"\n"));
    assert!(text.contains("# app_name = \"shop-staging\"\n"));
    assert!(text.ends_with("[environments.production.deploy]\n# app_name = \"shop\"\ncanary = false\n"));
}

#[test]
fn get_config_values() {
    let mut c = CliConfig::default_for_workload("shop");
    assert_eq!(get_config_value(&c, "workload.name").unwrap(), "\"shop\"");
    assert_eq!(get_config_value(&c, "workload.description").unwrap(), "null");
    assert_eq!(get_config_value(&c, "build.optimize").unwrap(), "true");
    assert_eq!(get_config_value(&c, "deploy.canary_percentage").unwrap(), "10");
    c.workload.description = Some("d".to_string());
    assert_eq!(get_config_value(&c, "workload.description").unwrap(), "\"d\"");
    match get_config_value(&c, "workload") {
        Err(e) => assert_eq!(e.message(), "Unknown config key: workload"),
        Ok(_) => panic!("expected an error"),
    }
    assert!(get_config_value(&c, "workload.name.extra").is_err());
}

#[test]
fn set_config_values() {
    let mut c = CliConfig::default_for_workload("shop");
    set_config_value(&mut c, "workload.version", "2.0.0").unwrap();
    assert_eq!(c.workload.version, "2.0.0");
    set_config_value(&mut c, "deploy.canary", "true").unwrap();
    assert!(c.deploy.canary);
    set_config_value(&mut c, "deploy.versions_to_keep", "+12").unwrap();
    assert_eq!(c.deploy.versions_to_keep, 12);
    match set_config_value(&mut c, "deploy.canary_percentage", "300") {
        Err(e) => assert_eq!(e.message(), "number too large to fit in target type"),
        Ok(_) => panic!("expected an error"),
    }
    assert_eq!(c.deploy.canary_percentage, 10);
    match set_config_value(&mut c, "build.optimize", "yes") {
        Err(e) => assert_eq!(e.message(), "provided string was not `true` or `false`"),
        Ok(_) => panic!("expected an error"),
    }
    match set_config_value(&mut c, "deploy.app_name", "x") {
        Err(e) => assert_eq!(e.message(), "Unknown or read-only config key: deploy.app_name"),
        Ok(_) => panic!("expected an error"),
    }
    assert!(matches!(
        set_config_value(&mut c, "deploy.canary_percentage", ""),
        Err(CliError::InvalidInteger(IntErrorKind::Empty))
    ));
}

#[test]
fn unsigned_parsing_matches_std() {
    for s in ["0", "255", "256", "+", "-", "-1", "+5", "12a", "999a", "", "007", "1 ", "٣"] {
        let std_result = s.parse::<u8>();
        let ours = parse_uint_text(s, 255);
        match (std_result, ours) {
            (Ok(a), Ok(b)) => assert_eq!(a as u64, b, "{}", s),
            (Err(e), Err(k)) => {
                let expected = match k {
                    IntErrorKind::Empty => "cannot parse integer from empty string",
                    IntErrorKind::InvalidDigit => "invalid digit found in string",
                    IntErrorKind::PosOverflow => "number too large to fit in target type",
                };
                assert_eq!(e.to_string(), expected, "{}", s);
            }
            (a, b) => panic!("{}: {:?} vs {:?}", s, a, b),
        }
    }
}

#[test]
fn validation_reports_errors_and_warnings() {
    let mut c = CliConfig::default_for_workload("");
    c.workload.version = "1".to_string();
    c.build.target = "x86_64".to_string();
    c.deploy.canary = true;
    c.deploy.canary_percentage = 150;
    c.deploy.routes.push(RouteConfig { path: "/ok".to_string(), methods: vec![], handler: None });
    c.deploy.routes.push(RouteConfig { path: "bad".to_string(), methods: vec![], handler: None });
    let report = validate_config(&c);
    assert_eq!(
        report.errors,
        vec![
            "workload.name is required".to_string(),
            "deploy.canary_percentage must be 0-100".to_string(),
            "deploy.routes[1].path must start with '/'".to_string()
        ]
    );
    assert_eq!(
        report.warnings,
        vec![
            "workload.version should follow semver (e.g., 1.0.0)".to_string(),
            "build.target 'x86_64' is unusual for Spin workloads".to_string()
        ]
    );
    assert_eq!(report.failure_message(), Some("Configuration has 3 error(s)".to_string()));
    let clean = validate_config(&CliConfig::default_for_workload("shop"));
    assert!(clean.is_clean());
    assert_eq!(clean.failure_message(), None);
}

#[test]
fn cargo_names() {
    let toml = "[package]\r\n  name = \"my-app\"  \r\nversion = \"0.1.0\"\n";
    assert_eq!(extract_cargo_name(toml), Some("my-app".to_string()));
    assert_eq!(extract_cargo_name("name='x'"), Some("x".to_string()));
    assert_eq!(extract_cargo_name("[package]\nversion = 1\n"), None);
    assert_eq!(extract_cargo_name("names = a = b"), Some("a".to_string()));
}

#[test]
fn deployed_urls() {
    let out = "Uploading...\nAvailable Routes:\n  app: https://app.fermyon.app (wildcard)\n  other: https://x\n";
    assert_eq!(extract_deployed_url(out), Some("https://app.fermyon.app".to_string()));
    assert_eq!(extract_deployed_url("no url here\n"), None);
    assert_eq!(extract_deployed_url("at https://end"), Some("https://end".to_string()));
}

#[test]
fn durations() {
    assert_eq!(format_duration(0), "0s");
    assert_eq!(format_duration(59), "59s");
    assert_eq!(format_duration(60), "1m 0s");
    assert_eq!(format_duration(3599), "59m 59s");
    assert_eq!(format_duration(3600), "1h 0m");
    assert_eq!(format_duration(7322), "2h 2m");
}

#[test]
fn statuses_and_rows() {
    assert_eq!(determine_status(true, Some(25)), "canary-25%");
    assert_eq!(determine_status(true, None), "canary-0%");
    assert_eq!(determine_status(false, Some(25)), "active");
    assert_eq!(status_tone("Active"), StatusTone::Good);
    assert_eq!(status_tone("PENDING"), StatusTone::Pending);
    assert_eq!(status_tone("error"), StatusTone::Bad);
    assert_eq!(status_tone("stopped"), StatusTone::Muted);
    assert_eq!(status_tone("canary-10%"), StatusTone::Plain);
    assert_eq!(table_row(&["NAME", "TOOLONG"], &[6, 3]), "  NAME    TOOLONG");
    assert_eq!(table_row(&["a", "b", "c"], &[2]), "  a ");
    assert_eq!(json_error_line("say \"hi\""), "{\"error\": \"say \\\"hi\\\"\"}");
}

#[test]
fn build_and_deploy_plans() {
    let mut c = CliConfig::default_for_workload("shop");
    c.build.features = vec!["a".to_string()];
    c.build.cargo_args = vec!["--locked".to_string()];
    let args = BuildArgs { release: false, features: vec!["b".to_string()], no_optimize: false, path: None };
    assert_eq!(
        cargo_build_args(&c.build, &args),
        vec!["build", "--target", "wasm32-wasip1", "--release", "--features", "a,b", "--locked"]
    );
    c.build.profile = "dev".to_string();
    c.build.features.clear();
    let plain = BuildArgs { release: false, features: vec![], no_optimize: true, path: None };
    assert_eq!(cargo_build_args(&c.build, &plain), vec!["build", "--target", "wasm32-wasip1", "--locked"]);
    assert_eq!(build_profile_dir(&c.build, false), "debug");
    assert_eq!(build_profile_dir(&c.build, true), "release");

    assert_eq!(deploy_app_name(&c, &c), "shop");
    let mut env_c = c.clone();
    env_c.deploy.app_name = Some("shop-prod".to_string());
    assert_eq!(deploy_app_name(&env_c, &c), "shop-prod");
    assert_eq!(version_tag(&None, "1.2.0", "20240101120000"), "v1.2.0-20240101120000");
    assert_eq!(version_tag(&Some("t1".to_string()), "1.2.0", "x"), "t1");

    let d = DeployArgs {
        env: "production".to_string(),
        no_build: false,
        canary: false,
        canary_percentage: None,
        tag: None,
        yes: true,
        dry_run: false,
    };
    let rollout = plan_rollout(&d, &c.deploy);
    assert!(!rollout.canary);
    assert_eq!(rollout.label(), "Full rollout");
    assert_eq!(rollout.recorded_percentage(), None);
    let d2 = DeployArgs { canary: true, canary_percentage: Some(30), ..d };
    let rollout = plan_rollout(&d2, &c.deploy);
    assert_eq!(rollout.label(), "Canary (30%)");
    assert_eq!(rollout.recorded_percentage(), Some(30));

    c.deploy.env_vars = vec![("A".to_string(), "1".to_string()), ("B".to_string(), "x=y".to_string())];
    assert_eq!(spin_deploy_args(&c.deploy), vec!["deploy", "--variable", "A=1", "--variable", "B=x=y"]);
    assert_eq!(deployment_file_name("staging", "v1"), "staging-v1.json");
    assert!(is_environment_record("staging-v1", "staging"));
    assert!(!is_environment_record("stagingv1", "staging"));
}

fn float_bytes(bytes: u64) -> String {
    const KB: u64 = 1024;
    const MB: u64 = KB * 1024;
    const GB: u64 = MB * 1024;
    if bytes >= GB {
        format!("{:.2} GB", bytes as f64 / GB as f64)
    } else if bytes >= MB {
        format!("{:.2} MB", bytes as f64 / MB as f64)
    } else if bytes >= KB {
        format!("{:.2} KB", bytes as f64 / KB as f64)
    } else {
        format!("{} B", bytes)
    }
}

#[test]
fn byte_sizes() {
    assert_eq!(format_bytes(0), "0 B");
    assert_eq!(format_bytes(1023), "1023 B");
    assert_eq!(format_bytes(1024), "1.00 KB");
    assert_eq!(format_bytes(1536), "1.50 KB");
    assert_eq!(format_bytes(1048576), "1.00 MB");
    assert_eq!(format_bytes(5 * 1073741824), "5.00 GB");
    let mut samples: Vec<u64> = vec![
        1152, 1165, 1178, 1050, 10 * 1024 + 5, 1048576 + 5243, 1073741824 * 3 / 2, u64::MAX, u64::MAX - 1024,
        (1u64 << 53) + 1, (1u64 << 53) + 3, (1u64 << 60) + (1u64 << 7), 999_999_999_999,
    ];
    let mut x: u64 = 0x9e3779b97f4a7c15;
    for _ in 0..2000 {
        x ^= x << 13;
        x ^= x >> 7;
        x ^= x << 17;
        samples.push(x >> (x % 60));
    }
    for b in samples {
        assert_eq!(format_bytes(b), float_bytes(b), "bytes {}", b);
    }
}

fn line_text(l: &SummaryLine) -> String {
    match l {
        SummaryLine::Blank => String::new(),
        SummaryLine::Heading(h) => format!("#{}", h),
        SummaryLine::Field(k, v) => format!("{}={}", k, v),
        SummaryLine::Item(i) => format!("-{}", i),
    }
}

#[test]
fn config_summary_lines() {
    let mut c = CliConfig::default_for_workload("shop");
    let plain: Vec<String> = config_lines(&c).iter().map(line_text).collect();
    assert_eq!(
        plain,
        vec![
            "", "#[workload]", "name=shop", "version=0.1.0", "", "#[build]", "target=wasm32-wasip1",
            "profile=release", "optimize=true", "", "#[deploy]", "canary=false", "versions_to_keep=5",
        ]
    );
    c.workload.description = Some("A store".to_string());
    c.build.features = vec!["ssr".to_string(), "kv".to_string()];
    c.deploy.app_name = Some("shop-prod".to_string());
    c.deploy.env_vars.push(("LOG".to_string(), "debug".to_string()));
    c.deploy.routes.push(RouteConfig { path: "/api".to_string(), methods: vec!["GET".to_string(), "POST".to_string()], handler: None });
    c.environments.push(("staging".to_string(), EnvironmentConfig::default()));
    let full: Vec<String> = config_lines(&c).iter().map(line_text).collect();
    assert!(full.contains(&"description=A store".to_string()));
    assert!(full.contains(&"features=ssr, kv".to_string()));
    assert!(full.contains(&"app_name=shop-prod".to_string()));
    let tail: Vec<String> = full[full.len() - 10..].to_vec();
    assert_eq!(
        tail,
        vec!["", "#[deploy.env_vars]", "LOG=debug", "", "#[[deploy.routes]]", "path=/api", "methods=GET, POST", "", "#Environments:", "-staging"]
    );
}

#[test]
fn deployment_timestamps_shown_in_utc() {
    assert_eq!(format_timestamp("2024-01-15T10:30:00Z"), "2024-01-15 10:30:00 UTC");
    assert_eq!(format_timestamp("2024-01-15T12:30:00+02:00"), "2024-01-15 10:30:00 UTC");
    assert_eq!(format_timestamp("yesterday"), "yesterday");
}
