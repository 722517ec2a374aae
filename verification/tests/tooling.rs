use turbocommerce::cli::order::{choose_rollback_target, newest_first, text_less, RollbackError, RollbackTarget};
use turbocommerce::cli::scaffold::{
    basic_cargo_toml, basic_spin_toml, parse_template, replace_dashes, streaming_cargo_toml, streaming_spin_toml,
    workload_name, Template,
};
use turbocommerce::framework::{route_meta_name, route_params, RouteMeta, TurboError};

fn strings(v: &[&str]) -> Vec<String> {
    v.iter().map(|s| s.to_string()).collect()
}

#[test]
fn route_params_lists_parameter_segments() {
    assert_eq!(route_params("/product/:id/reviews/:review_id"), strings(&["id", "review_id"]));
    assert_eq!(route_params("/about"), Vec::<String>::new());
    assert_eq!(route_params("/"), Vec::<String>::new());
    assert_eq!(route_params(":slug"), strings(&["slug"]));
    assert_eq!(route_params("/a/:"), strings(&[""]));
}

#[test]
fn route_meta_constant_name() {
    assert_eq!(route_meta_name("ProductPage"), "__TURBO_ROUTE_PRODUCTPAGE");
    assert_eq!(route_meta_name("home"), "__TURBO_ROUTE_HOME");
    let m = RouteMeta::new("/product/:id", "ProductPage");
    assert_eq!(m.path, "/product/:id");
    assert_eq!(m.component_name, "ProductPage");
}

#[test]
fn io_error_becomes_stream_error() {
    let e = std::io::Error::new(std::io::ErrorKind::Other, "pipe closed");
    match TurboError::from(e) {
        TurboError::StreamError(m) => assert!(m.contains("pipe closed")),
        other => panic!("unexpected {:?}", other),
    }
}

#[test]
fn text_order_is_by_characters() {
    assert!(text_less("1.0", "2.0"));
    assert!(!text_less("2.0", "1.0"));
    assert!(text_less("1.0", "1.0.1"));
    assert!(!text_less("1.0", "1.0"));
}

#[test]
fn newest_first_sorts_descending_and_stable() {
    let keys = strings(&["20240101", "20240301", "20240201", "20240301"]);
    assert_eq!(newest_first(&keys), vec![1, 3, 2, 0]);
    assert_eq!(newest_first(&Vec::new()), Vec::<usize>::new());
    let same = strings(&["a", "a", "a"]);
    assert_eq!(newest_first(&same), vec![0, 1, 2]);
}

#[test]
fn rollback_target_choices() {
    let one = strings(&["v1"]);
    match choose_rollback_target(&one, &None, true) {
        Err(e) => {
            assert!(matches!(e, RollbackError::NotEnoughVersions));
            assert_eq!(e.message(), "Not enough versions to rollback. Need at least 2 versions.");
        }
        Ok(_) => panic!("expected an error"),
    }
    let two = strings(&["v2", "v1"]);
    match choose_rollback_target(&two, &Some("v1".to_string()), false) {
        Ok(RollbackTarget::Named(v)) => assert_eq!(v, "v1"),
        _ => panic!("expected the named version"),
    }
    match choose_rollback_target(&two, &Some("v9".to_string()), true) {
        Err(e) => assert_eq!(e.message(), "Version 'v9' not found"),
        Ok(_) => panic!("expected an error"),
    }
    assert!(matches!(choose_rollback_target(&two, &None, true), Ok(RollbackTarget::Previous)));
    assert!(matches!(choose_rollback_target(&two, &None, false), Ok(RollbackTarget::Ask)));
}

#[test]
fn workload_names_and_templates() {
    assert_eq!(workload_name(".", Some("my-shop")), "my-shop");
    assert_eq!(workload_name(".", None), "my-workload");
    assert_eq!(workload_name("store", Some("ignored")), "store");
    assert_eq!(replace_dashes("my-edge-shop"), "my_edge_shop");
    assert_eq!(parse_template("basic"), Ok(Template::Basic));
    assert_eq!(parse_template("streaming"), Ok(Template::Streaming));
    assert_eq!(parse_template("fancy"), Err("Unknown template: fancy. Available: basic, streaming".to_string()));
}

#[test]
fn template_files() {
    let c = basic_cargo_toml("my-shop");
    assert!(c.starts_with("[package]\nname = \"my_shop\"\nversion = \"0.1.0\"\n"));
    assert!(c.contains("crate-type = [\"cdylib\"]"));
    assert!(!c.contains("futures"));
    let s = streaming_cargo_toml("my-shop");
    assert!(s.ends_with("futures = \"0.3\"\n"));
    let b = basic_spin_toml("my-shop");
    assert!(b.contains("route = \"/hello\"\ncomponent = \"my-shop\"\n"));
    assert!(b.contains("source = \"target/wasm32-wasip1/release/my_shop.wasm\""));
    let t = streaming_spin_toml("my-shop");
    assert!(t.contains("route = \"/...\""));
    assert!(t.contains("[component.my-shop.build]\n"));
}
