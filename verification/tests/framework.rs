use turbocommerce::framework::{generate_shell_html, StreamConfig, TurboApp, TurboConfig, TurboError};

#[test]
fn test_turbo_config_default() {
    let config = TurboConfig::default();

    assert_eq!(config.name, "TurboApp");
    assert!(config.streaming);
    assert_eq!(config.default_title, "TurboCommerce");
    assert!(config.css_path.is_none());
}

#[test]
fn test_turbo_config_new() {
    let config = TurboConfig::new("MyStore");

    assert_eq!(config.name, "MyStore");
    assert!(config.streaming);
}

#[test]
fn test_turbo_config_with_title() {
    let config = TurboConfig::new("App").with_title("Custom Title");

    assert_eq!(config.default_title, "Custom Title");
}

#[test]
fn test_turbo_config_with_css() {
    let config = TurboConfig::new("App").with_css("/styles/main.css");

    assert_eq!(config.css_path, Some("/styles/main.css".to_string()));
}

#[test]
fn test_turbo_config_with_streaming() {
    let config = TurboConfig::new("App").with_streaming(false);

    assert!(!config.streaming);
}

#[test]
fn test_turbo_config_builder_chain() {
    let config = TurboConfig::new("Shop").with_title("My Shop").with_css("/pkg/style.css").with_streaming(true);

    assert_eq!(config.name, "Shop");
    assert_eq!(config.default_title, "My Shop");
    assert_eq!(config.css_path, Some("/pkg/style.css".to_string()));
    assert!(config.streaming);
}

#[test]
fn test_turbo_config_clone() {
    let config = TurboConfig::new("App").with_title("Title").with_css("/style.css");

    let cloned = config.clone();
    assert_eq!(cloned.name, config.name);
    assert_eq!(cloned.default_title, config.default_title);
}

#[test]
fn test_turbo_app_new() {
    let app = TurboApp::new("TestApp");

    assert_eq!(app.config().name, "TestApp");
    assert!(app.routes().routes().is_empty());
}

#[test]
fn test_turbo_app_with_title() {
    let app = TurboApp::new("App").with_title("Custom Title");

    assert_eq!(app.config().default_title, "Custom Title");
}

#[test]
fn test_turbo_app_with_css() {
    let app = TurboApp::new("App").with_css("/pkg/style.css");

    assert_eq!(app.config().css_path, Some("/pkg/style.css".to_string()));
}

#[test]
fn test_turbo_app_with_streaming() {
    let app = TurboApp::new("App").with_streaming(false);

    assert!(!app.config().streaming);
}

#[test]
fn test_turbo_app_route() {
    let app = TurboApp::new("App").route("/", "HomePage").route("/about", "AboutPage");

    let routes = app.routes().routes();
    assert_eq!(routes.len(), 2);
}

#[test]
fn test_turbo_app_build() {
    let app = TurboApp::new("BuildTest").with_title("Test").route("/", "Home");

    let (config, routes) = app.build();

    assert_eq!(config.name, "BuildTest");
    assert_eq!(config.default_title, "Test");
    assert_eq!(routes.routes().len(), 1);
}

#[test]
fn test_turbo_app_full_builder() {
    let (config, routes) = TurboApp::new("E-Commerce")
        .with_title("My Store")
        .with_css("/assets/style.css")
        .with_streaming(true)
        .route("/", "Home")
        .route("/products", "Products")
        .route("/cart", "Cart")
        .build();

    assert_eq!(config.name, "E-Commerce");
    assert_eq!(config.default_title, "My Store");
    assert_eq!(config.css_path, Some("/assets/style.css".to_string()));
    assert!(config.streaming);
    assert_eq!(routes.routes().len(), 3);
}

#[test]
fn routes_keep_registration_order() {
    let app = TurboApp::new("App").route("/a", "A").route("/b", "B");
    let routes = app.routes().routes();
    assert_eq!(routes[0].path, "/a");
    assert_eq!(routes[1].component, "B");
}

#[test]
fn shell_html_exact() {
    let html = generate_shell_html("Shop", Some("/pkg/style.css"), "<main></main>");
    assert_eq!(
        html,
        "<!DOCTYPE html>\n<html lang=\"en\">\n<head>\n    <meta charset=\"utf-8\">\n    <meta name=\"viewport\" content=\"width=device-width, initial-scale=1\">\n    <link rel=\"stylesheet\" href=\"/pkg/style.css\">\n    <title>Shop</title>\n</head>\n<body>\n    <main></main>\n</body>\n</html>"
    );
    let bare = generate_shell_html("X", None, "");
    assert!(bare.contains("initial-scale=1\">\n    \n    <title>X</title>"));
}

#[test]
fn stream_config_builders() {
    let c = StreamConfig::new();
    assert_eq!(c.buffer_size, 8192);
    assert!(c.flush_after_shell && c.flush_after_section);
    let c = c.with_buffer_size(1024).flush_shell(false).flush_sections(false);
    assert_eq!(c, StreamConfig { buffer_size: 1024, flush_after_shell: false, flush_after_section: false });
}

#[test]
fn turbo_error_messages() {
    assert_eq!(TurboError::RouteNotFound("/x".to_string()).message(), "Route not found: /x");
    assert_eq!(TurboError::RenderError("boom".to_string()).message(), "Render error: boom");
}
