use xynginc::models::{default_host, default_max_body_size, DomainConfig};
use xynginc::template::{
    config_exists, generate_index_html, load_template, render_server_block, replace_html_variables,
    replace_template_variables, NON_SSL_TEMPLATE, SSL_TEMPLATE,
};

fn spec(domain: &str, port: u16, host: &str) -> DomainConfig {
    DomainConfig {
        domain: domain.to_string(),
        port,
        ssl: false,
        email: None,
        host: host.to_string(),
        max_body_size: "50M".to_string(),
    }
}

#[test]
fn defaults() {
    assert_eq!(default_host(), "localhost");
    assert_eq!(default_max_body_size(), "20M");
}

#[test]
fn load_known_and_unknown_templates() {
    assert_eq!(load_template("non_ssl_template.conf").unwrap(), NON_SSL_TEMPLATE);
    assert_eq!(load_template("ssl_template.conf").unwrap(), SSL_TEMPLATE);
    assert_eq!(load_template("other.conf").unwrap_err(), "Unknown template: other.conf");
}

#[test]
fn replaces_every_occurrence_in_order() {
    let out = replace_template_variables("{{A}}-{{B}}-{{A}}", &[("A", "x"), ("B", "{{A}}")]);
    assert_eq!(out, "x-{{A}}-x");
    let out = replace_template_variables("{{B}}", &[("B", "{{A}}"), ("A", "y")]);
    assert_eq!(out, "y");
    assert_eq!(replace_template_variables("{A} {{A}", &[("A", "z")]), "{A} {{A}");
}

#[test]
fn html_variables() {
    assert_eq!(replace_html_variables("<h1>{{TITLE}}</h1>", &[("TITLE", "Hi")]), "<h1>Hi</h1>");
    let page = generate_index_html();
    assert!(page.contains("<title>XyNginC</title>"));
    assert!(page.contains("Nginx Controller for XyPriss Applications"));
    assert!(!page.contains("{{"));
}

#[test]
fn plain_block_substitutes_all_placeholders() {
    let block = render_server_block(&spec("app.example.com", 3000, "localhost"), false);
    assert!(block.contains("server_name app.example.com;"));
    assert!(block.contains("proxy_pass http://127.0.0.1:3000;"));
    assert!(block.contains("client_max_body_size 50M;"));
    assert!(!block.contains("{{"));
    assert!(!block.contains("listen 443"));
}

#[test]
fn custom_host_is_kept() {
    let block = render_server_block(&spec("app.example.com", 65535, "10.0.0.7"), false);
    assert!(block.contains("proxy_pass http://10.0.0.7:65535;"));
    let block = render_server_block(&spec("app.example.com", 0, "backend"), false);
    assert!(block.contains("proxy_pass http://backend:0;"));
}

#[test]
fn tls_block_names_certificate() {
    let block = render_server_block(&spec("s.example.com", 8443, "localhost"), true);
    assert!(block.contains("listen 443 ssl"));
    assert!(block.contains("/etc/letsencrypt/live/s.example.com/fullchain.pem"));
    assert!(block.contains("return 301 https://$host$request_uri;"));
    assert!(!block.contains("{{"));
}

#[test]
fn rendering_twice_gives_identical_text() {
    let a = render_server_block(&spec("same.example.com", 8080, "localhost"), true);
    let b = render_server_block(&spec("same.example.com", 8080, "localhost"), true);
    assert_eq!(a, b);
}

#[test]
fn config_exists_checks_listing() {
    let listing = vec!["default".to_string(), "a.example.com".to_string()];
    assert!(config_exists("a.example.com", &listing));
    assert!(!config_exists("b.example.com", &listing));
    assert!(!config_exists("a.example.com", &vec![]));
}
