use xynginc::console::split_arrow;
use xynginc::nginx_conf::{configure_module_load, configure_sites_include, parse_nginx_version};
use xynginc::requirements::{detect_apt_errors, is_problem_source, lacks_rolling_sources, SystemRequirements};

fn reqs(nginx: bool, certbot: bool, a: bool, e: bool, b: bool) -> SystemRequirements {
    SystemRequirements { nginx, certbot, sites_available_dir: a, sites_enabled_dir: e, backup_dir: b }
}

#[test]
fn counts_and_plans_missing_requirements() {
    let r = reqs(false, false, true, false, false);
    assert_eq!(r.missing_count(), 4);
    assert!(!r.ready());
    let p = r.install_plan();
    assert_eq!(p.packages, vec!["nginx", "certbot", "python3-certbot-nginx"]);
    assert!(!p.create_sites_available);
    assert!(p.create_sites_enabled);
    assert!(p.create_backup_dir);
    assert!(p.configure_nginx);
    let all = reqs(true, true, true, true, false);
    assert_eq!(all.missing_count(), 1);
    assert!(all.ready());
    assert!(all.install_plan().packages.is_empty());
}

#[test]
fn apt_error_detection() {
    assert!(detect_apt_errors("W: GPG error: NO_PUBKEY 1234"));
    assert!(detect_apt_errors("E: The repository 'x' does not have a Release file."));
    assert!(!detect_apt_errors("Hit:1 http://deb.debian.org stable InRelease"));
    assert!(is_problem_source("deb https://apt.llvm.org/ focal main"));
    assert!(!is_problem_source("deb http://deb.debian.org/debian stable main"));
    assert!(lacks_rolling_sources("deb http://deb.debian.org/debian stable main"));
    assert!(!lacks_rolling_sources("deb http://http.kali.org/kali kali-rolling main"));
}

#[test]
fn module_load_goes_before_first_directive() {
    let conf = "# main\n\n  user www-data;\nhttp {\n}\n";
    assert_eq!(
        configure_module_load(conf).unwrap(),
        "# main\n\nload_module modules/ngx_http_headers_more_filter_module.so;\n  user www-data;\nhttp {\n}\n"
    );
    assert_eq!(
        configure_module_load("# only\r\n").unwrap(),
        "load_module modules/ngx_http_headers_more_filter_module.so;\n# only\n"
    );
    assert!(configure_module_load("load_module modules/ngx_http_headers_more_filter_module.so;\n").is_none());
}

#[test]
fn sites_include_goes_into_http_block() {
    assert_eq!(
        configure_sites_include("events {}\n  http {  \n  gzip on;\n}").unwrap(),
        "events {}\n  http {  \n    include /etc/nginx/sites-enabled/*;\n  gzip on;\n}\n"
    );
    assert!(configure_sites_include("http {\n include /etc/nginx/sites-enabled/*;\n}\n").is_none());
}

#[test]
fn nginx_version_from_banner() {
    assert_eq!(parse_nginx_version("nginx version: nginx/1.28.0\n").unwrap(), "1.28.0");
    assert_eq!(parse_nginx_version("nginx version: nginx/1.24.0 (Ubuntu)/x").unwrap(), "1.24.0");
    assert_eq!(parse_nginx_version("no version here").unwrap_err(), "Failed to parse nginx version");
    assert!(parse_nginx_version("nginx/   ").is_err());
}

#[test]
fn arrow_marker_is_split_off() {
    assert_eq!(split_arrow("  > Reloading"), Some(("  ".to_string(), " Reloading".to_string())));
    assert_eq!(split_arrow(">x>y"), Some((String::new(), "x>y".to_string())));
    assert_eq!(split_arrow("no > marker"), None);
    assert_eq!(split_arrow("   "), None);
}
