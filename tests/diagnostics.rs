use xynginc::diagnostics::{clean_broken_configs, detect_broken_configs};

#[test]
fn certificate_failure_blames_enabled_domain() {
    let out = "nginx: [emerg] cannot load certificate \"/etc/letsencrypt/live/foo.example.com/fullchain.pem\": BIO_new_file() failed\nnginx: configuration file /etc/nginx/nginx.conf test failed\n";
    let enabled = vec!["foo.example.com".to_string()];
    assert_eq!(detect_broken_configs(false, out, &enabled), vec!["foo.example.com".to_string()]);
}

#[test]
fn certificate_failure_without_enabled_entry_blames_nothing() {
    let out = "nginx: [emerg] cannot load certificate \"/etc/letsencrypt/live/foo.example.com/fullchain.pem\": BIO_new_file() failed\n";
    assert!(detect_broken_configs(false, out, &vec!["bar.example.com".to_string()]).is_empty());
}

#[test]
fn enabled_store_paths_are_deduplicated_in_order() {
    let out = "nginx: [emerg] unknown directive \"foo\" in /etc/nginx/sites-enabled/b.example.com:12\r\nnginx: [emerg] x in /etc/nginx/sites-enabled/a.example.com:3\nnginx: [warn] y in /etc/nginx/sites-enabled/b.example.com:40";
    assert_eq!(
        detect_broken_configs(false, out, &vec![]),
        vec!["b.example.com".to_string(), "a.example.com".to_string()]
    );
}

#[test]
fn passing_validation_blames_nothing() {
    let out = "in /etc/nginx/sites-enabled/a.example.com:3";
    assert!(detect_broken_configs(true, out, &vec![]).is_empty());
}

#[test]
fn unmatched_lines_are_ignored() {
    let out = "in /etc/nginx/sites-enabled/no-colon\ncannot load certificate without path\nsomething else\n";
    assert!(detect_broken_configs(false, out, &vec!["no-colon".to_string()]).is_empty());
}

#[test]
fn cleanup_removes_all_or_none() {
    let broken = vec!["a".to_string(), "b".to_string()];
    assert_eq!(clean_broken_configs(&broken, false), broken);
    assert!(clean_broken_configs(&broken, true).is_empty());
}
