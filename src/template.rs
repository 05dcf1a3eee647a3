//! Server-block and page templates, and `{{NAME}}` substitution.
use vstd::prelude::*;

use crate::models::DomainConfig;
use crate::text::{concat, decimal, decimal_chars, push_all, replace_all, replaced, same_text, to_chars, to_string};

verus! {

/// Server block that serves a domain over plain HTTP.
pub const NON_SSL_TEMPLATE: &'static str = "server {
    listen 80;
    listen [::]:80;
    server_name {{DOMAIN_NAME}};

    client_max_body_size {{MAX_BODY_SIZE}};

    error_page 400 /errors/400.html;
    error_page 401 /errors/401.html;
    error_page 403 /errors/403.html;
    error_page 404 /errors/404.html;
    error_page 500 502 503 504 /errors/50x.html;

    location ^~ /errors/ {
        root /var/www/html;
        internal;
    }

    location /.well-known/acme-challenge/ {
        root /var/www/html;
    }

    location / {
        proxy_pass http://{{BACKEND_HOST}}:{{BACKEND_PORT}};
        proxy_http_version 1.1;
        proxy_set_header Upgrade $http_upgrade;
        proxy_set_header Connection \"upgrade\";
        proxy_set_header Host $host;
        proxy_set_header X-Real-IP $remote_addr;
        proxy_set_header X-Forwarded-For $proxy_add_x_forwarded_for;
        proxy_set_header X-Forwarded-Proto $scheme;
        proxy_intercept_errors on;
    }
}
";

/// Server blocks that redirect HTTP to HTTPS and terminate TLS for a domain.
pub const SSL_TEMPLATE: &'static str = "server {
    listen 80;
    listen [::]:80;
    server_name {{DOMAIN_NAME}};

    location /.well-known/acme-challenge/ {
        root /var/www/html;
    }

    location / {
        return 301 https://$host$request_uri;
    }
}

server {
    listen 443 ssl http2;
    listen [::]:443 ssl http2;
    server_name {{DOMAIN_NAME}};

    ssl_certificate /etc/letsencrypt/live/{{DOMAIN_NAME}}/fullchain.pem;
    ssl_certificate_key /etc/letsencrypt/live/{{DOMAIN_NAME}}/privkey.pem;
    ssl_protocols TLSv1.2 TLSv1.3;
    ssl_prefer_server_ciphers on;

    client_max_body_size {{MAX_BODY_SIZE}};

    error_page 400 /errors/400.html;
    error_page 401 /errors/401.html;
    error_page 403 /errors/403.html;
    error_page 404 /errors/404.html;
    error_page 500 502 503 504 /errors/50x.html;

    location ^~ /errors/ {
        root /var/www/html;
        internal;
    }

    location / {
        proxy_pass http://{{BACKEND_HOST}}:{{BACKEND_PORT}};
        proxy_http_version 1.1;
        proxy_set_header Upgrade $http_upgrade;
        proxy_set_header Connection \"upgrade\";
        proxy_set_header Host $host;
        proxy_set_header X-Real-IP $remote_addr;
        proxy_set_header X-Forwarded-For $proxy_add_x_forwarded_for;
        proxy_set_header X-Forwarded-Proto https;
        proxy_intercept_errors on;
    }
}
";

/// Landing page served by the default site.
pub const INDEX_HTML: &'static str = "<!DOCTYPE html>
<html lang=\"en\">
<head>
    <meta charset=\"utf-8\">
    <meta name=\"viewport\" content=\"width=device-width, initial-scale=1\">
    <title>{{TITLE}}</title>
</head>
<body>
    <main>
        <h1>{{TITLE}}</h1>
        <p>{{DESCRIPTION}}</p>
    </main>
</body>
</html>
";

/// The token `{{key}}`.
pub open spec fn placeholder(key: Seq<char>) -> Seq<char> {
    seq!['{', '{'] + key + seq!['}', '}']
}

/// `t` after replacing, for each pair in order, every `{{key}}` by its value.
pub open spec fn substituted(t: Seq<char>, vars: Seq<(Seq<char>, Seq<char>)>) -> Seq<char>
    decreases vars.len(),
{
    if vars.len() == 0 {
        t
    } else {
        replaced(substituted(t, vars.drop_last()), placeholder(vars.last().0), vars.last().1)
    }
}

/// The characters of each key and value.
pub open spec fn pairs_view(variables: Seq<(&str, &str)>) -> Seq<(Seq<char>, Seq<char>)> {
    variables.map_values(|kv: (&str, &str)| (kv.0@, kv.1@))
}

/// Loads a template by name; only the two server-block templates exist.
pub fn load_template(template_path: &str) -> (r: Result<String, String>)
    ensures
        template_path@ == "non_ssl_template.conf"@ ==> (r matches Ok(t) && t@ == NON_SSL_TEMPLATE@),
        template_path@ == "ssl_template.conf"@ ==> (r matches Ok(t) && t@ == SSL_TEMPLATE@),
        template_path@ != "non_ssl_template.conf"@ && template_path@ != "ssl_template.conf"@ ==> (
        r matches Err(e) && e@ == "Unknown template: "@ + template_path@),
{
    proof {
        reveal_strlit("non_ssl_template.conf");
        reveal_strlit("ssl_template.conf");
        assert("non_ssl_template.conf"@.len() != "ssl_template.conf"@.len());
    }
    if same_text(template_path, "non_ssl_template.conf") {
        Ok(NON_SSL_TEMPLATE.to_owned())
    } else if same_text(template_path, "ssl_template.conf") {
        Ok(SSL_TEMPLATE.to_owned())
    } else {
        Err(concat("Unknown template: ", template_path))
    }
}

fn placeholder_chars(key: &str) -> (r: Vec<char>)
    ensures
        r@ == placeholder(key@),
{
    let mut r: Vec<char> = Vec::new();
    r.push('{');
    r.push('{');
    let k = to_chars(key);
    push_all(&mut r, &k);
    r.push('}');
    r.push('}');
    assert(r@ =~= placeholder(key@));
    r
}

fn substitute(template: &str, variables: &[(&str, &str)]) -> (r: String)
    ensures
        r@ == substituted(template@, pairs_view(variables@)),
{
    let mut cur = to_chars(template);
    let mut i: usize = 0;
    while i < variables.len()
        invariant
            i <= variables@.len(),
            cur@ == substituted(template@, pairs_view(variables@.take(i as int))),
        decreases variables.len() - i,
    {
        let (key, value) = variables[i];
        let p = placeholder_chars(key);
        let v = to_chars(value);
        cur = replace_all(&cur, &p, &v);
        i = i + 1;
        assert(pairs_view(variables@.take(i as int)).drop_last() =~= pairs_view(
            variables@.take(i - 1),
        ));
    }
    assert(variables@.take(variables@.len() as int) =~= variables@);
    to_string(&cur)
}

/// Replaces every `{{key}}` of a configuration template, pair by pair in order.
pub fn replace_template_variables(template: &str, variables: &[(&str, &str)]) -> (r: String)
    ensures
        r@ == substituted(template@, pairs_view(variables@)),
{
    substitute(template, variables)
}

/// Replaces every `{{key}}` of an HTML page, pair by pair in order.
pub fn replace_html_variables(template: &str, variables: &[(&str, &str)]) -> (r: String)
    ensures
        r@ == substituted(template@, pairs_view(variables@)),
{
    substitute(template, variables)
}

/// The address written into `proxy_pass`. nginx resolves `localhost` to both loopback
/// families, so that name is pinned to the IPv4 loopback; any other host is kept.
pub open spec fn backend_address(host: Seq<char>) -> Seq<char> {
    if host == "localhost"@ {
        "127.0.0.1"@
    } else {
        host
    }
}

/// The substitutions that turn a server-block template into one domain's block.
pub open spec fn block_vars(cfg: DomainConfig) -> Seq<(Seq<char>, Seq<char>)> {
    seq![
        ("DOMAIN_NAME"@, cfg.domain@),
        ("BACKEND_HOST"@, backend_address(cfg.host@)),
        ("BACKEND_PORT"@, decimal(cfg.port as nat)),
        ("MAX_BODY_SIZE"@, cfg.max_body_size@),
    ]
}

/// The template a block is rendered from: the TLS one only when `tls` holds.
pub open spec fn block_template(tls: bool) -> Seq<char> {
    if tls {
        SSL_TEMPLATE@
    } else {
        NON_SSL_TEMPLATE@
    }
}

/// The server block of a domain, with or without its TLS stanza.
pub open spec fn server_block(cfg: DomainConfig, tls: bool) -> Seq<char> {
    substituted(block_template(tls), block_vars(cfg))
}

/// Renders the server block of a domain, from the TLS template when `tls` holds and from
/// the plain-HTTP one otherwise.
pub fn render_server_block(config: &DomainConfig, tls: bool) -> (r: String)
    ensures
        r@ == server_block(*config, tls),
{
    let port_str = to_string(&decimal_chars(config.port as u64));
    let backend: &str = if same_text(config.host.as_str(), "localhost") {
        "127.0.0.1"
    } else {
        config.host.as_str()
    };
    let template: &str = if tls {
        SSL_TEMPLATE
    } else {
        NON_SSL_TEMPLATE
    };
    let mut variables: Vec<(&str, &str)> = Vec::new();
    variables.push(("DOMAIN_NAME", config.domain.as_str()));
    variables.push(("BACKEND_HOST", backend));
    variables.push(("BACKEND_PORT", port_str.as_str()));
    variables.push(("MAX_BODY_SIZE", config.max_body_size.as_str()));
    assert(pairs_view(variables@) =~= block_vars(*config));
    replace_template_variables(template, variables.as_slice())
}

/// The landing page with its title and description filled in.
pub open spec fn index_page() -> Seq<char> {
    substituted(
        INDEX_HTML@,
        seq![("TITLE"@, "XyNginC"@), ("DESCRIPTION"@, "Nginx Controller for XyPriss Applications"@)],
    )
}

/// Renders the landing page served by the default site.
pub fn generate_index_html() -> (r: String)
    ensures
        r@ == index_page(),
{
    let mut variables: Vec<(&str, &str)> = Vec::new();
    variables.push(("TITLE", "XyNginC"));
    variables.push(("DESCRIPTION", "Nginx Controller for XyPriss Applications"));
    assert(pairs_view(variables@) =~= seq![
        ("TITLE"@, "XyNginC"@),
        ("DESCRIPTION"@, "Nginx Controller for XyPriss Applications"@),
    ]);
    replace_html_variables(INDEX_HTML, variables.as_slice())
}

/// Rendering is a function of the domain's fields alone: two renderings from equal fields
/// are the same text.
pub proof fn lemma_render_is_idempotent(a: DomainConfig, b: DomainConfig, tls: bool)
    requires
        a.domain@ == b.domain@,
        a.port == b.port,
        a.host@ == b.host@,
        a.max_body_size@ == b.max_body_size@,
    ensures
        server_block(a, tls) == server_block(b, tls),
{
    assert(block_vars(a) =~= block_vars(b));
}

/// Whether the available store, given by its entry names, holds a document for `domain`.
pub fn config_exists(domain: &str, available: &Vec<String>) -> (r: bool)
    ensures
        r == exists|i: int| 0 <= i < available@.len() && (#[trigger] available@[i])@ == domain@,
{
    let mut i: usize = 0;
    while i < available.len()
        invariant
            i <= available.len(),
            forall|j: int| 0 <= j < i ==> (#[trigger] available@[j])@ != domain@,
        decreases available.len() - i,
    {
        if same_text(available[i].as_str(), domain) {
            return true;
        }
        i = i + 1;
    }
    false
}

} // verus!
