//! What follows from the environment.
use houston_cloud::settings::{
    cors_origins, cors_policy, gateway_scheme, usable_origins, Environment, Settings,
};

fn environment() -> Environment {
    Environment {
        supabase_url: "https://example.supabase.co/".to_string(),
        supabase_service_role_key: "service-key".to_string(),
        supabase_jwt_secret: "jwt-secret".to_string(),
        engine_url_template: None,
        dev_engine_token: None,
        engine_image: None,
        gateway_domain: None,
        gateway_scheme: None,
        gvisor: None,
        storage_class: None,
        bind: None,
    }
}

#[test]
fn defaults() {
    let settings = Settings::new(environment());
    assert_eq!(settings.bind, "0.0.0.0:3001");
    let state = settings.state;
    assert_eq!(state.tenant_store.base_url, "https://example.supabase.co/rest/v1");
    assert_eq!(state.tenant_store.service_key, "service-key");
    assert_eq!(state.jwt_verifier.issuer, "https://example.supabase.co/auth/v1");
    assert_eq!(state.jwt_verifier.hs256_secret, "jwt-secret");
    assert_eq!(state.engine_url_template, "http://localhost:7777");
    assert_eq!(state.dev_engine_token, None);
    assert_eq!(state.engine_image, None);
    assert_eq!(state.gateway_domain, None);
    assert_eq!(state.gateway_scheme, "https");
    assert!(!state.gvisor);
    assert_eq!(state.storage_class, "standard");
}

#[test]
fn values_that_are_set() {
    let text = |s: &str| Some(s.to_string());
    let settings = Settings::new(Environment {
        engine_url_template: text("http://{tenant_id}"),
        dev_engine_token: text("dev"),
        engine_image: text("image"),
        gateway_domain: text("domain"),
        gateway_scheme: text("http"),
        gvisor: text("true"),
        storage_class: text("fast"),
        bind: text("127.0.0.1:1"),
        ..environment()
    });
    assert_eq!(settings.bind, "127.0.0.1:1");
    let state = settings.state;
    assert_eq!(state.engine_url_template, "http://{tenant_id}");
    assert_eq!(state.dev_engine_token.as_deref(), Some("dev"));
    assert_eq!(state.engine_image.as_deref(), Some("image"));
    assert_eq!(state.gateway_domain.as_deref(), Some("domain"));
    assert_eq!(state.gateway_scheme, "http");
    assert!(state.gvisor);
    assert_eq!(state.storage_class, "fast");
}

#[test]
fn gvisor_flag() {
    let gvisor = |value: &str| {
        Settings::new(Environment { gvisor: Some(value.to_string()), ..environment() }).state.gvisor
    };
    assert!(gvisor("1"));
    assert!(gvisor("true"));
    assert!(!gvisor("0"));
    assert!(!gvisor("TRUE"));
    assert!(!gvisor(""));
}

#[test]
fn schemes() {
    assert_eq!(gateway_scheme(None), "https");
    assert_eq!(gateway_scheme(Some("https")), "https");
    assert_eq!(gateway_scheme(Some("http")), "http");
    assert_eq!(gateway_scheme(Some("ftp")), "https");
    assert_eq!(gateway_scheme(Some("HTTP")), "https");
}

#[test]
fn origins() {
    for list in [None, Some(""), Some(" , ,\t")] {
        let origins = cors_origins(list);
        assert!(origins.allowed.is_empty());
        assert!(origins.ignored.is_empty());
    }
    let list = "https://a.example, https://b.example ,,\u{a0}https://c.example\n";
    let origins = cors_origins(Some(list));
    assert_eq!(origins.allowed, ["https://a.example", "https://b.example", "https://c.example"]);
    assert!(origins.ignored.is_empty());
    let origins = cors_origins(Some("https://a\u{7f},https://b\nc,https://d"));
    assert_eq!(origins.allowed, ["https://d"]);
    assert_eq!(origins.ignored, ["https://a\u{7f}", "https://b\nc"]);
}

#[test]
fn policy() {
    let policy = cors_policy(Some("https://a.example,b\u{0}"));
    assert_eq!(policy.origins.allowed, ["https://a.example"]);
    assert_eq!(policy.origins.ignored, ["b\u{0}"]);
    assert_eq!(policy.methods, ["GET", "POST", "DELETE", "OPTIONS"]);
    assert_eq!(policy.headers, ["authorization", "content-type"]);
    let policy = cors_policy(None);
    assert!(policy.origins.allowed.is_empty());
    assert_eq!(policy.methods.len(), 4);
    assert_eq!(policy.headers.len(), 2);
}

#[test]
fn white_space_around_origins() {
    let spaces = [
        '\u{9}', '\u{a}', '\u{b}', '\u{c}', '\u{d}', '\u{20}', '\u{85}', '\u{a0}', '\u{1680}',
        '\u{2000}', '\u{2001}', '\u{2002}', '\u{2003}', '\u{2004}', '\u{2005}', '\u{2006}',
        '\u{2007}', '\u{2008}', '\u{2009}', '\u{200a}', '\u{2028}', '\u{2029}', '\u{202f}',
        '\u{205f}', '\u{3000}',
    ];
    for c in (0..=0x10ffff).filter_map(char::from_u32) {
        assert_eq!(c.is_whitespace(), spaces.contains(&c), "{c:?}");
    }
    for c in spaces {
        assert_eq!(cors_origins(Some(&format!("{c}a{c}{c}"))).allowed, ["a"]);
    }
    assert_eq!(cors_origins(Some("\u{200b}a")).allowed, ["\u{200b}a"]);
}

#[test]
fn usable_origins_are_header_values() {
    let texts: Vec<String> =
        ["", "a", "b\u{0}", "c\td", "\u{e9}", "e\u{7f}"].iter().map(|s| s.to_string()).collect();
    let origins = usable_origins(&texts);
    assert_eq!(origins.allowed, ["a", "c\td", "\u{e9}"]);
    assert_eq!(origins.ignored, ["b\u{0}", "e\u{7f}"]);
}
