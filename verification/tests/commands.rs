use apidoc::cli::{Cli, Config};
use apidoc::client::Method;
use apidoc::models::Visibility;

fn cli_with(api_url: Option<&str>, token: &str) -> Cli {
    Cli::new(Config { api_url: api_url.map(|u| u.to_string()), token: token.to_string() })
}

#[test]
fn check_builds_validation_post() {
    let mut c = cli_with(None, "abc");
    let req = c.check("{}").unwrap();
    assert_eq!(req.method, Method::Post);
    assert_eq!(req.url, "http://api.apidoc.me/validations");
    assert!(req.basic_auth_user.is_none());
    assert!(req.content_type.is_none());
    assert_eq!(req.body.as_deref(), Some("{}"));
}

#[test]
fn generate_builds_authenticated_get() {
    let mut c = cli_with(None, "abc");
    let req = c.generate("acme/widgets:1.0.0", "go").unwrap();
    assert_eq!(req.method, Method::Get);
    assert_eq!(req.url, "http://api.apidoc.me/acme/widgets/1.0.0/go");
    assert_eq!(req.basic_auth_user.as_deref(), Some("abc"));
    assert!(req.content_type.is_none());
    assert!(req.body.is_none());
}

#[test]
fn generate_honors_configured_api_url() {
    let mut c = cli_with(Some("https://example.org/api"), "t");
    let req = c.generate("o/a:v", "ruby").unwrap();
    assert_eq!(req.url, "https://example.org/api/o/a/v/ruby");
}

#[test]
fn generate_rejects_malformed_tag_without_building_a_request() {
    let mut c = cli_with(None, "abc");
    let e = match c.generate("acme-widgets", "go") {
        Err(e) => e,
        Ok(_) => panic!("a malformed tag must not yield a request"),
    };
    assert_eq!(e.description(), "failed to locate `/` in tag: acme-widgets");
    assert!(c.out.is_empty());
    assert!(c.err.is_empty());
}

#[test]
fn push_builds_authenticated_put_with_json_body() {
    let mut c = cli_with(None, "abc");
    let req = c.push("acme/widgets:1.0.0", "spec body", &Visibility::User).unwrap();
    assert_eq!(req.method, Method::Put);
    assert_eq!(req.url, "http://api.apidoc.me/acme/widgets/1.0.0");
    assert_eq!(req.basic_auth_user.as_deref(), Some("abc"));
    assert_eq!(req.content_type.as_deref(), Some("application/json"));
    assert_eq!(
        req.body.as_deref(),
        Some("{\"original_form\":{\"type\":null,\"data\":\"spec body\"},\"visibility\":\"user\"}")
    );
    assert_eq!(c.out, vec!["pushing to acme/widgets:1.0.0"]);
    assert!(c.err.is_empty());
}

#[test]
fn push_with_unrecognized_visibility_fails_before_any_request() {
    let mut c = cli_with(None, "abc");
    let vis = Visibility::UNDEFINED("bogus".to_string());
    let e = match c.push("acme/widgets:1.0.0", "spec body", &vis) {
        Err(e) => e,
        Ok(_) => panic!("an unrecognized visibility must not yield a request"),
    };
    assert_eq!(e.description(), "invalid visibility: bogus");
    assert!(c.out.is_empty());
    assert!(c.err.is_empty());
}

#[test]
fn push_rejects_malformed_tag_before_any_request() {
    let mut c = cli_with(None, "abc");
    let e = match c.push("acme/widgets", "spec body", &Visibility::User) {
        Err(e) => e,
        Ok(_) => panic!("a malformed tag must not yield a request"),
    };
    assert_eq!(e.description(), "failed to locate `:` in acme/widgets");
    assert!(c.out.is_empty());
}

#[test]
fn generate_end_to_end_with_stubbed_transport() {
    // Config profile `default` with token "abc"; the stub transport answers
    // 200 with a generated-code payload whose source is "X".
    let config = Config::load("[default]\ntoken = \"abc\"\n", "default").unwrap();
    let mut c = Cli::new(config);
    let req = c.generate("acme/widgets:1.0.0", "go").unwrap();
    assert_eq!(req.url, "http://api.apidoc.me/acme/widgets/1.0.0/go");
    assert_eq!(req.basic_auth_user.as_deref(), Some("abc"));
    let body = "{\"generator\":{\"guid\":\"g-1\",\"key\":\"go\",\"uri\":\"http://generator\",\"name\":\"Go\",\"visibility\":\"public\",\"owner\":{\"guid\":\"u-1\",\"email\":\"o@example.com\",\"nickname\":\"owner\"},\"enabled\":true},\"source\":\"X\"}";
    let r = c.generate_response(200, body);
    assert!(r.is_ok());
    assert_eq!(c.out, vec!["X"]);
    assert!(c.err.is_empty());
}
