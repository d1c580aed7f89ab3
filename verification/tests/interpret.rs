use apidoc::cli::{Cli, Config};

fn cli() -> Cli {
    Cli::new(Config { api_url: None, token: "abc".to_string() })
}

const GOOD_CODE_BODY: &str = "{\"generator\":{\"guid\":\"g-1\",\"key\":\"go\",\"uri\":\"http://generator\",\"name\":\"Go\",\"language\":null,\"visibility\":\"public\",\"owner\":{\"guid\":\"u-1\",\"email\":\"o@example.com\",\"nickname\":\"owner\"},\"enabled\":true},\"source\":\"package main\"}";

#[test]
fn check_valid_response_succeeds_silently() {
    let mut c = cli();
    let r = c.check_response(200, "{\"valid\":true,\"errors\":[]}");
    assert!(r.is_ok());
    assert!(c.out.is_empty());
    assert!(c.err.is_empty());
}

#[test]
fn check_invalid_response_prints_each_error_line_in_order() {
    let mut c = cli();
    let r = c.check_response(200, "{\"valid\":false,\"errors\":[\"x\",\"y\"]}");
    assert_eq!(r.unwrap_err().description(), "input invalid");
    assert!(c.out.is_empty());
    assert_eq!(c.err, vec!["validation error: x", "validation error: y"]);
}

#[test]
fn check_does_not_infer_validity_from_status() {
    // A success status with an invalid outcome still fails.
    let mut c = cli();
    let r = c.check_response(204, "{\"valid\":false,\"errors\":[\"z\"]}");
    assert!(r.is_err());
    assert_eq!(c.err, vec!["validation error: z"]);
}

#[test]
fn check_success_decode_failure_does_not_fall_back_to_error_list() {
    // A 200 body shaped like an error list is a decode failure, not a
    // silently accepted error report.
    let mut c = cli();
    let r = c.check_response(200, "[{\"code\":\"c\",\"message\":\"m\"}]");
    let desc = r.unwrap_err().desc;
    assert!(desc.contains("failed to decode"));
    assert!(desc.contains("200"));
    assert!(c.err.is_empty());
}

#[test]
fn check_unparseable_body_reports_status_and_body() {
    let mut c = cli();
    let r = c.check_response(200, "not json");
    let desc = r.unwrap_err().desc;
    assert!(desc.contains("200"));
    assert!(desc.contains("not json"));
}

#[test]
fn check_error_status_reports_error_list() {
    let mut c = cli();
    let r = c.check_response(
        422,
        "[{\"code\":\"c1\",\"message\":\"m1\"},{\"code\":\"c2\",\"message\":\"m2\"}]",
    );
    assert_eq!(r.unwrap_err().description(), "got error response from server");
    assert_eq!(c.err, vec!["error: m1", "error: m2"]);
    assert!(c.out.is_empty());
}

#[test]
fn check_error_status_with_undecodable_body_reports_status_and_body() {
    let mut c = cli();
    let r = c.check_response(422, "{\"oops\":1}");
    let desc = r.unwrap_err().desc;
    assert!(desc.contains("422"));
    assert!(desc.contains("{\"oops\":1}"));
    assert!(c.err.is_empty());
}

#[test]
fn generate_success_writes_source_verbatim() {
    let mut c = cli();
    let r = c.generate_response(200, GOOD_CODE_BODY);
    assert!(r.is_ok());
    assert_eq!(c.out, vec!["package main"]);
    assert!(c.err.is_empty());
}

#[test]
fn generate_success_with_wrong_shape_is_a_decode_failure() {
    let mut c = cli();
    let r = c.generate_response(200, "{\"source\":17}");
    let desc = r.unwrap_err().desc;
    assert!(desc.contains("failed to decode"));
    assert!(desc.contains("200"));
    assert!(c.out.is_empty());
}

#[test]
fn generate_error_status_reports_error_list() {
    let mut c = cli();
    let r = c.generate_response(409, "[{\"code\":\"dup\",\"message\":\"already exists\"}]");
    assert_eq!(r.unwrap_err().description(), "got error response from server");
    assert_eq!(c.err, vec!["error: already exists"]);
    assert!(c.out.is_empty());
}

#[test]
fn generate_unparseable_body_reports_status_and_body() {
    let mut c = cli();
    let r = c.generate_response(500, "<html>boom</html>");
    let desc = r.unwrap_err().desc;
    assert!(desc.contains("500"));
    assert!(desc.contains("<html>boom</html>"));
}

#[test]
fn push_success_is_silent() {
    let mut c = cli();
    let body = "{\"guid\":\"v-1\",\"organization\":{\"guid\":\"o-1\",\"key\":\"acme\"},\"application\":{\"guid\":\"a-1\",\"key\":\"widgets\"},\"version\":\"1.0.0\",\"original\":null}";
    let r = c.push_response(200, body);
    assert!(r.is_ok());
    assert!(c.out.is_empty());
    assert!(c.err.is_empty());
}

#[test]
fn push_error_status_reports_error_list() {
    let mut c = cli();
    let r = c.push_response(401, "[{\"code\":\"auth\",\"message\":\"not allowed\"}]");
    assert_eq!(r.unwrap_err().description(), "got error response from server");
    assert_eq!(c.err, vec!["error: not allowed"]);
}

#[test]
fn push_success_with_wrong_shape_is_a_decode_failure() {
    let mut c = cli();
    let r = c.push_response(200, "{\"guid\":\"v-1\"}");
    let desc = r.unwrap_err().desc;
    assert!(desc.contains("failed to decode"));
    assert!(desc.contains("200"));
}
