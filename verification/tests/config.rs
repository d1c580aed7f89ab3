use apidoc::cli::Config;

#[test]
fn load_reads_the_selected_profile() {
    let text = "[default]\ntoken = \"abc\"\n\n[work]\ntoken = \"xyz\"\napi_url = \"https://example.org/api\"\n";
    let c = Config::load(text, "default").unwrap();
    assert_eq!(c.token, "abc");
    assert!(c.api_url.is_none());

    let c = Config::load(text, "work").unwrap();
    assert_eq!(c.token, "xyz");
    assert_eq!(c.api_url.as_deref(), Some("https://example.org/api"));
}

#[test]
fn load_rejects_a_missing_profile() {
    let e = Config::load("[default]\ntoken = \"abc\"\n", "staging").unwrap_err();
    assert_eq!(e.description(), "no profile found for staging");
}

#[test]
fn load_rejects_a_profile_without_a_token() {
    let e = Config::load("[default]\napi_url = \"http://x\"\n", "default").unwrap_err();
    assert_eq!(e.description(), "no token found for profile default");
}

#[test]
fn load_rejects_a_non_string_api_url() {
    let e = Config::load("[default]\ntoken = \"abc\"\napi_url = 7\n", "default").unwrap_err();
    assert_eq!(e.description(), "api_url must be a string in profile default");
}

#[test]
fn load_rejects_malformed_text() {
    let e = Config::load("[default\ntoken = ", "default").unwrap_err();
    assert!(e.description().starts_with("failed to parse config: "));
}
