use apidoc::cli::{Repo, Revision};

#[test]
fn revision_parses_simple_tag() {
    let r = Revision::from_str("o/a:v").unwrap();
    let Revision(Repo(org, app), version) = r;
    assert_eq!(org, "o");
    assert_eq!(app, "a");
    assert_eq!(version, "v");
}

#[test]
fn revision_parses_longer_tag() {
    let r = Revision::from_str("acme/widgets:1.0.0").unwrap();
    let Revision(Repo(org, app), version) = r;
    assert_eq!(org, "acme");
    assert_eq!(app, "widgets");
    assert_eq!(version, "1.0.0");
}

#[test]
fn revision_splits_at_first_delimiters() {
    let r = Revision::from_str("o/a/b:v:w").unwrap();
    let Revision(Repo(org, app), version) = r;
    assert_eq!(org, "o");
    assert_eq!(app, "a/b");
    assert_eq!(version, "v:w");
}

#[test]
fn revision_rejects_missing_slash() {
    let e = Revision::from_str("o:a").unwrap_err();
    assert_eq!(e.description(), "failed to locate `/` in tag: o:a");
}

#[test]
fn revision_rejects_empty_organization() {
    let e = Revision::from_str("/a:v").unwrap_err();
    assert_eq!(e.description(), "organization was empty in tag: /a:v");
}

#[test]
fn revision_rejects_empty_application() {
    let e = Revision::from_str("o/").unwrap_err();
    assert_eq!(e.description(), "application was empty in tag: o/");
}

#[test]
fn revision_rejects_empty_application_before_colon() {
    let e = Revision::from_str("o/:v").unwrap_err();
    assert_eq!(e.description(), "application was empty in tag: o/:v");
}

#[test]
fn revision_rejects_missing_colon() {
    let e = Revision::from_str("o/a").unwrap_err();
    assert_eq!(e.description(), "failed to locate `:` in o/a");
}

#[test]
fn revision_rejects_empty_version() {
    let e = Revision::from_str("o/a:").unwrap_err();
    assert_eq!(e.description(), "version was empty in tag: o/a:");
}

#[test]
fn repo_parses_without_version() {
    let Repo(org, app) = Repo::from_str("acme/widgets").unwrap();
    assert_eq!(org, "acme");
    assert_eq!(app, "widgets");
}

#[test]
fn repo_rejects_missing_slash() {
    let e = Repo::from_str("acme").unwrap_err();
    assert_eq!(e.description(), "failed to locate `/` in tag: acme");
}
