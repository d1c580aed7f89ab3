use apidoc::models::{OriginalType, Publication, Visibility};

#[test]
fn visibility_decodes_known_values() {
    assert!(matches!(Visibility::decode("user"), Visibility::User));
    assert!(matches!(Visibility::decode("organization"), Visibility::Organization));
    assert!(matches!(Visibility::decode("public"), Visibility::Public));
}

#[test]
fn visibility_keeps_unknown_value_verbatim() {
    match Visibility::decode("secret") {
        Visibility::UNDEFINED(s) => assert_eq!(s, "secret"),
        _ => panic!("expected the fallback variant"),
    }
}

#[test]
fn visibility_round_trips_through_encode() {
    for wire in ["user", "organization", "public", "brand-new-value"] {
        assert_eq!(Visibility::decode(wire).encode(), wire);
    }
}

#[test]
fn visibility_valid_accepts_known_values() {
    assert!(Visibility::User.valid().is_ok());
    assert!(Visibility::Organization.valid().is_ok());
    assert!(Visibility::Public.valid().is_ok());
}

#[test]
fn visibility_valid_rejects_fallback() {
    let v = Visibility::UNDEFINED("bogus".to_string());
    assert!(v.valid().is_err());
}

#[test]
fn original_type_decodes_known_values() {
    assert!(matches!(OriginalType::decode("api_json"), OriginalType::ApiJson));
    assert!(matches!(OriginalType::decode("swagger_json"), OriginalType::SwaggerJson));
    assert!(matches!(OriginalType::decode("avro_idl"), OriginalType::AvroIdl));
}

#[test]
fn original_type_round_trips_through_encode() {
    for wire in ["api_json", "swagger_json", "avro_idl", "protobuf"] {
        assert_eq!(OriginalType::decode(wire).encode(), wire);
    }
}

#[test]
fn publication_decodes_known_values() {
    assert!(matches!(
        Publication::decode("membership_requests.create"),
        Publication::MembershipRequestsCreate
    ));
    assert!(matches!(Publication::decode("memberships.create"), Publication::MembershipsCreate));
    assert!(matches!(Publication::decode("applications.create"), Publication::ApplicationsCreate));
    assert!(matches!(Publication::decode("versions.create"), Publication::VersionsCreate));
}

#[test]
fn publication_round_trips_through_encode() {
    for wire in ["membership_requests.create", "memberships.create", "applications.create",
        "versions.create", "something.else"] {
        assert_eq!(Publication::decode(wire).encode(), wire);
    }
}
