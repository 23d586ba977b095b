use peleka::types::{ImageRef, NetworkAlias, NetworkAliasError, ParseImageRefError, ServiceName, ServiceNameError};

#[test]
fn service_names_follow_dns_labels() {
    assert_eq!(ServiceName::new("my-app").unwrap().as_str(), "my-app");
    assert_eq!(ServiceName::new("a1").unwrap().to_string(), "a1");
    assert_eq!(ServiceName::new("").unwrap_err(), ServiceNameError::Empty);
    assert_eq!(ServiceName::new(&"a".repeat(64)).unwrap_err(), ServiceNameError::TooLong);
    assert!(ServiceName::new(&"a".repeat(63)).is_ok());
    assert_eq!(ServiceName::new("-app").unwrap_err(), ServiceNameError::StartsWithHyphen);
    assert_eq!(ServiceName::new("app-").unwrap_err(), ServiceNameError::EndsWithHyphen);
    assert_eq!(ServiceName::new("MyApp").unwrap_err(), ServiceNameError::NotLowercase);
    assert_eq!(ServiceName::new("my_app").unwrap_err(), ServiceNameError::InvalidChar('_'));
    assert_eq!(
        ServiceName::new("my_app").unwrap_err().to_string(),
        "invalid character in service name: '_'"
    );
}

#[test]
fn a_service_name_is_its_own_alias() {
    let name = ServiceName::new("web-2").unwrap();
    assert_eq!(name.as_alias().as_str(), "web-2");
    assert_eq!(NetworkAlias::new("web-2").unwrap().as_str(), "web-2");
}

#[test]
fn aliases_are_trimmed_and_checked() {
    assert_eq!(NetworkAlias::new("  api ").unwrap().as_str(), "api");
    assert!(matches!(NetworkAlias::new("   "), Err(NetworkAliasError::Empty)));
    assert!(NetworkAlias::new("a b").is_err());
}

#[test]
fn image_references_parse_into_parts() {
    let r = ImageRef::parse("nginx").unwrap();
    assert_eq!(r.registry(), None);
    assert_eq!(r.name(), "nginx");
    assert_eq!(r.tag(), Some("latest"));
    assert_eq!(r.digest(), None);
    assert_eq!(r.to_string(), "nginx:latest");

    let r = ImageRef::parse("registry.example.com:5000/team/app:v2").unwrap();
    assert_eq!(r.registry(), Some("registry.example.com:5000"));
    assert_eq!(r.name(), "team/app");
    assert_eq!(r.tag(), Some("v2"));
    assert_eq!(r.to_string(), "registry.example.com:5000/team/app:v2");

    let r = ImageRef::parse("ghcr.io/org/myapp:v1.2.3").unwrap();
    assert_eq!(r.registry(), Some("ghcr.io"));
    assert_eq!(r.name(), "org/myapp");

    let r = ImageRef::parse("app@sha256:abc").unwrap();
    assert_eq!(r.tag(), None);
    assert_eq!(r.digest(), Some("sha256:abc"));
    assert_eq!(r.to_string(), "app@sha256:abc");
}

#[test]
fn image_reference_errors() {
    assert_eq!(ImageRef::parse("  ").unwrap_err(), ParseImageRefError::Empty);
    assert_eq!(ImageRef::parse("").unwrap_err().to_string(), "image reference cannot be empty");
    assert!(matches!(ImageRef::parse("ngi nx"), Err(ParseImageRefError::InvalidChar(' '))));
}

#[test]
fn displayed_image_reference_parses_back_to_itself() {
    for s in ["nginx", "a/b:c", "reg.io/x/y@sha256:00", "localhost:5000/app:1"] {
        let r = ImageRef::parse(s).unwrap();
        let again = ImageRef::parse(&r.to_string()).unwrap();
        assert_eq!(again.to_string(), r.to_string());
        assert_eq!(again.registry(), r.registry());
        assert_eq!(again.name(), r.name());
        assert_eq!(again.tag(), r.tag());
        assert_eq!(again.digest(), r.digest());
    }
}
